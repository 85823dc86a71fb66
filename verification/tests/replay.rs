use melon_rs::replay::{
    resolve_frame_input, FrameInput, Replay, ReplaySource, ReplayState, ReplayWarning, Timestamp,
};

fn replay(name: &str, inputs: Vec<u32>) -> Replay {
    Replay {
        name: name.to_string(),
        author: "tester".to_string(),
        source: ReplaySource::SaveFile { path: None, timestamp: Timestamp { secs: 1_000, nanos: 0 } },
        inputs,
    }
}

#[test]
fn without_a_session_the_live_input_is_applied() {
    let mut session = None;
    let chosen = resolve_frame_input(5, 0x0f0, &mut session);
    assert_eq!(chosen, FrameInput { input: 0x0f0, force_pause: false, warning: None });
    assert!(session.is_none());
}

#[test]
fn playback_gives_the_recorded_input_whatever_the_live_input_is() {
    let recorded = vec![0x001, 0x002, 0x400, 0x000];
    let mut session = Some((replay("a.yml", recorded.clone()), ReplayState::Playing));
    for run in 0..3u32 {
        for (frame, expected) in recorded.iter().enumerate() {
            let live = 0xabc0 + run * 7 + frame as u32;
            let chosen = resolve_frame_input(frame as u32, live, &mut session);
            assert_eq!(chosen.input, *expected);
            assert_eq!(chosen.warning, None);
        }
    }
    assert_eq!(session.unwrap().0.inputs, recorded);
}

#[test]
fn playback_asks_for_a_pause_at_the_last_recorded_frame_only() {
    let mut session = Some((replay("a.yml", vec![1, 2, 3]), ReplayState::Playing));
    assert!(!resolve_frame_input(0, 0, &mut session).force_pause);
    assert!(!resolve_frame_input(1, 0, &mut session).force_pause);
    assert!(resolve_frame_input(2, 0, &mut session).force_pause);
    assert!(!resolve_frame_input(3, 0, &mut session).force_pause);
}

#[test]
fn playback_past_the_end_falls_back_on_the_live_input() {
    let mut session = Some((replay("a.yml", vec![1, 2, 3]), ReplayState::Playing));
    let chosen = resolve_frame_input(3, 0x77, &mut session);
    assert_eq!(
        chosen,
        FrameInput {
            input: 0x77,
            force_pause: false,
            warning: Some(ReplayWarning::PlaybackExhausted)
        }
    );
    let empty = resolve_frame_input(0, 0x55, &mut Some((replay("b.yml", vec![]), ReplayState::Playing)));
    assert_eq!(empty.input, 0x55);
    assert!(!empty.force_pause);
    assert_eq!(empty.warning, Some(ReplayWarning::PlaybackExhausted));
}

#[test]
fn recording_appends_at_the_first_unrecorded_frame() {
    let mut session = Some((replay("a.yml", vec![]), ReplayState::Recording));
    for (frame, live) in [0x10u32, 0x20, 0x30].iter().enumerate() {
        let chosen = resolve_frame_input(frame as u32, *live, &mut session);
        assert_eq!(chosen, FrameInput { input: *live, force_pause: false, warning: None });
    }
    assert_eq!(session.unwrap().0.inputs, vec![0x10, 0x20, 0x30]);
}

#[test]
fn recording_inside_the_log_truncates_and_appends() {
    let mut session = Some((replay("a.yml", vec![1, 2, 3, 4, 5]), ReplayState::Recording));
    let chosen = resolve_frame_input(2, 0x99, &mut session);
    assert_eq!(chosen.input, 0x99);
    let (after, mode) = session.unwrap();
    assert_eq!(after.inputs, vec![1, 2, 0x99]);
    assert_eq!(mode, ReplayState::Recording);
    assert_eq!(after.name, "a.yml");
    assert_eq!(after.author, "tester");
}

#[test]
fn recording_at_frame_zero_replaces_the_whole_log() {
    let mut log = replay("a.yml", vec![1, 2, 3]);
    assert!(log.record(0, 7));
    assert_eq!(log.inputs, vec![7]);
}

#[test]
fn recording_beyond_the_first_unrecorded_frame_changes_nothing() {
    let mut session = Some((replay("a.yml", vec![1, 2]), ReplayState::Recording));
    let chosen = resolve_frame_input(4, 0x31, &mut session);
    assert_eq!(
        chosen,
        FrameInput {
            input: 0x31,
            force_pause: false,
            warning: Some(ReplayWarning::FrameBeyondRecording)
        }
    );
    assert_eq!(session.unwrap().0.inputs, vec![1, 2]);
    let mut log = replay("b.yml", vec![1, 2]);
    assert!(!log.record(3, 9));
    assert!(log.record(2, 9));
    assert_eq!(log.inputs, vec![1, 2, 9]);
}

#[test]
fn a_recorded_session_plays_back_as_recorded() {
    let live: Vec<u32> = vec![0x001, 0x003, 0x000, 0x800, 0x801, 0x0ff];
    let mut recording = Some((replay("run.yml", vec![]), ReplayState::Recording));
    for (frame, input) in live.iter().enumerate() {
        resolve_frame_input(frame as u32, *input, &mut recording);
    }
    let saved = recording.unwrap().0.clone();
    assert_eq!(saved.inputs, live);
    let mut playing = Some((saved, ReplayState::Playing));
    let last = live.len() - 1;
    for (frame, input) in live.iter().enumerate() {
        let chosen = resolve_frame_input(frame as u32, 0xdead, &mut playing);
        assert_eq!(chosen.input, *input);
        assert_eq!(chosen.force_pause, frame == last);
    }
}

#[test]
fn recorded_at_reads_only_inside_the_log() {
    let log = replay("a.yml", vec![4, 5]);
    assert_eq!(log.recorded_at(0), Some(4));
    assert_eq!(log.recorded_at(1), Some(5));
    assert_eq!(log.recorded_at(2), None);
}

#[test]
fn a_clone_of_a_replay_equals_it() {
    let log = Replay {
        name: "a.yml".to_string(),
        author: "me".to_string(),
        source: ReplaySource::SaveFile {
            path: Some("save.bin".to_string()),
            timestamp: Timestamp { secs: -5, nanos: 17 },
        },
        inputs: vec![1, 2, 3],
    };
    assert_eq!(log.clone(), log);
}
