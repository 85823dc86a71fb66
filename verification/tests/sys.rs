use melon_rs::melon::sys::{
    instance_file_suffix, instance_id, lan_init, mp_init, open_mode, FileSeekOrigin,
    NdsFileHandle, NdsSemaphore, OpenMode, MODE_NO_CREATE, MODE_PRESERVE, MODE_READ, MODE_TEXT,
    MODE_WRITE,
};

#[test]
fn there_is_one_instance() {
    assert_eq!(instance_id(), 0);
    assert_eq!(instance_file_suffix(), ".instance");
}

#[test]
fn the_network_is_down_and_multiplayer_is_up() {
    assert!(!lan_init());
    assert!(mp_init());
}

#[test]
fn a_semaphore_counts_its_resources() {
    let mut semaphore = NdsSemaphore::new();
    assert!(!semaphore.try_wait());
    semaphore.post(2);
    assert_eq!(semaphore.available(), 2);
    assert!(semaphore.try_wait());
    assert_eq!(semaphore.available(), 1);
    assert!(semaphore.try_wait());
    assert!(!semaphore.try_wait());
    semaphore.post(0);
    assert!(!semaphore.try_wait());
    semaphore.post(3);
    semaphore.reset();
    assert!(!semaphore.try_wait());
}

#[test]
fn the_mode_bits_say_how_to_open_a_file() {
    assert_eq!((MODE_READ, MODE_WRITE, MODE_PRESERVE, MODE_NO_CREATE, MODE_TEXT), (1, 2, 4, 8, 16));
    assert_eq!(
        open_mode(MODE_READ),
        OpenMode { read: true, write: false, create: false, truncate: false }
    );
    assert_eq!(
        open_mode(MODE_WRITE),
        OpenMode { read: false, write: true, create: true, truncate: true }
    );
    assert_eq!(
        open_mode(MODE_READ | MODE_WRITE | MODE_PRESERVE),
        OpenMode { read: true, write: true, create: true, truncate: false }
    );
    assert_eq!(
        open_mode(MODE_WRITE | MODE_NO_CREATE | MODE_TEXT),
        OpenMode { read: false, write: true, create: false, truncate: true }
    );
    assert_eq!(
        open_mode(MODE_WRITE | MODE_NO_CREATE | MODE_PRESERVE),
        OpenMode { read: false, write: true, create: false, truncate: false }
    );
    assert_eq!(open_mode(0), OpenMode { read: false, write: false, create: false, truncate: false });
}

#[test]
fn a_file_knows_its_length_and_its_end() {
    let mut file = NdsFileHandle::new(vec![1, 2, 3], true, false);
    assert!(file.can_read());
    assert!(!file.can_write());
    assert_eq!(file.length(), 3);
    assert!(!file.is_end());
    assert!(file.seek(0, FileSeekOrigin::End));
    assert!(file.is_end());
    assert!(file.seek(1, FileSeekOrigin::End));
    assert!(!file.is_end());
    assert!(NdsFileHandle::new(vec![], false, true).is_end());
}

#[test]
fn a_read_gives_what_the_file_has_left_of_what_was_asked() {
    let mut file = NdsFileHandle::new(vec![1, 2, 3, 4, 5, 6, 7], true, false);
    assert_eq!(file.read(2, 2), vec![1, 2, 3, 4]);
    assert_eq!(file.read(1, 0), Vec::<u8>::new());
    assert_eq!(file.read(4, 1), vec![5, 6, 7]);
    assert!(file.is_end());
    assert_eq!(file.read(1, 1), Vec::<u8>::new());
    file.rewind();
    assert_eq!(file.read(u64::MAX, 2), vec![1, 2, 3, 4, 5, 6, 7]);
    assert!(file.seek(50, FileSeekOrigin::Start));
    assert_eq!(file.read(1, 1), Vec::<u8>::new());
    assert_eq!(file.contents(), &vec![1, 2, 3, 4, 5, 6, 7]);
}

#[test]
fn a_line_ends_with_its_newline_or_the_limit_or_the_file() {
    let mut file = NdsFileHandle::new(b"ab\ncdef\n\nxy".to_vec(), true, false);
    assert_eq!(file.read_line(100), b"ab\n".to_vec());
    assert_eq!(file.read_line(2), b"cd".to_vec());
    assert_eq!(file.read_line(3), b"ef\n".to_vec());
    assert_eq!(file.read_line(0), Vec::<u8>::new());
    assert_eq!(file.read_line(-1), b"\n".to_vec());
    assert_eq!(file.read_line(-1), b"xy".to_vec());
    assert_eq!(file.read_line(10), Vec::<u8>::new());
    assert!(file.is_end());
}

#[test]
fn a_seek_is_measured_from_its_origin() {
    let mut file = NdsFileHandle::new(vec![10, 11, 12, 13], true, false);
    assert!(file.seek(2, FileSeekOrigin::Start));
    assert_eq!(file.read(1, 1), vec![12]);
    assert!(file.seek(-2, FileSeekOrigin::Current));
    assert_eq!(file.read(1, 1), vec![11]);
    assert!(!file.seek(-3, FileSeekOrigin::Current));
    assert_eq!(file.read(1, 1), vec![12]);
    assert!(file.seek(-4, FileSeekOrigin::End));
    assert_eq!(file.read(1, 1), vec![10]);
    assert!(!file.seek(-5, FileSeekOrigin::End));
    assert!(file.seek(-1, FileSeekOrigin::Start));
    assert!(!file.seek(1, FileSeekOrigin::Current));
    assert!(!file.is_end());
    file.rewind();
    assert_eq!(file.read(1, 2), vec![10, 11]);
}

#[test]
fn a_write_replaces_extends_and_pads() {
    let mut file = NdsFileHandle::new(vec![1, 2, 3, 4], false, true);
    assert!(file.seek(1, FileSeekOrigin::Start));
    assert_eq!(file.position(), 1);
    assert_eq!(file.write(&[9, 8]), 2);
    assert_eq!(file.position(), 3);
    assert_eq!(file.contents(), &vec![1, 9, 8, 4]);
    assert_eq!(file.write(&[7, 6, 5]), 3);
    assert_eq!(file.contents(), &vec![1, 9, 8, 7, 6, 5]);
    assert!(file.is_end());
    assert!(file.seek(2, FileSeekOrigin::End));
    assert_eq!(file.write(&[]), 0);
    assert_eq!(file.contents(), &vec![1, 9, 8, 7, 6, 5, 0, 0]);
    assert!(file.seek(2, FileSeekOrigin::End));
    assert_eq!(file.write(&[3]), 1);
    assert_eq!(file.contents(), &vec![1, 9, 8, 7, 6, 5, 0, 0, 0, 0, 3]);
    assert_eq!(file.length(), 11);
    assert!(file.can_write());
    assert!(!file.can_read());
}
