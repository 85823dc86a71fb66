//! The copy of the cartridge's save memory that the frontend keeps.

use vstd::prelude::*;
use vstd::slice::slice_to_vec;

verus! {

/// Whether the byte at `index` is taken over by a write of `count` bytes at
/// `offset` into save memory of `len` bytes. A write that runs over the
/// end goes on at the start, for as many bytes as ran over and at most all.
pub open spec fn written(len: int, offset: int, count: int, index: int) -> bool {
    0 <= index < len && (offset <= index < offset + count || index < offset + count - len)
}

/// The buffer after the engine has reported a write of `count` bytes at
/// `offset` into save memory that now holds `data`: a buffer of another
/// length is replaced by `data`; one of the same length takes over the
/// written bytes of `data` and keeps the others.
pub open spec fn saved(buffer: Seq<u8>, data: Seq<u8>, offset: int, count: int) -> Seq<u8> {
    if buffer.len() != data.len() {
        data
    } else {
        Seq::new(
            data.len(),
            |index: int|
                if written(data.len() as int, offset, count, index) {
                    data[index]
                } else {
                    buffer[index]
                },
        )
    }
}

/// Copies `source[from..to]` over the same stretch of `target`.
fn copy_stretch(target: &mut Vec<u8>, source: &[u8], from: usize, to: usize)
    requires
        old(target)@.len() == source@.len(),
        from <= to <= source@.len(),
    ensures
        final(target)@ == Seq::new(
            source@.len(),
            |index: int|
                if from <= index < to {
                    source@[index]
                } else {
                    old(target)@[index]
                },
        ),
{
    let mut at: usize = from;
    while at < to
        invariant
            from <= at <= to <= source@.len(),
            target@.len() == source@.len(),
            forall|index: int|
                0 <= index < source@.len() ==> target@[index] == if from <= index < at {
                    source@[index]
                } else {
                    old(target)@[index]
                },
        decreases to - at,
    {
        target.set(at, source[at]);
        at += 1;
    }
    assert(target@ =~= Seq::new(
        source@.len(),
        |index: int|
            if from <= index < to {
                source@[index]
            } else {
                old(target)@[index]
            },
    ));
}

/// Brings the buffer up to date after the engine has written `write_len`
/// bytes at `write_offset` into its save memory, which now holds `save_data`.
///
/// A write into save memory of the buffer's length must begin in it.
pub fn write_save(
    save_buffer: &mut Vec<u8>,
    save_data: &[u8],
    write_offset: usize,
    write_len: usize,
)
    requires
        write_offset + write_len <= usize::MAX,
        old(save_buffer)@.len() == save_data@.len() ==> write_offset <= save_data@.len(),
    ensures
        final(save_buffer)@ == saved(
            old(save_buffer)@,
            save_data@,
            write_offset as int,
            write_len as int,
        ),
{
    let len: usize = save_data.len();
    if len != save_buffer.len() {
        *save_buffer = slice_to_vec(save_data);
    } else if write_offset + write_len <= len {
        copy_stretch(save_buffer, save_data, write_offset, write_offset + write_len);
        assert(save_buffer@ =~= saved(
            old(save_buffer)@,
            save_data@,
            write_offset as int,
            write_len as int,
        ));
    } else {
        copy_stretch(save_buffer, save_data, write_offset, len);
        let over: usize = write_offset + write_len - len;
        let overflow_len: usize = if over < len {
            over
        } else {
            len
        };
        copy_stretch(save_buffer, save_data, 0, overflow_len);
        assert(save_buffer@ =~= saved(
            old(save_buffer)@,
            save_data@,
            write_offset as int,
            write_len as int,
        ));
    }
}

} // verus!
