//! The services that the engine asks of its platform, as far as they are
//! decisions on plain values: instance identity, network availability, a
//! counting semaphore, and files held in memory.

use vstd::prelude::*;
use vstd::string::StringExecFns;

verus! {

/// The number of this instance of the emulator: there is only one.
pub fn instance_id() -> (id: i32)
    ensures
        id == 0,
{
    0
}

/// What this instance appends to the names of its files.
pub fn instance_file_suffix() -> (suffix: String)
    ensures
        suffix@ == ".instance"@,
{
    String::from_str(".instance")
}

/// Brings the local network up. There is none: it never comes up.
pub fn lan_init() -> (up: bool)
    ensures
        !up,
{
    false
}

/// Brings local multiplayer up. It has nothing to do and always succeeds.
pub fn mp_init() -> (up: bool)
    ensures
        up,
{
    true
}

/// A counting semaphore: the number of resources that can be taken.
pub struct NdsSemaphore {
    capacity: usize,
}

impl View for NdsSemaphore {
    type V = nat;

    closed spec fn view(&self) -> nat {
        self.capacity as nat
    }
}

impl NdsSemaphore {
    /// A semaphore with nothing to take.
    pub fn new() -> (semaphore: NdsSemaphore)
        ensures
            semaphore@ == 0,
    {
        NdsSemaphore { capacity: 0 }
    }

    /// The number of resources that can be taken.
    pub fn available(&self) -> (count: usize)
        ensures
            count == self@,
    {
        self.capacity
    }

    /// Takes all resources there are.
    pub fn reset(&mut self)
        ensures
            final(self)@ == 0,
    {
        self.capacity = 0;
    }

    /// Takes one resource if there is one, and says whether it did. To
    /// wait for a resource is to try until this succeeds.
    pub fn try_wait(&mut self) -> (taken: bool)
        ensures
            taken == (old(self)@ > 0),
            final(self)@ == if taken {
                (old(self)@ - 1) as nat
            } else {
                old(self)@
            },
    {
        if self.capacity > 0 {
            self.capacity -= 1;
            true
        } else {
            false
        }
    }

    /// Releases `count` resources.
    pub fn post(&mut self, count: i32)
        requires
            count >= 0,
            old(self)@ + count <= usize::MAX,
        ensures
            final(self)@ == old(self)@ + count,
    {
        self.capacity += count as usize;
    }
}

/// The bit of a file mode that asks for reading.
pub const MODE_READ: u8 = 0x01;

/// The bit of a file mode that asks for writing.
pub const MODE_WRITE: u8 = 0x02;

/// The bit of a file mode that keeps what the file holds.
pub const MODE_PRESERVE: u8 = 0x04;

/// The bit of a file mode that forbids creating the file.
pub const MODE_NO_CREATE: u8 = 0x08;

/// The bit of a file mode that marks a text file.
pub const MODE_TEXT: u8 = 0x10;

/// How a file is to be opened.
#[derive(Debug, PartialEq, Eq, Clone, Copy, Structural)]
pub struct OpenMode {
    pub read: bool,
    pub write: bool,
    /// Create the file where there is none.
    pub create: bool,
    /// Empty the file.
    pub truncate: bool,
}

/// What the mode bits `mode` ask for. A file is created and emptied only
/// when it is opened for writing, and then unless the mode says otherwise.
pub open spec fn open_mode_of(mode: u8) -> OpenMode {
    OpenMode {
        read: mode & MODE_READ != 0,
        write: mode & MODE_WRITE != 0,
        create: mode & MODE_WRITE != 0 && mode & MODE_NO_CREATE == 0,
        truncate: mode & MODE_WRITE != 0 && mode & MODE_PRESERVE == 0,
    }
}

/// Reads the mode bits of a request to open a file.
pub fn open_mode(mode: u8) -> (asked: OpenMode)
    ensures
        asked == open_mode_of(mode),
{
    let write: bool = mode & MODE_WRITE != 0;
    OpenMode {
        read: mode & MODE_READ != 0,
        write,
        create: write && mode & MODE_NO_CREATE == 0,
        truncate: write && mode & MODE_PRESERVE == 0,
    }
}

/// From where a seek in a file is measured.
#[derive(Debug, PartialEq, Eq, Clone, Copy, Structural)]
pub enum FileSeekOrigin {
    Start,
    Current,
    End,
}

/// An open file as the engine sees it: the bytes of the file, held in
/// memory, and a position in them.
pub struct NdsFileHandle {
    contents: Vec<u8>,
    position: u64,
    read: bool,
    write: bool,
}

/// Mathematical value of a [`NdsFileHandle`].
pub struct FileView {
    pub contents: Seq<u8>,
    pub position: nat,
    /// Whether the file was opened for reading.
    pub read: bool,
    /// Whether the file was opened for writing.
    pub write: bool,
}

impl View for NdsFileHandle {
    type V = FileView;

    closed spec fn view(&self) -> FileView {
        FileView {
            contents: self.contents@,
            position: self.position as nat,
            read: self.read,
            write: self.write,
        }
    }
}

/// The byte that ends a line.
pub const NEWLINE: u8 = 10;

/// The length of the first line of `bytes`, its newline included; all of
/// `bytes` where no line ends in them.
pub open spec fn line_len(bytes: Seq<u8>) -> nat
    decreases bytes.len(),
{
    if bytes.len() == 0 {
        0
    } else if bytes[0] == NEWLINE {
        1
    } else {
        1 + line_len(bytes.drop_first())
    }
}

impl FileView {
    /// The bytes from the position on.
    pub open spec fn rest(self) -> Seq<u8> {
        if self.position < self.contents.len() {
            self.contents.subrange(self.position as int, self.contents.len() as int)
        } else {
            Seq::empty()
        }
    }

    /// What a read of at most `limit` bytes gives.
    pub open spec fn read(self, limit: nat) -> Seq<u8> {
        if limit < self.rest().len() {
            self.rest().take(limit as int)
        } else {
            self.rest()
        }
    }

    /// What a read of a line of at most `limit` bytes gives.
    pub open spec fn line(self, limit: nat) -> Seq<u8> {
        self.read(limit).take(line_len(self.read(limit)) as int)
    }

    /// The file with the position moved on by `count`.
    pub open spec fn moved(self, count: nat) -> FileView {
        FileView { position: self.position + count, ..self }
    }

    /// The position that a seek aims at.
    pub open spec fn target(self, offset: i64, origin: FileSeekOrigin) -> int {
        match origin {
            FileSeekOrigin::Start => offset as u64 as int,
            FileSeekOrigin::Current => self.position + offset,
            FileSeekOrigin::End => self.contents.len() + offset,
        }
    }

    /// The bytes of the file after `bytes` have been written at the
    /// position: a gap between the end of the file and the position is
    /// filled with zeros, and the bytes replace what was there or extend the file.
    pub open spec fn overwritten(self, bytes: Seq<u8>) -> Seq<u8> {
        let end = self.position + bytes.len();
        Seq::new(
            if end > self.contents.len() {
                end
            } else {
                self.contents.len()
            },
            |index: int|
                if self.position <= index < end {
                    bytes[index - self.position]
                } else if index < self.contents.len() {
                    self.contents[index]
                } else {
                    0u8
                },
        )
    }
}

impl NdsFileHandle {
    /// A handle on a file that holds `contents`, at its start.
    pub fn new(contents: Vec<u8>, read: bool, write: bool) -> (handle: NdsFileHandle)
        ensures
            handle@ == (FileView { contents: contents@, position: 0, read, write }),
    {
        NdsFileHandle { contents, position: 0, read, write }
    }

    /// Whether the file was opened for reading.
    pub fn can_read(&self) -> (read: bool)
        ensures
            read == self@.read,
    {
        self.read
    }

    /// Whether the file was opened for writing.
    pub fn can_write(&self) -> (write: bool)
        ensures
            write == self@.write,
    {
        self.write
    }

    /// The bytes of the file.
    pub fn contents(&self) -> (contents: &Vec<u8>)
        ensures
            contents@ == self@.contents,
    {
        &self.contents
    }

    /// The position in the file.
    pub fn position(&self) -> (position: u64)
        ensures
            position == self@.position,
    {
        self.position
    }

    /// The length of the file.
    pub fn length(&self) -> (length: u64)
        ensures
            length == self@.contents.len(),
    {
        self.contents.len() as u64
    }

    /// Whether the position is exactly the end of the file.
    pub fn is_end(&self) -> (end: bool)
        ensures
            end == (self@.position == self@.contents.len()),
    {
        self.position == self.contents.len() as u64
    }

    /// The number of bytes from the position to the end of the file.
    fn remaining(&self) -> (count: usize)
        ensures
            count == self@.rest().len(),
            self@.contents.len() <= usize::MAX,
            count > 0 ==> self@.position + count == self@.contents.len(),
    {
        let len: usize = self.contents.len();
        if self.position < len as u64 {
            len - self.position as usize
        } else {
            0
        }
    }

    /// Reads `count` items of `size` bytes, or as many bytes of them as
    /// the file has left, and moves the position behind them. A product
    /// that does not fit in 64 bits counts as the largest that does.
    pub fn read(&mut self, size: u64, count: u64) -> (bytes: Vec<u8>)
        ensures
            bytes@ == old(self)@.read(
                if size * count <= u64::MAX {
                    (size * count) as nat
                } else {
                    u64::MAX as nat
                },
            ),
            final(self)@ == old(self)@.moved(bytes@.len()),
    {
        let limit: u64 = match size.checked_mul(count) {
            Some(product) => product,
            None => u64::MAX,
        };
        self.read_up_to(limit)
    }

    /// Reads at most `limit` bytes and moves the position behind them.
    fn read_up_to(&mut self, limit: u64) -> (bytes: Vec<u8>)
        ensures
            bytes@ == old(self)@.read(limit as nat),
            final(self)@ == old(self)@.moved(bytes@.len()),
    {
        let left: usize = self.remaining();
        let count: usize = if limit < left as u64 {
            limit as usize
        } else {
            left
        };
        let start: usize = if count > 0 {
            self.position as usize
        } else {
            0
        };
        let mut bytes: Vec<u8> = Vec::new();
        while bytes.len() < count
            invariant
                bytes.len() <= count,
                count > 0 ==> start + count <= self.contents.len() && start == self.position,
                forall|index: int|
                    0 <= index < bytes.len() ==> bytes[index] == self.contents[start + index],
            decreases count - bytes.len(),
        {
            bytes.push(self.contents[start + bytes.len()]);
        }
        assert(bytes@ =~= self@.read(limit as nat));
        self.position = self.position + count as u64;
        bytes
    }

    /// Reads a line of at most `count` bytes: the bytes up to and with the
    /// next newline, or all that the limit and the file leave. The
    /// position moves behind them. A negative `count` sets no limit.
    pub fn read_line(&mut self, count: i32) -> (line: Vec<u8>)
        ensures
            line@ == old(self)@.line(
                if count >= 0 {
                    count as nat
                } else {
                    (0x1_0000_0000_0000_0000 + count) as nat
                },
            ),
            final(self)@ == old(self)@.moved(line@.len()),
    {
        let limit: u64 = if count >= 0 {
            count as u64
        } else {
            u64::MAX - ((-(count as i64)) as u64 - 1)
        };
        let left: usize = self.remaining();
        let reach: usize = if limit < left as u64 {
            limit as usize
        } else {
            left
        };
        let start: usize = if reach > 0 {
            self.position as usize
        } else {
            0
        };
        let ghost within = self@.read(limit as nat);
        let mut line: Vec<u8> = Vec::new();
        let mut ended: bool = false;
        while !ended && line.len() < reach
            invariant
                line.len() <= reach,
                reach > 0 ==> start + reach <= self.contents.len() && start == self.position,
                within.len() == reach,
                forall|index: int|
                    0 <= index < reach ==> within[index] == self.contents[start + index],
                forall|index: int| 0 <= index < line.len() ==> line[index] == within[index],
                ended ==> line.len() > 0 && line[line.len() - 1] == NEWLINE,
                forall|index: int|
                    0 <= index < line.len() - (if ended {
                        1int
                    } else {
                        0int
                    }) ==> within[index] != NEWLINE,
            decreases reach - line.len() + (if ended { 0int } else { 1int }),
        {
            let byte: u8 = self.contents[start + line.len()];
            line.push(byte);
            ended = byte == NEWLINE;
        }
        proof {
            lemma_line_len(within, line@.len(), ended);
            assert(line@ =~= within.take(line@.len() as int));
        }
        self.position = self.position + line.len() as u64;
        line
    }

    /// Moves the position to `offset` from `origin` and says whether it
    /// could: a position before the start of the file, or one that 64 bits
    /// cannot hold, cannot be sought, and the position then stays. From
    /// the start, `offset` is taken as an unsigned number.
    pub fn seek(&mut self, offset: i64, origin: FileSeekOrigin) -> (done: bool)
        ensures
            done == (0 <= old(self)@.target(offset, origin) <= u64::MAX),
            final(self)@ == if done {
                FileView { position: old(self)@.target(offset, origin) as nat, ..old(self)@ }
            } else {
                old(self)@
            },
    {
        let target: i128 = match origin {
            FileSeekOrigin::Start => (offset as u64) as i128,
            FileSeekOrigin::Current => self.position as i128 + offset as i128,
            FileSeekOrigin::End => self.contents.len() as i128 + offset as i128,
        };
        if 0 <= target && target <= u64::MAX as i128 {
            self.position = target as u64;
            true
        } else {
            false
        }
    }

    /// Moves the position to the start of the file.
    pub fn rewind(&mut self)
        ensures
            final(self)@ == (FileView { position: 0, ..old(self)@ }),
    {
        self.position = 0;
    }

    /// Writes `src` at the position and moves the position behind it;
    /// gives the number of bytes written. Nothing is written at a position
    /// that cannot be one of a byte in memory.
    pub fn write(&mut self, src: &[u8]) -> (count: u64)
        requires
            old(self)@.position <= usize::MAX ==> old(self)@.position + src@.len() <= usize::MAX,
        ensures
            old(self)@.position <= usize::MAX ==> {
                &&& count == src@.len()
                &&& final(self)@ == (FileView {
                    contents: old(self)@.overwritten(src@),
                    position: old(self)@.position + src@.len(),
                    ..old(self)@
                })
            },
            old(self)@.position > usize::MAX ==> count == 0 && final(self)@ == old(self)@,
    {
        if self.position > usize::MAX as u64 {
            return 0;
        }
        let start: usize = self.position as usize;
        while self.contents.len() < start
            invariant
                self.position == old(self).position,
                self.read == old(self).read,
                self.write == old(self).write,
                old(self).contents.len() <= self.contents.len(),
                self.contents.len() <= start || self.contents.len() == old(self).contents.len(),
                forall|index: int|
                    0 <= index < self.contents.len() ==> self.contents[index] == if index < old(
                        self,
                    ).contents.len() {
                        old(self).contents[index]
                    } else {
                        0u8
                    },
            decreases start - self.contents.len(),
        {
            self.contents.push(0);
        }
        let ghost padded = self.contents@;
        let mut done: usize = 0;
        while done < src.len()
            invariant
                done <= src.len(),
                start + src.len() <= usize::MAX,
                self.position == old(self).position,
                self.read == old(self).read,
                self.write == old(self).write,
                start <= padded.len(),
                self.contents.len() == if start + done > padded.len() {
                    start + done
                } else {
                    padded.len() as int
                },
                forall|index: int|
                    0 <= index < self.contents.len() ==> self.contents[index] == if start <= index
                        < start + done {
                        src[index - start]
                    } else {
                        padded[index]
                    },
            decreases src.len() - done,
        {
            if start + done < self.contents.len() {
                self.contents.set(start + done, src[done]);
            } else {
                self.contents.push(src[done]);
            }
            done += 1;
        }
        assert(self.contents@ =~= old(self)@.overwritten(src@));
        self.position = self.position + src.len() as u64;
        src.len() as u64
    }
}

/// A line that was read byte by byte is the first line of what it was read
/// from: it has no newline before its last byte, and it ended with a
/// newline or with all bytes read.
proof fn lemma_line_len(bytes: Seq<u8>, read: nat, ended: bool)
    requires
        read <= bytes.len(),
        ended ==> read > 0 && bytes[read - 1] == NEWLINE,
        !ended ==> read == bytes.len(),
        forall|index: int|
            0 <= index < read - (if ended { 1int } else { 0int }) ==> bytes[index] != NEWLINE,
    ensures
        line_len(bytes) == read,
    decreases bytes.len(),
{
    if bytes.len() > 0 && bytes[0] != NEWLINE {
        let rest = bytes.drop_first();
        assert forall|index: int|
            0 <= index < read - 1 - (if ended {
                1int
            } else {
                0int
            }) implies rest[index] != NEWLINE by {
            assert(rest[index] == bytes[index + 1]);
        }
        if ended {
            assert(rest[read - 2] == bytes[read - 1]);
        }
        lemma_line_len(rest, (read - 1) as nat, ended);
    }
}

} // verus!
