//! A cursor over a stretch of the console's memory that is addressed as
//! the console addresses it.

use byteorder::{ByteOrder, LittleEndian};
use vstd::prelude::*;
use vstd::slice::slice_subrange;

verus! {

/// The number that four bytes stand for, least significant byte first.
pub open spec fn le_u32(bytes: Seq<u8>) -> int {
    bytes[0] as int + 0x100 * bytes[1] as int + 0x1_0000 * bytes[2] as int + 0x100_0000
        * bytes[3] as int
}

/// The number that two bytes stand for, least significant byte first.
pub open spec fn le_u16(bytes: Seq<u8>) -> int {
    bytes[0] as int + 0x100 * bytes[1] as int
}

/// The signed number that four bytes stand for in two's complement, least
/// significant byte first.
pub open spec fn le_i32(bytes: Seq<u8>) -> int {
    if le_u32(bytes) >= 0x8000_0000 {
        le_u32(bytes) - 0x1_0000_0000
    } else {
        le_u32(bytes)
    }
}

/// The signed number that two bytes stand for in two's complement, least
/// significant byte first.
pub open spec fn le_i16(bytes: Seq<u8>) -> int {
    if le_u16(bytes) >= 0x8000 {
        le_u16(bytes) - 0x1_0000
    } else {
        le_u16(bytes)
    }
}

/// Calls `byteorder::LittleEndian::read_u32`, which reads the first four
/// bytes as a number, least significant byte first, and panics on fewer.
#[verifier::external_body]
fn read_le_u32(bytes: &[u8]) -> (value: u32)
    requires
        bytes@.len() >= 4,
    ensures
        value == le_u32(bytes@),
{
    LittleEndian::read_u32(bytes)
}

/// Calls `byteorder::LittleEndian::read_i32`, which reads the first four
/// bytes as a number in two's complement, least significant byte first,
/// and panics on fewer.
#[verifier::external_body]
fn read_le_i32(bytes: &[u8]) -> (value: i32)
    requires
        bytes@.len() >= 4,
    ensures
        value == le_i32(bytes@),
{
    LittleEndian::read_i32(bytes)
}

/// Calls `byteorder::LittleEndian::read_i16`, which reads the first two
/// bytes as a number in two's complement, least significant byte first,
/// and panics on fewer.
#[verifier::external_body]
fn read_le_i16(bytes: &[u8]) -> (value: i16)
    requires
        bytes@.len() >= 2,
    ensures
        value == le_i16(bytes@),
{
    LittleEndian::read_i16(bytes)
}

/// Why a read from memory failed.
#[derive(Debug, PartialEq, Eq, Clone, Copy, Structural)]
pub enum ReadError {
    /// The memory ends before the value does.
    UnexpectedEof,
    /// The place sought lies before the start of the memory, or cannot be
    /// told as an address.
    InvalidSeek,
}

/// Where to seek: an address, or a distance from the end of the memory or
/// from the cursor.
#[derive(Debug, PartialEq, Eq, Clone, Copy, Structural)]
pub enum SeekFrom {
    Start(u64),
    End(i64),
    Current(i64),
}

/// A cursor over memory whose first byte has the address `offset`.
pub struct MemCursor<'a> {
    inner: &'a [u8],
    position: u64,
    offset: u64,
}

/// Mathematical value of a [`MemCursor`]: the memory, the distance of the
/// cursor from its first byte, and the address of its first byte.
pub struct MemCursorView {
    pub bytes: Seq<u8>,
    pub position: nat,
    pub offset: nat,
}

impl<'a> View for MemCursor<'a> {
    type V = MemCursorView;

    closed spec fn view(&self) -> MemCursorView {
        MemCursorView {
            bytes: self.inner@,
            position: self.position as nat,
            offset: self.offset as nat,
        }
    }
}

impl MemCursorView {
    /// The distance from the first byte that a seek aims at.
    pub open spec fn target(self, pos: SeekFrom) -> int {
        match pos {
            SeekFrom::Start(address) => address - self.offset,
            SeekFrom::End(distance) => self.bytes.len() + distance,
            SeekFrom::Current(distance) => self.position + distance,
        }
    }

    /// Whether a seek can be made: its target lies at or behind the first
    /// byte, and target and address fit in 64 bits.
    pub open spec fn reachable(self, pos: SeekFrom) -> bool {
        0 <= self.target(pos) && self.target(pos) + self.offset <= u64::MAX
    }

    /// Whether `count` bytes lie at the cursor.
    pub open spec fn holds(self, count: nat) -> bool {
        self.position + count <= self.bytes.len()
    }

    /// The `count` bytes at the cursor.
    pub open spec fn next_bytes(self, count: nat) -> Seq<u8> {
        self.bytes.subrange(self.position as int, (self.position + count) as int)
    }

    /// The cursor after an attempt to read `count` bytes: behind them
    /// where they are there, at the end of the memory where they are not.
    pub open spec fn after_read(self, count: nat) -> MemCursorView {
        MemCursorView {
            position: if self.holds(count) {
                self.position + count
            } else {
                self.bytes.len()
            },
            ..self
        }
    }
}

impl<'a> MemCursor<'a> {
    /// A cursor at the first byte of `inner`, which has the address `offset`.
    pub fn new(inner: &'a [u8], offset: u64) -> (cursor: MemCursor<'a>)
        ensures
            cursor@ == (MemCursorView { bytes: inner@, position: 0, offset: offset as nat }),
    {
        MemCursor { inner, position: 0, offset }
    }

    /// The address at which the cursor stands, where it can be told.
    pub fn position(&self) -> (address: Option<u64>)
        ensures
            address == if self@.position + self@.offset <= u64::MAX {
                Some((self@.position + self@.offset) as u64)
            } else {
                None
            },
    {
        self.position.checked_add(self.offset)
    }

    /// Whether `count` bytes lie at the cursor.
    pub fn has(&self, count: u64) -> (there: bool)
        ensures
            there == self@.holds(count as nat),
    {
        let len: u64 = self.inner.len() as u64;
        self.position <= len && len - self.position >= count
    }

    /// Moves the cursor forward over `count` bytes that lie at it.
    pub fn skip(&mut self, count: u64)
        requires
            old(self)@.holds(count as nat),
        ensures
            final(self)@ == old(self)@.after_read(count as nat),
    {
        let len: usize = self.inner.len();
        self.position = self.position + count;
    }

    /// Moves the cursor and gives its new address. The cursor may come to
    /// stand behind the end of the memory. A seek that cannot be made
    /// leaves the cursor where it is.
    pub fn seek(&mut self, pos: SeekFrom) -> (address: Result<u64, ReadError>)
        ensures
            match address {
                Ok(at) => {
                    &&& old(self)@.reachable(pos)
                    &&& at == old(self)@.target(pos) + old(self)@.offset
                    &&& final(self)@ == (MemCursorView {
                        position: old(self)@.target(pos) as nat,
                        ..old(self)@
                    })
                },
                Err(error) => {
                    &&& !old(self)@.reachable(pos)
                    &&& error == ReadError::InvalidSeek
                    &&& final(self)@ == old(self)@
                },
            },
    {
        let target: i128 = match pos {
            SeekFrom::Start(address) => address as i128 - self.offset as i128,
            SeekFrom::End(distance) => self.inner.len() as i128 + distance as i128,
            SeekFrom::Current(distance) => self.position as i128 + distance as i128,
        };
        if target < 0 || target + self.offset as i128 > u64::MAX as i128 {
            Err(ReadError::InvalidSeek)
        } else {
            self.position = target as u64;
            Ok((target + self.offset as i128) as u64)
        }
    }

    /// The `count` bytes at the cursor, behind which the cursor then
    /// stands. Where fewer are left, the cursor goes to the end of the memory.
    fn take(&mut self, count: usize) -> (bytes: Result<&'a [u8], ReadError>)
        requires
            count <= 8,
        ensures
            final(self)@ == old(self)@.after_read(count as nat),
            match bytes {
                Ok(found) => old(self)@.holds(count as nat) && found@ == old(self)@.next_bytes(
                    count as nat,
                ),
                Err(error) => !old(self)@.holds(count as nat) && error == ReadError::UnexpectedEof,
            },
    {
        let len: usize = self.inner.len();
        if self.position <= len as u64 && len - self.position as usize >= count {
            let start: usize = self.position as usize;
            let found = slice_subrange(self.inner, start, start + count);
            self.position = self.position + count as u64;
            Ok(found)
        } else {
            self.position = len as u64;
            Err(ReadError::UnexpectedEof)
        }
    }

    /// Reads an unsigned number of 32 bits, least significant byte first.
    pub fn read_u32(&mut self) -> (value: Result<u32, ReadError>)
        ensures
            final(self)@ == old(self)@.after_read(4),
            match value {
                Ok(number) => old(self)@.holds(4) && number == le_u32(old(self)@.next_bytes(4)),
                Err(error) => !old(self)@.holds(4) && error == ReadError::UnexpectedEof,
            },
    {
        match self.take(4) {
            Ok(bytes) => Ok(read_le_u32(bytes)),
            Err(error) => Err(error),
        }
    }

    /// Reads a signed number of 32 bits, least significant byte first.
    pub fn read_i32(&mut self) -> (value: Result<i32, ReadError>)
        ensures
            final(self)@ == old(self)@.after_read(4),
            match value {
                Ok(number) => old(self)@.holds(4) && number == le_i32(old(self)@.next_bytes(4)),
                Err(error) => !old(self)@.holds(4) && error == ReadError::UnexpectedEof,
            },
    {
        match self.take(4) {
            Ok(bytes) => Ok(read_le_i32(bytes)),
            Err(error) => Err(error),
        }
    }

    /// Reads a signed number of 16 bits, least significant byte first.
    pub fn read_i16(&mut self) -> (value: Result<i16, ReadError>)
        ensures
            final(self)@ == old(self)@.after_read(2),
            match value {
                Ok(number) => old(self)@.holds(2) && number == le_i16(old(self)@.next_bytes(2)),
                Err(error) => !old(self)@.holds(2) && error == ReadError::UnexpectedEof,
            },
    {
        match self.take(2) {
            Ok(bytes) => Ok(read_le_i16(bytes)),
            Err(error) => Err(error),
        }
    }
}

} // verus!
