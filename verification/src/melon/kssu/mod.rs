//! Readers for what one game keeps in the console's main RAM.

use self::addresses::{ACTOR_COLLECTION, MAIN_RAM_OFFSET};
use self::io::{le_i16, le_i32, le_u32, MemCursor, ReadError, SeekFrom};
use vstd::prelude::*;

pub mod addresses;
pub mod io;

verus! {

/// The number of entries in the table of actors.
pub const ACTOR_SLOTS: usize = 7;

/// The bytes from the start of an actor to the end of what is read of it.
pub const ACTOR_BYTES: u64 = 140;

/// The bytes from the start of an actor to its position.
pub const ACTOR_POSITION: u64 = 128;

#[derive(Debug, PartialEq, Eq)]
pub struct HitCollection {
    /// length of 32
    hits: Vec<Hit>,
}

/// The actors of the table, one entry per slot; an empty slot is `None`.
#[derive(Debug, PartialEq, Eq)]
pub struct ActorCollection {
    /// length of 7
    actors: Vec<Option<Actor>>,
}

#[derive(Debug, PartialEq, Eq)]
pub struct Hit {
    pub next: Option<Box<Hit>>,
    /// addr 0x14
    pub effect_data_addr: HitEffectData,
    /// addr 0x24
    pub x1: i16,
    pub y1: i16,
    pub x2: i16,
    pub y2: i16,
    /// addr 0x238
    pub hp: u16,
}

#[derive(Debug, PartialEq, Eq, Clone, Copy)]
pub struct HitEffectData {
    /// addr 0xa
    pub effect: u8,
    pub power: i8,
    /// addr 0x14
    pub dmg: i16,
}

/// An actor of the game, with the actors that lie behind it in memory as
/// long as each says that another follows.
#[derive(Debug, PartialEq, Eq)]
pub struct Actor {
    pub next: Option<Box<Actor>>,
    /// addr 0x80
    pub x: i32,
    pub y: i32,
    pub speed_x: i16,
    pub speed_y: i16,
}

/// The actor that lies `at` bytes into `ram`.
///
/// An actor begins with the address of the next one and has, 128 bytes in,
/// its position and its speed. Where the address of the next is not zero,
/// another actor lies directly behind what was read. An actor that the
/// memory ends in cannot be read.
pub open spec fn actor_at(ram: Seq<u8>, at: int) -> Result<Actor, ReadError>
    decreases ram.len() - at,
{
    if 0 <= at && at + ACTOR_BYTES <= ram.len() {
        let here = Actor {
            next: None,
            x: le_i32(ram.subrange(at + 128, at + 132)) as i32,
            y: le_i32(ram.subrange(at + 132, at + 136)) as i32,
            speed_x: le_i16(ram.subrange(at + 136, at + 138)) as i16,
            speed_y: le_i16(ram.subrange(at + 138, at + 140)) as i16,
        };
        if le_u32(ram.subrange(at, at + 4)) == 0 {
            Ok(here)
        } else {
            match actor_at(ram, at + ACTOR_BYTES) {
                Ok(next) => Ok(Actor { next: Some(Box::new(next)), ..here }),
                Err(error) => Err(error),
            }
        }
    } else {
        Err(ReadError::UnexpectedEof)
    }
}

/// The address in the `slot`th entry of the table of actors.
pub open spec fn slot_address(ram: Seq<u8>, table: int, slot: int) -> int {
    le_u32(ram.subrange(table + 4 * slot, table + 4 * slot + 4))
}

/// The actor of one entry of the table: none for the address zero, else
/// the actor at that address, which must not lie before the memory.
pub open spec fn slot_actor(ram: Seq<u8>, offset: int, address: int) -> Result<
    Option<Actor>,
    ReadError,
> {
    if address == 0 {
        Ok(None)
    } else if address < offset {
        Err(ReadError::InvalidSeek)
    } else {
        match actor_at(ram, address - offset) {
            Ok(actor) => Ok(Some(actor)),
            Err(error) => Err(error),
        }
    }
}

/// The actors of the first `count` entries of the table, or the error of
/// the first entry that cannot be read.
pub open spec fn slot_actors(ram: Seq<u8>, offset: int, table: int, count: nat) -> Result<
    Seq<Option<Actor>>,
    ReadError,
>
    decreases count,
{
    if count == 0 {
        Ok(Seq::empty())
    } else {
        match slot_actors(ram, offset, table, (count - 1) as nat) {
            Ok(before) => match slot_actor(ram, offset, slot_address(ram, table, count - 1)) {
                Ok(actor) => Ok(before.push(actor)),
                Err(error) => Err(error),
            },
            Err(error) => Err(error),
        }
    }
}

/// The table of actors of memory whose first byte has the address
/// `offset`: the table lies at [`ACTOR_COLLECTION`] and must lie in the memory whole.
pub open spec fn actors_in(ram: Seq<u8>, offset: int) -> Result<Seq<Option<Actor>>, ReadError> {
    let table = ACTOR_COLLECTION - offset;
    if table < 0 {
        Err(ReadError::InvalidSeek)
    } else if table + 4 * ACTOR_SLOTS > ram.len() {
        Err(ReadError::UnexpectedEof)
    } else {
        slot_actors(ram, offset, table, ACTOR_SLOTS as nat)
    }
}

impl View for ActorCollection {
    type V = Seq<Option<Actor>>;

    closed spec fn view(&self) -> Seq<Option<Actor>> {
        self.actors@
    }
}

impl Actor {
    /// Reads the actor at the cursor.
    pub fn read(cursor: &mut MemCursor) -> (actor: Result<Actor, ReadError>)
        ensures
            actor == actor_at(old(cursor)@.bytes, old(cursor)@.position as int),
            final(cursor)@.bytes == old(cursor)@.bytes,
            final(cursor)@.offset == old(cursor)@.offset,
        decreases old(cursor)@.bytes.len() - old(cursor)@.position,
    {
        if !cursor.has(ACTOR_BYTES) {
            return Err(ReadError::UnexpectedEof);
        }
        let next_addr: u32 = cursor.read_u32()?;
        cursor.skip(ACTOR_POSITION - 4);
        let x: i32 = cursor.read_i32()?;
        let y: i32 = cursor.read_i32()?;
        let speed_x: i16 = cursor.read_i16()?;
        let speed_y: i16 = cursor.read_i16()?;
        let next: Option<Box<Actor>> = if next_addr == 0 {
            None
        } else {
            Some(Box::new(Actor::read(cursor)?))
        };
        Ok(Actor { next, x, y, speed_x, speed_y })
    }
}

impl ActorCollection {
    /// The actors, one entry per slot of the table.
    pub fn actors(&self) -> (actors: &Vec<Option<Actor>>)
        ensures
            actors@ == self@,
    {
        &self.actors
    }

    /// Reads the actor that the entry `address` of the table points to.
    fn read_slot(cursor: &mut MemCursor, address: u32) -> (actor: Result<Option<Actor>, ReadError>)
        ensures
            actor == slot_actor(old(cursor)@.bytes, old(cursor)@.offset as int, address as int),
            final(cursor)@.bytes == old(cursor)@.bytes,
            final(cursor)@.offset == old(cursor)@.offset,
    {
        if address == 0 {
            Ok(None)
        } else {
            cursor.seek(SeekFrom::Start(address as u64))?;
            Ok(Some(Actor::read(cursor)?))
        }
    }

    /// Reads the table of actors and the actors it points to.
    pub fn read(cursor: &mut MemCursor) -> (collection: Result<ActorCollection, ReadError>)
        ensures
            match collection {
                Ok(found) => Ok::<Seq<Option<Actor>>, ReadError>(found@) == actors_in(
                    old(cursor)@.bytes,
                    old(cursor)@.offset as int,
                ),
                Err(error) => Err::<Seq<Option<Actor>>, ReadError>(error) == actors_in(
                    old(cursor)@.bytes,
                    old(cursor)@.offset as int,
                ),
            },
            final(cursor)@.bytes == old(cursor)@.bytes,
            final(cursor)@.offset == old(cursor)@.offset,
    {
        let ghost ram = cursor@.bytes;
        let ghost offset = cursor@.offset as int;
        let ghost table = ACTOR_COLLECTION - offset;
        cursor.seek(SeekFrom::Start(ACTOR_COLLECTION as u64))?;
        if !cursor.has(4 * ACTOR_SLOTS as u64) {
            return Err(ReadError::UnexpectedEof);
        }
        let mut addresses: Vec<u32> = Vec::new();
        while addresses.len() < ACTOR_SLOTS
            invariant
                cursor@.bytes == ram,
                cursor@.offset == offset,
                cursor@.position == table + 4 * addresses.len(),
                0 <= table,
                table + 4 * ACTOR_SLOTS <= ram.len(),
                addresses.len() <= ACTOR_SLOTS,
                forall|slot: int|
                    0 <= slot < addresses.len() ==> addresses[slot] == slot_address(
                        ram,
                        table,
                        slot,
                    ),
            decreases ACTOR_SLOTS - addresses.len(),
        {
            let address: u32 = cursor.read_u32()?;
            addresses.push(address);
        }
        let mut actors: Vec<Option<Actor>> = Vec::new();
        while actors.len() < ACTOR_SLOTS
            invariant
                ram == old(cursor)@.bytes,
                offset == old(cursor)@.offset,
                cursor@.bytes == ram,
                cursor@.offset == offset,
                addresses.len() == ACTOR_SLOTS,
                actors.len() <= ACTOR_SLOTS,
                forall|slot: int|
                    0 <= slot < ACTOR_SLOTS ==> addresses[slot] == slot_address(ram, table, slot),
                slot_actors(ram, offset, table, actors.len() as nat) == Ok::<
                    Seq<Option<Actor>>,
                    ReadError,
                >(actors@),
                actors_in(ram, offset) == slot_actors(ram, offset, table, ACTOR_SLOTS as nat),
            decreases ACTOR_SLOTS - actors.len(),
        {
            let ghost done = actors.len() as nat;
            let address: u32 = addresses[actors.len()];
            assert(address == slot_address(ram, table, done as int));
            let read = ActorCollection::read_slot(cursor, address);
            proof {
                lemma_next_slot(ram, offset, table, done + 1);
            }
            match read {
                Ok(actor) => actors.push(actor),
                Err(error) => {
                    proof {
                        lemma_failure_lasts(ram, offset, table, done + 1, ACTOR_SLOTS as nat);
                    }
                    return Err(error);
                },
            }
        }
        Ok(ActorCollection { actors })
    }
}

/// An entry that cannot be read fails the whole table, however many
/// entries are asked for behind it.
/// The first `count` entries are the entries before the last of them and
/// that last one.
proof fn lemma_next_slot(ram: Seq<u8>, offset: int, table: int, count: nat)
    requires
        count > 0,
    ensures
        slot_actors(ram, offset, table, count) == match slot_actors(
            ram,
            offset,
            table,
            (count - 1) as nat,
        ) {
            Ok(before) => match slot_actor(ram, offset, slot_address(ram, table, count - 1)) {
                Ok(actor) => Ok(before.push(actor)),
                Err(error) => Err(error),
            },
            Err(error) => Err(error),
        },
{
}

proof fn lemma_failure_lasts(ram: Seq<u8>, offset: int, table: int, failing: nat, count: nat)
    requires
        failing <= count,
        slot_actors(ram, offset, table, failing) is Err,
    ensures
        slot_actors(ram, offset, table, count) == slot_actors(ram, offset, table, failing),
    decreases count,
{
    if failing < count {
        lemma_failure_lasts(ram, offset, table, failing, (count - 1) as nat);
    }
}

/// Reads the table of actors from the console's main RAM.
pub fn read_actors(ram: &[u8]) -> (collection: Result<ActorCollection, ReadError>)
    ensures
        match collection {
            Ok(found) => Ok::<Seq<Option<Actor>>, ReadError>(found@) == actors_in(
                ram@,
                MAIN_RAM_OFFSET as int,
            ),
            Err(error) => Err::<Seq<Option<Actor>>, ReadError>(error) == actors_in(
                ram@,
                MAIN_RAM_OFFSET as int,
            ),
        },
{
    let mut mem_cursor = MemCursor::new(ram, MAIN_RAM_OFFSET as u64);
    ActorCollection::read(&mut mem_cursor)
}

} // verus!
