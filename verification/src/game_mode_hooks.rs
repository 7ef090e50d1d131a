//! The settings of a game session, as the game lays them out in its memory.
use vstd::prelude::*;
use crate::ai_hooks::AiSlots;
use crate::errors::MemoryError;
use crate::memory::MemoryImage;
use crate::process::WindowsProcess;
use crate::value::MemoryValue;

verus! {

/// The options of a session.
#[derive(Copy, Clone, Debug)]
pub struct SessionOptionsClass {
    pub mp_game_mode: i32,
    pub scen_index: i32,
    pub game_speed: i32,
    pub credits: i32,
    pub unit_count: i32,
    pub short_game: bool,
    pub super_weapons_allowed: bool,
    pub build_off_ally: bool,
    pub mcv_repacks: bool,
    pub crates_appear: bool,
    pub slot_data: [Vector3D<i32>; 8],
}

/// Three coordinates.
#[derive(Copy, Clone, Debug)]
pub struct Vector3D<T> {
    pub x: T,
    pub y: T,
    pub z: T,
}

/// The number of bytes that the options of a game mode take in the game.
pub open spec fn options_width() -> nat {
    300
}

/// The offset at which the game keeps the options of its mode.
pub open spec fn options_offset() -> int {
    0xA8B250
}

/// The offset of the slots of the computer players inside the options.
pub open spec fn slots_offset() -> int {
    44
}

/// The four-byte number stored at `offset` of a record.
pub open spec fn number_at(bytes: Seq<u8>, offset: int) -> i32 {
    i32::decode(bytes.subrange(offset, offset + 4))
}

/// The eight numbers stored one after the other from `offset` on.
pub open spec fn numbers_at(bytes: Seq<u8>, offset: int) -> Seq<i32> {
    Seq::new(8, |i: int| number_at(bytes, offset + 4 * i))
}

/// The options of a game mode: the record of 300 bytes that the game keeps,
/// byte for byte.
#[derive(Copy, Clone, Debug)]
pub struct GameModeOptions {
    raw: [u8; 300],
}

/// Reads the eight numbers stored one after the other from `offset` on.
fn read_numbers(bytes: &[u8; 300], offset: usize) -> (numbers: [i32; 8])
    requires
        offset + 32 <= 300,
    ensures
        numbers@ == numbers_at(bytes@, offset as int),
{
    let mut numbers: [i32; 8] = [0, 0, 0, 0, 0, 0, 0, 0];
    let mut i: usize = 0;
    while i < 8
        invariant
            i <= 8,
            offset + 32 <= 300,
            forall|k: int| 0 <= k < i ==> numbers@[k] == number_at(bytes@, offset + 4 * k),
        decreases 8 - i,
    {
        let start: usize = offset + 4 * i;
        let field = vstd::slice::slice_subrange(bytes.as_slice(), start, start + 4);
        numbers[i] = i32::from_bytes(field);
        i += 1;
    }
    assert(numbers@ =~= numbers_at(bytes@, offset as int));
    numbers
}

impl GameModeOptions {
    /// The record, byte for byte.
    pub closed spec fn bytes(&self) -> Seq<u8> {
        self.raw@
    }

    /// The slots of the computer players that the record holds: five arrays
    /// of eight numbers each, one after the other.
    pub open spec fn spec_ai_slots(&self, slots: AiSlots) -> bool {
        &&& slots.difficulties() == numbers_at(self.bytes(), slots_offset())
        &&& slots.countries() == numbers_at(self.bytes(), slots_offset() + 32)
        &&& slots.colors() == numbers_at(self.bytes(), slots_offset() + 64)
        &&& slots.starts() == numbers_at(self.bytes(), slots_offset() + 96)
        &&& slots.allies() == numbers_at(self.bytes(), slots_offset() + 128)
    }

    /// A record always has its 300 bytes.
    pub proof fn lemma_width(&self)
        ensures
            self.bytes().len() == options_width(),
    {
        vstd::array::array_len_matches_n(&self.raw);
    }

    /// Reads the options of the mode of the game that runs in process `pid`
    /// from the memory that was transferred: the 300 bytes at the offset of
    /// the options from the base address of the process, all of them or
    /// none.
    pub fn read(pid: &WindowsProcess, memory: &MemoryImage) -> (options: Result<
        GameModeOptions,
        MemoryError,
    >)
        ensures
            match options {
                Ok(options) => memory@.covers(
                    pid.base_address + options_offset(),
                    options_width() as int,
                ) && options.bytes() == memory@.slice(
                    pid.base_address + options_offset(),
                    options_width() as int,
                ),
                Err(error) => !memory@.covers(
                    pid.base_address + options_offset(),
                    options_width() as int,
                ) && error == MemoryError::ReadMemoryError,
            },
    {
        let _ = memory.len();
        if pid.base_address > usize::MAX - 0xA8B250 {
            return Err(MemoryError::ReadMemoryError);
        }
        let bytes = match pid.read_bytes(pid.base_address + 0xA8B250, 300, memory) {
            Ok(bytes) => bytes,
            Err(error) => {
                return Err(error);
            },
        };
        let mut raw: [u8; 300] = [0u8; 300];
        let mut i: usize = 0;
        while i < 300
            invariant
                i <= 300,
                bytes@.len() == 300,
                forall|k: int| 0 <= k < i ==> raw@[k] == bytes@[k],
            decreases 300 - i,
        {
            raw[i] = bytes[i];
            i += 1;
        }
        assert(raw@ =~= bytes@);
        Ok(GameModeOptions { raw })
    }

    /// Writes the record to the memory that was transferred, at the address
    /// of the options: all of its bytes or none.
    pub fn write(&self, pid: &mut WindowsProcess, memory: &mut MemoryImage) -> (written: Result<
        (),
        MemoryError,
    >)
        ensures
            *final(pid) == *old(pid),
            match written {
                Ok(_) => old(memory)@.covers(options_offset(), options_width() as int)
                    && final(memory)@ == old(memory)@.store(options_offset(), self.bytes()),
                Err(error) => !old(memory)@.covers(options_offset(), options_width() as int)
                    && error == MemoryError::WriteMemoryError && final(memory)@ == old(memory)@,
            },
    {
        proof {
            self.lemma_width();
        }
        pid.write_bytes(0xA8B250, self.raw.as_slice(), memory)
    }

    /// The slots of the computer players.
    pub fn ai_slots(&self) -> (slots: AiSlots)
        ensures
            self.spec_ai_slots(slots),
    {
        AiSlots::new(
            read_numbers(&self.raw, 44),
            read_numbers(&self.raw, 76),
            read_numbers(&self.raw, 108),
            read_numbers(&self.raw, 140),
            read_numbers(&self.raw, 172),
        )
    }
}

impl Default for GameModeOptions {
    /// The blank record: every number zero, every switch off, every slot
    /// empty and the description blank.
    fn default() -> (options: GameModeOptions)
        ensures
            options.bytes() == Seq::new(options_width(), |i: int| 0u8),
    {
        let raw: [u8; 300] = [0u8; 300];
        assert(raw@ =~= Seq::new(300, |i: int| 0u8));
        GameModeOptions { raw }
    }
}

} // verus!
