//! The slots of the computer players of a game.
use vstd::prelude::*;
use crate::helpers::TransposedArray;

verus! {

/// The settings of all computer players, stored field by field.
#[derive(Copy, Clone, Debug)]
pub struct AiSlots {
    raw: RawAiSlots,
}

/// The settings of one computer player.
#[derive(Copy, Clone, Debug, PartialEq, Eq, Structural)]
pub struct AiSlot {
    pub difficulty: AiDifficulty,
    pub country: i32,
    pub color: i32,
    pub start: i32,
    pub allies: i32,
}

#[derive(Copy, Clone, Debug)]
pub(crate) struct RawAiSlots {
    difficulties: [i32; 8],
    countries: [i32; 8],
    colors: [i32; 8],
    starts: [i32; 8],
    allies: [i32; 8],
}

/// How strong a player is.
#[derive(Copy, Clone, Debug, PartialEq, Eq, Structural)]
pub enum AiDifficulty {
    Player,
    Hard,
    Normal,
    Easy,
    Extension { index: u16 },
}

/// The difficulty that a stored code stands for: -1 to 2 are the four
/// difficulties of the game, every other code is an extension whose index
/// is the low sixteen bits of the code.
pub open spec fn difficulty_of(code: i32) -> AiDifficulty {
    if code == -1 {
        AiDifficulty::Player
    } else if code == 0 {
        AiDifficulty::Hard
    } else if code == 1 {
        AiDifficulty::Normal
    } else if code == 2 {
        AiDifficulty::Easy
    } else {
        AiDifficulty::Extension { index: (code as int % 0x1_0000) as u16 }
    }
}

/// The difficulty that a stored code stands for.
pub fn difficulty_from_code(code: i32) -> (difficulty: AiDifficulty)
    ensures
        difficulty == difficulty_of(code),
{
    if code == -1 {
        AiDifficulty::Player
    } else if code == 0 {
        AiDifficulty::Hard
    } else if code == 1 {
        AiDifficulty::Normal
    } else if code == 2 {
        AiDifficulty::Easy
    } else if code >= 0 {
        AiDifficulty::Extension { index: (code % 0x1_0000) as u16 }
    } else {
        let below: i32 = -(code + 1);
        AiDifficulty::Extension { index: (0xFFFF - below % 0x1_0000) as u16 }
    }
}

impl Default for AiDifficulty {
    fn default() -> (difficulty: AiDifficulty)
        ensures
            difficulty == AiDifficulty::Easy,
    {
        AiDifficulty::Easy
    }
}

impl Default for AiSlot {
    fn default() -> (slot: AiSlot)
        ensures
            slot == (AiSlot {
                difficulty: AiDifficulty::Easy,
                country: 0,
                color: 0,
                start: 0,
                allies: 0,
            }),
    {
        AiSlot { difficulty: AiDifficulty::Easy, country: 0, color: 0, start: 0, allies: 0 }
    }
}

impl AiSlots {
    /// The stored difficulty codes, one for each slot.
    pub closed spec fn difficulties(&self) -> Seq<i32> {
        self.raw.difficulties@
    }

    /// The stored countries, one for each slot.
    pub closed spec fn countries(&self) -> Seq<i32> {
        self.raw.countries@
    }

    /// The stored colors, one for each slot.
    pub closed spec fn colors(&self) -> Seq<i32> {
        self.raw.colors@
    }

    /// The stored start positions, one for each slot.
    pub closed spec fn starts(&self) -> Seq<i32> {
        self.raw.starts@
    }

    /// The stored alliances, one for each slot.
    pub closed spec fn allies(&self) -> Seq<i32> {
        self.raw.allies@
    }

    /// The slot at `index`: the elements of the five arrays at that index,
    /// for the eight indices that the arrays have.
    pub open spec fn slot(&self, index: usize) -> Option<AiSlot> {
        if index > 7 {
            None
        } else {
            Some(
                AiSlot {
                    difficulty: difficulty_of(self.difficulties()[index as int]),
                    country: self.countries()[index as int],
                    color: self.colors()[index as int],
                    start: self.starts()[index as int],
                    allies: self.allies()[index as int],
                },
            )
        }
    }

    /// The slots made of the five arrays as they are stored.
    pub fn new(
        difficulties: [i32; 8],
        countries: [i32; 8],
        colors: [i32; 8],
        starts: [i32; 8],
        allies: [i32; 8],
    ) -> (slots: AiSlots)
        ensures
            slots.difficulties() == difficulties@,
            slots.countries() == countries@,
            slots.colors() == colors@,
            slots.starts() == starts@,
            slots.allies() == allies@,
    {
        AiSlots { raw: RawAiSlots { difficulties, countries, colors, starts, allies } }
    }

    /// The slot at `index`, or nothing for an index above 7.
    pub fn get_index(&self, index: usize) -> (slot: Option<AiSlot>)
        ensures
            slot == self.slot(index),
    {
        if index > 7 {
            return None;
        }
        Some(
            AiSlot {
                difficulty: difficulty_from_code(self.raw.difficulties[index]),
                country: self.raw.countries[index],
                color: self.raw.colors[index],
                start: self.raw.starts[index],
                allies: self.raw.allies[index],
            },
        )
    }
}

impl Default for AiSlots {
    fn default() -> (slots: AiSlots)
        ensures
            slots.difficulties() == Seq::new(8, |i: int| 0i32),
            slots.countries() == Seq::new(8, |i: int| 0i32),
            slots.colors() == Seq::new(8, |i: int| 0i32),
            slots.starts() == Seq::new(8, |i: int| 0i32),
            slots.allies() == Seq::new(8, |i: int| 0i32),
    {
        let zeros: [i32; 8] = [0, 0, 0, 0, 0, 0, 0, 0];
        assert(zeros@ =~= Seq::new(8, |i: int| 0i32));
        AiSlots::new(zeros, zeros, zeros, zeros, zeros)
    }
}

impl TransposedArray for AiSlots {
    type Transposed = AiSlot;

    open spec fn spec_get_index(&self, index: usize) -> Option<AiSlot> {
        self.slot(index)
    }

    fn get_index(&self, index: usize) -> (record: Option<AiSlot>) {
        AiSlots::get_index(self, index)
    }
}

} // verus!
