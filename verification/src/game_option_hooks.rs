//! The options of a running game, read from their fixed places in its
//! memory.
use vstd::prelude::*;
use crate::memory::{ImageView, MemoryImage};
use crate::process::WindowsProcess;
use crate::value::MemoryValue;
use crate::yuri_errors::{YuriError, YuriErrorKind, lemma_kind_of_error};

verus! {

/// The switches of a game.
#[derive(Debug, Clone, Copy, PartialEq, Eq, Structural)]
pub struct GameOptions {
    pub bases: bool,
    pub bridge_destruction: bool,
    pub crates: bool,
    pub short_game: bool,
    pub sw_allowed: bool,
    pub multi_engineer: bool,
    pub allies_allowed: bool,
    pub harvester_truce: bool,
    pub ctf: bool,
    pub fow: bool,
    pub mcv_redeploy: bool,
}

/// The switch stored at `offset` from `base`: one byte, set when it is not
/// zero.
pub open spec fn flag_at(memory: ImageView, base: int, offset: int) -> bool {
    memory.value_at::<bool>(base + offset)
}

/// The options that the memory of a game holds, the game being loaded at
/// `base`.
pub open spec fn options_at(memory: ImageView, base: int) -> GameOptions {
    GameOptions {
        bases: flag_at(memory, base, 0xA8B258),
        bridge_destruction: flag_at(memory, base, 0xA8B260),
        crates: flag_at(memory, base, 0xA8B261),
        short_game: flag_at(memory, base, 0xA8B262),
        sw_allowed: flag_at(memory, base, 0xA8B263),
        multi_engineer: flag_at(memory, base, 0xA8B26C),
        allies_allowed: flag_at(memory, base, 0xA8B31C),
        harvester_truce: flag_at(memory, base, 0xA8B31D),
        ctf: flag_at(memory, base, 0xA8B31E),
        fow: flag_at(memory, base, 0xA8B31F),
        mcv_redeploy: flag_at(memory, base, 0xA8B320),
    }
}

/// Whether every switch lies inside the memory that was transferred.
pub open spec fn options_readable(memory: ImageView, base: int) -> bool {
    &&& memory.covers(base + 0xA8B258, 1)
    &&& memory.covers(base + 0xA8B260, 1)
    &&& memory.covers(base + 0xA8B261, 1)
    &&& memory.covers(base + 0xA8B262, 1)
    &&& memory.covers(base + 0xA8B263, 1)
    &&& memory.covers(base + 0xA8B26C, 1)
    &&& memory.covers(base + 0xA8B31C, 1)
    &&& memory.covers(base + 0xA8B31D, 1)
    &&& memory.covers(base + 0xA8B31E, 1)
    &&& memory.covers(base + 0xA8B31F, 1)
    &&& memory.covers(base + 0xA8B320, 1)
}

/// Reads the switch at `offset` from the base address of the process.
fn read_flag(pid: &WindowsProcess, memory: &MemoryImage, offset: usize) -> (flag: Result<
    bool,
    YuriError,
>)
    ensures
        match flag {
            Ok(flag) => memory@.covers(pid.base_address + offset, 1) && flag == flag_at(
                memory@,
                pid.base_address as int,
                offset as int,
            ),
            Err(error) => !memory@.covers(pid.base_address + offset, 1) && error.spec_kind()
                == YuriErrorKind::UnknownError,
        },
{
    match pid.read_data::<bool>(offset, memory) {
        Ok(flag) => Ok(flag),
        Err(error) => {
            proof {
                lemma_kind_of_error(YuriErrorKind::UnknownError);
            }
            Err(YuriError::from(error))
        },
    }
}

impl GameOptions {
    /// Reads the options of the game that runs in process `pid` from the
    /// memory that was transferred. Either every switch is read, or the
    /// failure is reported as an unknown error.
    pub fn current(pid: &WindowsProcess, memory: &MemoryImage) -> (options: Result<
        GameOptions,
        YuriError,
    >)
        ensures
            match options {
                Ok(options) => options_readable(memory@, pid.base_address as int) && options
                    == options_at(memory@, pid.base_address as int),
                Err(error) => !options_readable(memory@, pid.base_address as int)
                    && error.spec_kind() == YuriErrorKind::UnknownError,
            },
    {
        let bases = match read_flag(pid, memory, 0xA8B258) {
            Ok(flag) => flag,
            Err(error) => {
                return Err(error);
            },
        };
        let bridge_destruction = match read_flag(pid, memory, 0xA8B260) {
            Ok(flag) => flag,
            Err(error) => {
                return Err(error);
            },
        };
        let crates = match read_flag(pid, memory, 0xA8B261) {
            Ok(flag) => flag,
            Err(error) => {
                return Err(error);
            },
        };
        let short_game = match read_flag(pid, memory, 0xA8B262) {
            Ok(flag) => flag,
            Err(error) => {
                return Err(error);
            },
        };
        let sw_allowed = match read_flag(pid, memory, 0xA8B263) {
            Ok(flag) => flag,
            Err(error) => {
                return Err(error);
            },
        };
        let multi_engineer = match read_flag(pid, memory, 0xA8B26C) {
            Ok(flag) => flag,
            Err(error) => {
                return Err(error);
            },
        };
        let allies_allowed = match read_flag(pid, memory, 0xA8B31C) {
            Ok(flag) => flag,
            Err(error) => {
                return Err(error);
            },
        };
        let harvester_truce = match read_flag(pid, memory, 0xA8B31D) {
            Ok(flag) => flag,
            Err(error) => {
                return Err(error);
            },
        };
        let ctf = match read_flag(pid, memory, 0xA8B31E) {
            Ok(flag) => flag,
            Err(error) => {
                return Err(error);
            },
        };
        let fow = match read_flag(pid, memory, 0xA8B31F) {
            Ok(flag) => flag,
            Err(error) => {
                return Err(error);
            },
        };
        let mcv_redeploy = match read_flag(pid, memory, 0xA8B320) {
            Ok(flag) => flag,
            Err(error) => {
                return Err(error);
            },
        };
        Ok(
            GameOptions {
                bases,
                bridge_destruction,
                crates,
                short_game,
                sw_allowed,
                multi_engineer,
                allies_allowed,
                harvester_truce,
                ctf,
                fow,
                mcv_redeploy,
            },
        )
    }
}

} // verus!
