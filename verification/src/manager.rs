//! The running game as a whole.
use vstd::prelude::*;
use crate::errors::MemoryError;
use crate::game_mode_hooks::{GameModeOptions, options_offset, options_width};
use crate::game_option_hooks::{GameOptions, options_at, options_readable};
use crate::memory::MemoryImage;
use crate::process::{AccessRights, PendingOpen, WindowsProcess, first_named};
use crate::tlhelp32::{ProcessDescriptor, Snapshot};
use crate::value::MemoryValue;
use crate::yuri_errors::{YuriError, YuriErrorKind, lemma_kind_of_error};

verus! {

/// The name of the executable of the game.
pub open spec fn game_executable() -> Seq<char> {
    "gamemd.exe"@
}

/// The address of the switch that turns the feedback on moves on and off.
pub open spec fn move_feedback_address() -> int {
    0x822CF2
}

/// The process in which the game runs.
pub struct YuriGameManager {
    pid: WindowsProcess,
}

impl YuriGameManager {
    /// The process in which the game runs.
    pub closed spec fn process(&self) -> WindowsProcess {
        self.pid
    }

    /// Picks the game from a snapshot of the processes: the first process
    /// whose executable is named `gamemd.exe`. A snapshot without the game
    /// is reported as an unknown error.
    pub fn new(snapshot: Snapshot<ProcessDescriptor>) -> (picked: Result<PendingOpen, YuriError>)
        ensures
            match picked {
                Ok(picked) => picked.name@ == game_executable() && picked.access
                    == AccessRights::FullAccess && exists|index: int|
                    first_named(snapshot.remaining(), game_executable(), index) && (
                    #[trigger] snapshot.remaining()[index]).pid == picked.pid,
                Err(error) => error.spec_kind() == YuriErrorKind::UnknownError && forall|
                    index: int,
                |
                    0 <= index < snapshot.remaining().len() ==> (
                    #[trigger] snapshot.remaining()[index]).name@ != game_executable(),
            },
    {
        match WindowsProcess::with_name("gamemd.exe", snapshot) {
            Ok(picked) => Ok(picked),
            Err(error) => {
                proof {
                    lemma_kind_of_error(YuriErrorKind::UnknownError);
                }
                Err(YuriError::from(error))
            },
        }
    }

    /// The manager of the game that runs in the opened process.
    pub fn attach(process: WindowsProcess) -> (manager: YuriGameManager)
        ensures
            manager.process() == process,
    {
        YuriGameManager { pid: process }
    }

    /// The options of the mode of the game, read from the memory that was
    /// transferred.
    pub fn game_mode_options(&self, memory: &MemoryImage) -> (options: Result<
        GameModeOptions,
        MemoryError,
    >)
        ensures
            match options {
                Ok(options) => memory@.covers(
                    self.process().base_address + options_offset(),
                    options_width() as int,
                ) && options.bytes() == memory@.slice(
                    self.process().base_address + options_offset(),
                    options_width() as int,
                ),
                Err(error) => !memory@.covers(
                    self.process().base_address + options_offset(),
                    options_width() as int,
                ) && error == MemoryError::ReadMemoryError,
            },
    {
        GameModeOptions::read(&self.pid, memory)
    }

    /// The options of the game, read from the memory that was transferred.
    pub fn game_options(&self, memory: &MemoryImage) -> (options: Result<GameOptions, YuriError>)
        ensures
            match options {
                Ok(options) => options_readable(memory@, self.process().base_address as int)
                    && options == options_at(memory@, self.process().base_address as int),
                Err(error) => !options_readable(memory@, self.process().base_address as int)
                    && error.spec_kind() == YuriErrorKind::UnknownError,
            },
    {
        GameOptions::current(&self.pid, memory)
    }

    /// Turns the feedback on moves on or off in the memory that was
    /// transferred, and says whether the switch could be written.
    pub fn set_move_feedback(&mut self, value: bool, memory: &mut MemoryImage) -> (written: bool)
        ensures
            final(self).process() == old(self).process(),
            written == old(memory)@.covers(move_feedback_address(), 1),
            written ==> final(memory)@ == old(memory)@.store(
                move_feedback_address(),
                value.encode(),
            ),
            !written ==> final(memory)@ == old(memory)@,
    {
        self.pid.write_data::<bool>(0x822CF2, value, memory).is_ok()
    }
}

} // verus!
