//! A process of the system: how it is picked from a snapshot, opened, and
//! how its memory is read and written.
//!
//! Opening a process takes several calls of the system, which the host
//! makes. Each stage is a value of its own: a process picked from a
//! snapshot says which rights to ask for, takes what the attempt gave and
//! either asks again with fewer rights, gives up, or goes on to the opened
//! process, which takes the modules of the process and the answer on its
//! pointer width and becomes a `WindowsProcess`.
use vstd::prelude::*;
use crate::chain::{
    ChainStep,
    chain_start,
    chain_target,
    resolve_chain,
    start_chain,
    step_view,
};
use crate::errors::MemoryError;
use crate::handle::{Handle, OpenRequest, full_access_rights, raw_is_valid, read_write_rights};
use crate::memory::{MemoryImage, address_view};
use crate::text::{decimal, decimal_text};
use crate::tlhelp32::{ModuleDescriptor, ProcessDescriptor, Snapshot};
use crate::value::MemoryValue;

verus! {

/// Whether `index` is the first record of process `pid`.
pub open spec fn first_with_pid(entries: Seq<ProcessDescriptor>, pid: u32, index: int) -> bool {
    &&& 0 <= index < entries.len()
    &&& entries[index].pid == pid
    &&& forall|j: int| 0 <= j < index ==> (#[trigger] entries[j]).pid != pid
}

/// Whether `index` is the first record of a process whose executable has
/// exactly this name. Names are compared character by character: there is
/// no folding of case and no matching of parts.
pub open spec fn first_named(entries: Seq<ProcessDescriptor>, name: Seq<char>, index: int) -> bool {
    &&& 0 <= index < entries.len()
    &&& entries[index].name@ == name
    &&& forall|j: int| 0 <= j < index ==> (#[trigger] entries[j]).name@ != name
}

/// Whether `index` is the first record of a module that has exactly this
/// name. Names are compared character by character: there is no folding of
/// case and no matching of parts.
pub open spec fn first_module_named(
    entries: Seq<ModuleDescriptor>,
    name: Seq<char>,
    index: int,
) -> bool {
    &&& 0 <= index < entries.len()
    &&& entries[index].name@ == name
    &&& forall|j: int| 0 <= j < index ==> (#[trigger] entries[j]).name@ != name
}

/// Matching is exact and sensitive to case: the module that a search picks
/// has the name asked for, character for character, and a module whose name
/// differs from it in a single character, be it only in the case of a
/// letter, is not the one picked.
pub proof fn lemma_module_match_is_exact(
    entries: Seq<ModuleDescriptor>,
    name: Seq<char>,
    index: int,
    other: int,
    position: int,
)
    requires
        first_module_named(entries, name, index),
        0 <= other < entries.len(),
        0 <= position < name.len(),
        entries[other].name@.len() == name.len(),
        entries[other].name@[position] != name[position],
    ensures
        entries[index].name@ == name,
        !first_module_named(entries, name, other),
{
}

/// Matching is exact and sensitive to case: the process that a search picks
/// has the name asked for, character for character, and a process whose
/// name differs from it in a single character, be it only in the case of a
/// letter, is not the one picked.
pub proof fn lemma_process_match_is_exact(
    entries: Seq<ProcessDescriptor>,
    name: Seq<char>,
    index: int,
    other: int,
    position: int,
)
    requires
        first_named(entries, name, index),
        0 <= other < entries.len(),
        0 <= position < name.len(),
        entries[other].name@.len() == name.len(),
        entries[other].name@[position] != name[position],
    ensures
        entries[index].name@ == name,
        !first_named(entries, name, other),
{
}

/// The identifiers of the processes whose executable has exactly this name,
/// in the order of their records.
pub open spec fn pids_named(entries: Seq<ProcessDescriptor>, name: Seq<char>) -> Seq<u32>
    decreases entries.len(),
{
    if entries.len() == 0 {
        Seq::empty()
    } else if entries.last().name@ == name {
        pids_named(entries.drop_last(), name).push(entries.last().pid)
    } else {
        pids_named(entries.drop_last(), name)
    }
}

/// The rights that an attempt to open a process asks for.
#[derive(Debug, Clone, Copy, PartialEq, Eq, Structural)]
pub enum AccessRights {
    /// Every right on the process.
    FullAccess,
    /// Reading and writing its memory only.
    ReadWrite,
}

/// A process that was picked from a snapshot and has to be opened.
#[derive(Debug, Clone)]
pub struct PendingOpen {
    /// The name of its executable.
    pub name: String,
    /// Its identifier.
    pub pid: u32,
    /// The rights that the next attempt asks for.
    pub access: AccessRights,
}

/// A process that was opened and has to be looked into.
#[derive(Debug, Clone)]
pub struct OpenedProcess {
    /// The name of its executable.
    pub name: String,
    /// Its identifier.
    pub pid: u32,
    /// The handle that was acquired.
    pub handle: Handle,
}

/// Where the opening of a process stands after an attempt.
#[derive(Debug, Clone)]
pub enum OpenProgress {
    /// The attempt failed; another one with fewer rights is due.
    Retry(PendingOpen),
    /// The attempt gave a handle.
    Opened(OpenedProcess),
    /// Every attempt failed.
    Failed(MemoryError),
}

/// An open process: its name and identifier, the address of its main
/// module, the handle that was acquired, and whether it runs in the 32-bit
/// compatibility mode, in which its pointers take four bytes.
#[derive(Debug, Clone)]
pub struct WindowsProcess {
    pub name: String,
    pub pid: u32,
    pub base_address: usize,
    pub handle: Handle,
    pub is_wow64: bool,
}

/// The command that the host has to run to terminate a process.
#[derive(Debug, Clone)]
pub struct KillRequest {
    /// The program to run.
    pub program: String,
    /// Its arguments, in their order.
    pub arguments: Vec<String>,
}

/// The command that terminates by force the process whose identifier reads
/// `pid`: `taskkill.exe` with `/PID`, the identifier, and `/F`.
pub fn kill_request(pid: String) -> (request: KillRequest)
    ensures
        request.program@ == "taskkill.exe"@,
        request.arguments@.len() == 3,
        request.arguments@[0]@ == "/PID"@,
        request.arguments@[1] == pid,
        request.arguments@[2]@ == "/F"@,
{
    let mut arguments: Vec<String> = Vec::new();
    arguments.push("/PID".to_owned());
    arguments.push(pid);
    arguments.push("/F".to_owned());
    KillRequest { program: "taskkill.exe".to_owned(), arguments }
}

impl PendingOpen {
    /// What the host has to ask of the system now.
    pub open spec fn spec_request(&self) -> OpenRequest {
        OpenRequest {
            pid: self.pid,
            access: match self.access {
                AccessRights::FullAccess => full_access_rights(),
                AccessRights::ReadWrite => read_write_rights(),
            },
        }
    }

    /// What the host has to ask of the system now: full access first, and
    /// read and write access once that was denied.
    pub fn request(&self) -> (request: OpenRequest)
        ensures
            request == self.spec_request(),
    {
        match self.access {
            AccessRights::FullAccess => Handle::full_access(self.pid),
            AccessRights::ReadWrite => Handle::read_write(self.pid),
        }
    }

    /// Takes what the attempt gave: the raw handle, or the failure code of
    /// the system. A valid handle opens the process. Without one, an
    /// attempt with full access is followed by one with read and write
    /// access, and a failed attempt with read and write access ends the
    /// opening with `GetHandleError`.
    pub fn opened(self, outcome: Result<isize, i32>) -> (progress: OpenProgress)
        ensures
            match progress {
                OpenProgress::Opened(process) => outcome == Ok::<isize, i32>(process.handle.wrap)
                    && process.handle.valid() && process.name == self.name && process.pid
                    == self.pid,
                OpenProgress::Retry(pending) => !(outcome matches Ok(raw) && raw_is_valid(raw))
                    && self.access == AccessRights::FullAccess && pending.access
                    == AccessRights::ReadWrite && pending.name == self.name && pending.pid
                    == self.pid,
                OpenProgress::Failed(error) => !(outcome matches Ok(raw) && raw_is_valid(raw))
                    && self.access == AccessRights::ReadWrite && error
                    == MemoryError::GetHandleError,
            },
    {
        match Handle::opened(outcome) {
            Ok(handle) => OpenProgress::Opened(
                OpenedProcess { name: self.name, pid: self.pid, handle },
            ),
            Err(error) => match self.access {
                AccessRights::FullAccess => OpenProgress::Retry(
                    PendingOpen { name: self.name, pid: self.pid, access: AccessRights::ReadWrite },
                ),
                AccessRights::ReadWrite => OpenProgress::Failed(error),
            },
        }
    }
}

/// Judges the answer of the system on whether a process runs in the 32-bit
/// compatibility mode: its answer, and "no" where the question failed.
pub fn wow64_answer(outcome: Result<bool, i32>) -> (is_wow64: bool)
    ensures
        is_wow64 == (outcome == Ok::<bool, i32>(true)),
{
    match outcome {
        Ok(answer) => answer,
        Err(_) => false,
    }
}

/// Looks for the first module of exactly this name from the cursor of the
/// snapshot on.
pub fn find_module(name: &str, snapshot: Snapshot<ModuleDescriptor>) -> (module: Result<
    ModuleDescriptor,
    MemoryError,
>)
    ensures
        match module {
            Ok(module) => exists|index: int|
                first_module_named(snapshot.remaining(), name@, index) && (
                #[trigger] snapshot.remaining()[index]) == module,
            Err(error) => error == MemoryError::ModuleNotFound && forall|index: int|
                0 <= index < snapshot.remaining().len() ==> (
                #[trigger] snapshot.remaining()[index]).name@ != name@,
        },
{
    let wanted: String = name.to_owned();
    let ghost entries = snapshot.entries();
    let ghost start = snapshot.position() as int;
    let mut cursor = snapshot;
    let _ = cursor.len();
    loop
        invariant
            cursor.wf(),
            cursor.entries() == entries,
            snapshot.remaining() == entries.skip(start),
            wanted@ == name@,
            0 <= start <= cursor.position(),
            forall|j: int|
                start <= j < cursor.position() ==> (#[trigger] entries[j]).name@ != name@,
        ensures
            cursor.position() == entries.len(),
        decreases entries.len() - cursor.position(),
    {
        match cursor.current() {
            Some(entry) => {
                if entry.name == wanted {
                    proof {
                        let index = cursor.position() - start;
                        let remaining = entries.skip(start);
                        assert(remaining[index] == entries[cursor.position() as int]);
                        assert forall|j: int| 0 <= j < index implies (
                        #[trigger] remaining[j]).name@ != name@ by {
                            assert(remaining[j] == entries[start + j]);
                        }
                        assert(first_module_named(remaining, name@, index));
                    }
                    return Ok(
                        ModuleDescriptor {
                            name: entry.name.clone(),
                            path: entry.path.clone(),
                            base_address: entry.base_address,
                            size: entry.size,
                        },
                    );
                }
            },
            None => {
                break ;
            },
        }
        if !cursor.advance() {
            break ;
        }
    }
    proof {
        let remaining = entries.skip(start);
        assert forall|index: int| 0 <= index < remaining.len() implies (
        #[trigger] remaining[index]).name@ != name@ by {
            assert(remaining[index] == entries[start + index]);
        }
    }
    Err(MemoryError::ModuleNotFound)
}

impl OpenedProcess {
    /// Looks into the opened process: `modules` is the snapshot of its
    /// modules, `wow64` the answer of the system on its pointer width. The
    /// first module that has exactly the name of the executable is the main
    /// module, and its address becomes the base address of the process.
    pub fn resolve(self, modules: Snapshot<ModuleDescriptor>, wow64: Result<bool, i32>) -> (process:
        Result<WindowsProcess, MemoryError>)
        ensures
            match process {
                Ok(process) => {
                    &&& exists|index: int|
                        first_module_named(modules.remaining(), self.name@, index) && (
                        #[trigger] modules.remaining()[index]).base_address == process.base_address
                    &&& process.name == self.name
                    &&& process.pid == self.pid
                    &&& process.handle == self.handle
                    &&& process.is_wow64 == (wow64 == Ok::<bool, i32>(true))
                },
                Err(error) => error == MemoryError::ModuleNotFound && forall|index: int|
                    0 <= index < modules.remaining().len() ==> (
                    #[trigger] modules.remaining()[index]).name@ != self.name@,
            },
    {
        match find_module(self.name.as_str(), modules) {
            Ok(main) => Ok(
                WindowsProcess {
                    name: self.name,
                    pid: self.pid,
                    base_address: main.base_address,
                    handle: self.handle,
                    is_wow64: wow64_answer(wow64),
                },
            ),
            Err(error) => Err(error),
        }
    }
}

impl WindowsProcess {
    /// Picks the process with identifier `pid` from a snapshot of the
    /// processes: the first such record from the cursor on. The process is
    /// to be opened with full access first.
    pub fn with_pid(pid: u32, snapshot: Snapshot<ProcessDescriptor>) -> (picked: Result<
        PendingOpen,
        MemoryError,
    >)
        ensures
            match picked {
                Ok(picked) => picked.pid == pid && picked.access == AccessRights::FullAccess
                    && exists|index: int|
                    first_with_pid(snapshot.remaining(), pid, index) && (
                    #[trigger] snapshot.remaining()[index]).name == picked.name,
                Err(error) => error == MemoryError::ProcessNotFound && forall|index: int|
                    0 <= index < snapshot.remaining().len() ==> (
                    #[trigger] snapshot.remaining()[index]).pid != pid,
            },
    {
        let ghost entries = snapshot.entries();
        let ghost start = snapshot.position() as int;
        let mut cursor = snapshot;
        let _ = cursor.len();
        loop
            invariant
                cursor.wf(),
                cursor.entries() == entries,
                snapshot.remaining() == entries.skip(start),
                0 <= start <= cursor.position(),
                forall|j: int| start <= j < cursor.position() ==> (#[trigger] entries[j]).pid != pid,
            ensures
                cursor.position() == entries.len(),
            decreases entries.len() - cursor.position(),
        {
            match cursor.current() {
                Some(entry) => {
                    if entry.pid == pid {
                        proof {
                            let index = cursor.position() - start;
                            let remaining = entries.skip(start);
                            assert(remaining[index] == entries[cursor.position() as int]);
                            assert forall|j: int| 0 <= j < index implies (
                            #[trigger] remaining[j]).pid != pid by {
                                assert(remaining[j] == entries[start + j]);
                            }
                            assert(first_with_pid(remaining, pid, index));
                        }
                        return Ok(
                            PendingOpen {
                                name: entry.name.clone(),
                                pid,
                                access: AccessRights::FullAccess,
                            },
                        );
                    }
                },
                None => {
                    break ;
                },
            }
            if !cursor.advance() {
                break ;
            }
        }
        proof {
            let remaining = entries.skip(start);
            assert forall|index: int| 0 <= index < remaining.len() implies (
            #[trigger] remaining[index]).pid != pid by {
                assert(remaining[index] == entries[start + index]);
            }
        }
        Err(MemoryError::ProcessNotFound)
    }

    /// Picks the process whose executable has exactly the name `name` from a
    /// snapshot of the processes: the first such record from the cursor on.
    /// The process is to be opened with full access first.
    pub fn with_name(name: &str, snapshot: Snapshot<ProcessDescriptor>) -> (picked: Result<
        PendingOpen,
        MemoryError,
    >)
        ensures
            match picked {
                Ok(picked) => picked.name@ == name@ && picked.access == AccessRights::FullAccess
                    && exists|index: int|
                    first_named(snapshot.remaining(), name@, index) && (
                    #[trigger] snapshot.remaining()[index]).pid == picked.pid,
                Err(error) => error == MemoryError::ProcessNotFound && forall|index: int|
                    0 <= index < snapshot.remaining().len() ==> (
                    #[trigger] snapshot.remaining()[index]).name@ != name@,
            },
    {
        let wanted: String = name.to_owned();
        let ghost entries = snapshot.entries();
        let ghost start = snapshot.position() as int;
        let mut cursor = snapshot;
        let _ = cursor.len();
        loop
            invariant
                cursor.wf(),
                cursor.entries() == entries,
                snapshot.remaining() == entries.skip(start),
                wanted@ == name@,
                0 <= start <= cursor.position(),
                forall|j: int|
                    start <= j < cursor.position() ==> (#[trigger] entries[j]).name@ != name@,
            ensures
                cursor.position() == entries.len(),
            decreases entries.len() - cursor.position(),
        {
            match cursor.current() {
                Some(entry) => {
                    if entry.name == wanted {
                        proof {
                            let index = cursor.position() - start;
                            let remaining = entries.skip(start);
                            assert(remaining[index] == entries[cursor.position() as int]);
                            assert forall|j: int| 0 <= j < index implies (
                            #[trigger] remaining[j]).name@ != name@ by {
                                assert(remaining[j] == entries[start + j]);
                            }
                            assert(first_named(remaining, name@, index));
                        }
                        return Ok(
                            PendingOpen {
                                name: entry.name.clone(),
                                pid: entry.pid,
                                access: AccessRights::FullAccess,
                            },
                        );
                    }
                },
                None => {
                    break ;
                },
            }
            if !cursor.advance() {
                break ;
            }
        }
        proof {
            let remaining = entries.skip(start);
            assert forall|index: int| 0 <= index < remaining.len() implies (
            #[trigger] remaining[index]).name@ != name@ by {
                assert(remaining[index] == entries[start + index]);
            }
        }
        Err(MemoryError::ProcessNotFound)
    }

    /// Picks every process whose executable has exactly the name `name`
    /// from a snapshot of the processes, in the order of their records from
    /// the cursor on. Each is to be opened with full access first. There is
    /// a failure only where no record has the name.
    pub fn all_with_name(name: &str, snapshot: Snapshot<ProcessDescriptor>) -> (picked: Result<
        Vec<PendingOpen>,
        MemoryError,
    >)
        ensures
            match picked {
                Ok(picked) => {
                    &&& picked@.len() > 0
                    &&& picked@.len() == pids_named(snapshot.remaining(), name@).len()
                    &&& forall|i: int|
                        0 <= i < picked@.len() ==> {
                            &&& (#[trigger] picked@[i]).pid == pids_named(
                                snapshot.remaining(),
                                name@,
                            )[i]
                            &&& picked@[i].name@ == name@
                            &&& picked@[i].access == AccessRights::FullAccess
                        }
                },
                Err(error) => error == MemoryError::ProcessNotFound && pids_named(
                    snapshot.remaining(),
                    name@,
                ).len() == 0,
            },
    {
        let wanted: String = name.to_owned();
        let ghost entries = snapshot.entries();
        let ghost start = snapshot.position() as int;
        let mut results: Vec<PendingOpen> = Vec::new();
        let mut cursor = snapshot;
        let _ = cursor.len();
        assert(entries.subrange(start, start).len() == 0);
        loop
            invariant
                cursor.wf(),
                cursor.entries() == entries,
                snapshot.remaining() == entries.skip(start),
                wanted@ == name@,
                0 <= start <= cursor.position(),
                results@.len() == pids_named(
                    entries.subrange(start, cursor.position() as int),
                    name@,
                ).len(),
                forall|i: int|
                    0 <= i < results@.len() ==> {
                        &&& (#[trigger] results@[i]).pid == pids_named(
                            entries.subrange(start, cursor.position() as int),
                            name@,
                        )[i]
                        &&& results@[i].name@ == name@
                        &&& results@[i].access == AccessRights::FullAccess
                    },
            ensures
                cursor.position() == entries.len(),
            decreases entries.len() - cursor.position(),
        {
            let ghost position = cursor.position() as int;
            match cursor.current() {
                Some(entry) => {
                    proof {
                        let seen = entries.subrange(start, position + 1);
                        assert(seen.drop_last() =~= entries.subrange(start, position));
                        assert(seen.last() == entries[position]);
                    }
                    if entry.name == wanted {
                        results.push(
                            PendingOpen {
                                name: entry.name.clone(),
                                pid: entry.pid,
                                access: AccessRights::FullAccess,
                            },
                        );
                    }
                },
                None => {
                    break ;
                },
            }
            let _ = cursor.advance();
            if cursor.current().is_none() {
                break ;
            }
        }
        assert(entries.subrange(start, entries.len() as int) =~= entries.skip(start));
        if results.is_empty() {
            Err(MemoryError::ProcessNotFound)
        } else {
            Ok(results)
        }
    }

    /// Looks for the first module of exactly this name in a snapshot of the
    /// modules of the process.
    pub fn module(&self, name: &str, snapshot: Snapshot<ModuleDescriptor>) -> (module: Result<
        ModuleDescriptor,
        MemoryError,
    >)
        ensures
            match module {
                Ok(module) => exists|index: int|
                    first_module_named(snapshot.remaining(), name@, index) && (
                    #[trigger] snapshot.remaining()[index]) == module,
                Err(error) => error == MemoryError::ModuleNotFound && forall|index: int|
                    0 <= index < snapshot.remaining().len() ==> (
                    #[trigger] snapshot.remaining()[index]).name@ != name@,
            },
    {
        find_module(name, snapshot)
    }

    /// The name of the executable of the process.
    pub fn name(&self) -> (name: &str)
        ensures
            name@ == self.name@,
    {
        self.name.as_str()
    }

    /// The identifier of the process.
    pub fn pid(&self) -> (pid: &u32)
        ensures
            *pid == self.pid,
    {
        &self.pid
    }

    /// Whether the process runs in the 32-bit compatibility mode, as it was
    /// found out when the process was opened.
    pub fn is_wow64(&self) -> (is_wow64: bool)
        ensures
            is_wow64 == self.is_wow64,
    {
        self.is_wow64
    }

    /// The command that terminates the process by force: `taskkill.exe`
    /// with `/PID`, the identifier of the process in decimal, and `/F`.
    pub fn kill(&self) -> (request: KillRequest)
        ensures
            request.program@ == "taskkill.exe"@,
            request.arguments@.len() == 3,
            request.arguments@[0]@ == "/PID"@,
            request.arguments@[1]@ == decimal_text(self.pid as i64),
            request.arguments@[2]@ == "/F"@,
    {
        kill_request(decimal(self.pid as i64))
    }

    /// Judges how the command of `kill` ended: the process is terminated
    /// exactly when the command reported success.
    pub fn killed(succeeded: bool) -> (terminated: Result<(), MemoryError>)
        ensures
            succeeded ==> terminated == Ok::<(), MemoryError>(()),
            !succeeded ==> terminated == Err::<(), MemoryError>(
                MemoryError::TerminateProcessError,
            ),
    {
        if succeeded {
            Ok(())
        } else {
            Err(MemoryError::TerminateProcessError)
        }
    }

    /// Judges a write to the memory of the process: it counts exactly when
    /// the system reported that every byte was transferred.
    pub fn written(transferred: bool) -> (written: Result<(), MemoryError>)
        ensures
            transferred ==> written == Ok::<(), MemoryError>(()),
            !transferred ==> written == Err::<(), MemoryError>(MemoryError::WriteMemoryError),
    {
        if transferred {
            Ok(())
        } else {
            Err(MemoryError::WriteMemoryError)
        }
    }

    /// Reads a value of type `T` at an absolute address of the memory that
    /// was transferred: all of its bytes or none.
    pub fn read_data_absolute<T: MemoryValue>(&self, offset: usize, memory: &MemoryImage) -> (value:
        Result<T, MemoryError>)
        ensures
            match value {
                Ok(value) => memory@.covers(offset as int, T::width() as int) && value
                    == memory@.value_at::<T>(offset as int),
                Err(error) => !memory@.covers(offset as int, T::width() as int) && error
                    == MemoryError::ReadMemoryError,
            },
    {
        memory.read::<T>(offset)
    }

    /// Reads a value of type `T` at `offset` from the base address of the
    /// process.
    pub fn read_data<T: MemoryValue>(&self, offset: usize, memory: &MemoryImage) -> (value: Result<
        T,
        MemoryError,
    >)
        ensures
            match value {
                Ok(value) => memory@.covers(self.base_address + offset, T::width() as int)
                    && value == memory@.value_at::<T>(self.base_address + offset),
                Err(error) => !memory@.covers(self.base_address + offset, T::width() as int)
                    && error == MemoryError::ReadMemoryError,
            },
    {
        let _ = memory.len();
        if offset > usize::MAX - self.base_address {
            Err(MemoryError::ReadMemoryError)
        } else {
            self.read_data_absolute::<T>(self.base_address + offset, memory)
        }
    }

    /// Reads `length` bytes at an absolute address: all of them or none.
    pub fn read_bytes(&self, address: usize, length: usize, memory: &MemoryImage) -> (bytes: Result<
        Vec<u8>,
        MemoryError,
    >)
        ensures
            match bytes {
                Ok(bytes) => memory@.covers(address as int, length as int) && bytes@
                    == memory@.slice(address as int, length as int),
                Err(error) => !memory@.covers(address as int, length as int) && error
                    == MemoryError::ReadMemoryError,
            },
    {
        memory.read_bytes(address, length)
    }

    /// Writes `value` at an absolute address: all of its bytes or none.
    pub fn write_data<T: MemoryValue>(&self, address: usize, value: T, memory: &mut MemoryImage) -> (written:
        Result<(), MemoryError>)
        ensures
            match written {
                Ok(_) => old(memory)@.covers(address as int, T::width() as int) && final(memory)@
                    == old(memory)@.store(address as int, value.encode()),
                Err(error) => !old(memory)@.covers(address as int, T::width() as int) && error
                    == MemoryError::WriteMemoryError && final(memory)@ == old(memory)@,
            },
    {
        memory.write::<T>(address, value)
    }

    /// Writes `bytes` at an absolute address: all of them or none.
    pub fn write_bytes(&self, address: usize, bytes: &[u8], memory: &mut MemoryImage) -> (written:
        Result<(), MemoryError>)
        ensures
            match written {
                Ok(_) => old(memory)@.covers(address as int, bytes@.len() as int)
                    && final(memory)@ == old(memory)@.store(address as int, bytes@),
                Err(error) => !old(memory)@.covers(address as int, bytes@.len() as int) && error
                    == MemoryError::WriteMemoryError && final(memory)@ == old(memory)@,
            },
    {
        memory.write_bytes(address, bytes)
    }

    /// Starts the walk along a pointer chain in this process, whose
    /// pointers take four bytes in the 32-bit compatibility mode and eight
    /// otherwise. The host reads each pointer that the walk asks for.
    pub fn walk_chain(&self, chain: Vec<usize>) -> (step: Result<ChainStep, MemoryError>)
        ensures
            step_view(step) == chain_start(chain@, self.is_wow64),
    {
        start_chain(chain, self.is_wow64)
    }

    /// Follows a pointer chain in the memory that was transferred and gives
    /// the address it leads to.
    pub fn read_ptr_chain(&self, chain: Vec<usize>, memory: &MemoryImage) -> (address: Result<
        usize,
        MemoryError,
    >)
        ensures
            address_view(address) == chain_target(memory@, chain@, self.is_wow64),
    {
        resolve_chain(memory, chain, self.is_wow64)
    }

    /// Follows a pointer chain in the memory that was transferred and reads
    /// a value of type `T` at the address it leads to.
    pub fn read_mem_chain<T: MemoryValue>(&self, chain: Vec<usize>, memory: &MemoryImage) -> (value:
        Result<T, MemoryError>)
        ensures
            match chain_target(memory@, chain@, self.is_wow64) {
                Err(error) => value == Err::<T, MemoryError>(error),
                Ok(address) => if memory@.covers(address, T::width() as int) {
                    value == Ok::<T, MemoryError>(memory@.value_at::<T>(address))
                } else {
                    value == Err::<T, MemoryError>(MemoryError::ReadMemoryError)
                },
            },
    {
        match self.read_ptr_chain(chain, memory) {
            Ok(address) => self.read_data_absolute::<T>(address, memory),
            Err(error) => Err(error),
        }
    }
}

} // verus!
