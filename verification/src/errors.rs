//! The failures that the engine reports.
use vstd::prelude::*;

verus! {

/// Why an operation on a process, a module or its memory did not succeed.
#[derive(Debug, Clone, Copy, PartialEq, Eq, Structural)]
pub enum MemoryError {
    /// The system could not take a snapshot of the processes or modules.
    CreateSnapshotFailure,
    /// The snapshot could not be positioned on its first entry.
    IterateSnapshotFailure { win32: i32 },
    /// The snapshot of the processes holds no process that was asked for.
    ProcessNotFound,
    /// The snapshot of the modules holds no module that was asked for.
    ModuleNotFound,
    /// No handle could be had, with full access nor with read and write access.
    GetHandleError,
    /// The process could not be terminated.
    TerminateProcessError,
    /// A read from the process memory failed or was cut short.
    ReadMemoryError,
    /// A write to the process memory failed or was cut short.
    WriteMemoryError,
    /// The signature's pattern occurs nowhere in the module.
    SignatureNotFound,
    /// A pointer chain is too short, or an address left the readable range.
    AddressOutOfBounds,
    /// The displacement of an instruction-relative address could not be resolved.
    RIPRelativeFailed,
    /// Any other failure, with the code that the system reported.
    SystemError { win32: i32 },
}

impl MemoryError {
    /// The error that stands for a failure code of the system that has no
    /// kind of its own.
    pub fn from_code(code: i32) -> (error: MemoryError)
        ensures
            error == (MemoryError::SystemError { win32: code }),
    {
        MemoryError::SystemError { win32: code }
    }
}

} // verus!
