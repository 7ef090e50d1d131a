//! The handle that the system issues for a process or a snapshot.
//!
//! The library never calls the system. It says which rights to ask for,
//! judges what an attempt gave, and decides when a handle has to be
//! released, so that the host releases each one exactly once.
use vstd::prelude::*;
use windows::Win32::Foundation::{HANDLE, INVALID_HANDLE_VALUE};
use windows::Win32::System::Threading::{PROCESS_ALL_ACCESS, PROCESS_VM_READ, PROCESS_VM_WRITE};
use crate::errors::MemoryError;

verus! {

/// The access mask that stands for every right on a process.
pub open spec fn full_access_rights() -> u32 {
    0x1F_FFFF
}

/// The access mask that stands for reading and writing the memory of a
/// process, and nothing more.
pub open spec fn read_write_rights() -> u32 {
    0x30
}

/// Whether a raw handle value names a resource: the system uses 0 and -1
/// for "no handle".
pub open spec fn raw_is_valid(raw: isize) -> bool {
    raw != 0 && raw != -1
}

/// `HANDLE::is_invalid` of the `windows` crate, on a raw handle value. The
/// crate tests the value against its two sentinels, -1 and 0.
#[verifier::external_body]
fn raw_is_invalid(raw: isize) -> (invalid: bool)
    ensures
        invalid == !raw_is_valid(raw),
{
    HANDLE(raw).is_invalid()
}

/// The value of `INVALID_HANDLE_VALUE` of the `windows` crate, which is -1.
#[verifier::external_body]
fn invalid_handle_value() -> (raw: isize)
    ensures
        raw == -1,
{
    INVALID_HANDLE_VALUE.0
}

/// The value of `PROCESS_ALL_ACCESS` of the `windows` crate.
#[verifier::external_body]
fn process_all_access() -> (mask: u32)
    ensures
        mask == full_access_rights(),
{
    PROCESS_ALL_ACCESS.0
}

/// The union of `PROCESS_VM_READ` and `PROCESS_VM_WRITE` of the `windows`
/// crate, whose values are 16 and 32.
#[verifier::external_body]
fn process_vm_read_write() -> (mask: u32)
    ensures
        mask == read_write_rights(),
{
    (PROCESS_VM_READ | PROCESS_VM_WRITE).0
}

/// What the host has to ask of the system to open a process.
#[derive(Debug, Clone, Copy, PartialEq, Eq, Structural)]
pub struct OpenRequest {
    /// The process to open.
    pub pid: u32,
    /// The access mask to ask for.
    pub access: u32,
}

/// A raw handle of the system, with the knowledge of when it must be
/// released.
#[derive(Debug, Clone, PartialEq, Eq, Structural)]
pub struct Handle {
    pub wrap: isize,
}

impl Handle {
    /// Whether the handle names a resource.
    pub open spec fn valid(&self) -> bool {
        raw_is_valid(self.wrap)
    }

    /// The value that the host has to release when the handle is closed:
    /// the raw value of a valid handle, nothing for an invalid one.
    pub open spec fn to_release(&self) -> Option<isize> {
        if self.valid() {
            Some(self.wrap)
        } else {
            None
        }
    }

    /// The handle after it was closed: a valid handle becomes the invalid
    /// one, an invalid handle stays as it is.
    pub open spec fn closed(&self) -> Handle {
        if self.valid() {
            Handle { wrap: -1isize }
        } else {
            *self
        }
    }

    /// Wraps a raw handle value.
    pub fn new(handle: isize) -> (wrapped: Handle)
        ensures
            wrapped.wrap == handle,
    {
        Handle { wrap: handle }
    }

    /// Whether the handle names a resource.
    pub fn is_valid(&self) -> (valid: bool)
        ensures
            valid == self.valid(),
    {
        !raw_is_invalid(self.wrap)
    }

    /// The raw value, for the calls of the host.
    pub fn raw(&self) -> (raw: isize)
        ensures
            raw == self.wrap,
    {
        self.wrap
    }

    /// The request that opens process `pid` with every right.
    pub fn full_access(pid: u32) -> (request: OpenRequest)
        ensures
            request == (OpenRequest { pid, access: full_access_rights() }),
    {
        OpenRequest { pid, access: process_all_access() }
    }

    /// The request that opens process `pid` for reading and writing its
    /// memory only.
    pub fn read_write(pid: u32) -> (request: OpenRequest)
        ensures
            request == (OpenRequest { pid, access: read_write_rights() }),
    {
        OpenRequest { pid, access: process_vm_read_write() }
    }

    /// Judges what an attempt to open a process gave: the raw handle, or the
    /// failure code of the system. A handle is acquired exactly when the
    /// system gave a valid one.
    pub fn opened(outcome: Result<isize, i32>) -> (handle: Result<Handle, MemoryError>)
        ensures
            match handle {
                Ok(handle) => outcome == Ok::<isize, i32>(handle.wrap) && handle.valid(),
                Err(error) => error == MemoryError::GetHandleError && !(outcome matches Ok(raw)
                    && raw_is_valid(raw)),
            },
    {
        match outcome {
            Ok(raw) => {
                let handle = Handle::new(raw);
                if handle.is_valid() {
                    Ok(handle)
                } else {
                    Err(MemoryError::GetHandleError)
                }
            },
            Err(_) => Err(MemoryError::GetHandleError),
        }
    }

    /// Closes the handle and says what the host has to release: the raw
    /// value if the handle was valid, nothing otherwise. Afterwards the
    /// handle is invalid, so that closing it again releases nothing. A
    /// failure of the release itself is the host's to swallow.
    pub fn close(&mut self) -> (released: Option<isize>)
        ensures
            released == old(self).to_release(),
            *final(self) == old(self).closed(),
    {
        if self.is_valid() {
            let raw = self.wrap;
            self.wrap = invalid_handle_value();
            Some(raw)
        } else {
            None
        }
    }
}

/// Teardown is idempotent: a closed handle is invalid, and closing an
/// invalid or an already closed handle releases nothing and changes nothing.
pub proof fn lemma_close_is_idempotent(handle: Handle)
    ensures
        !handle.closed().valid(),
        handle.closed().to_release() == None::<isize>,
        handle.closed().closed() == handle.closed(),
        !handle.valid() ==> handle.to_release() == None::<isize> && handle.closed() == handle,
{
}

} // verus!
