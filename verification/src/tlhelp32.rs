//! Snapshots of the processes of the system and of the modules of a process.
//!
//! The host takes the snapshot and copies its records; the library judges
//! what each call of the system gave, decodes the names and walks the
//! records in their order.
use vstd::prelude::*;
use windows::Win32::Foundation::MAX_PATH;
use windows::Win32::System::Diagnostics::ToolHelp::{
    MAX_MODULE_NAME32,
    TH32CS_SNAPMODULE,
    TH32CS_SNAPMODULE32,
    TH32CS_SNAPPROCESS,
};
use crate::errors::MemoryError;
use crate::handle::{Handle, raw_is_valid};

verus! {

/// The text that `String::from_utf16_lossy` of the standard library makes of
/// a run of UTF-16 code units.
pub uninterp spec fn utf16_lossy(units: Seq<u16>) -> Seq<char>;

/// `String::from_utf16_lossy` of the standard library: decodes UTF-16 and
/// puts the replacement character where the data is invalid. The result
/// depends on the code units alone.
#[verifier::external_body]
fn from_utf16_lossy(units: &[u16]) -> (text: String)
    ensures
        text@ == utf16_lossy(units@),
{
    String::from_utf16_lossy(units)
}

/// The value of `TH32CS_SNAPPROCESS` of the `windows` crate.
#[verifier::external_body]
fn th32cs_snapprocess() -> (flags: u32)
    ensures
        flags == 2,
{
    TH32CS_SNAPPROCESS.0
}

/// The union of `TH32CS_SNAPMODULE` and `TH32CS_SNAPMODULE32` of the
/// `windows` crate, whose values are 8 and 16.
#[verifier::external_body]
fn th32cs_snapmodules() -> (flags: u32)
    ensures
        flags == 24,
{
    (TH32CS_SNAPMODULE | TH32CS_SNAPMODULE32).0
}

/// The value of `MAX_PATH` of the `windows` crate: the length of a path
/// buffer.
#[verifier::external_body]
fn max_path() -> (length: usize)
    ensures
        length == 260,
{
    MAX_PATH as usize
}

/// The value of `MAX_MODULE_NAME32` of the `windows` crate: the longest
/// module name, without its terminator.
#[verifier::external_body]
fn max_module_name32() -> (length: usize)
    ensures
        length == 255,
{
    MAX_MODULE_NAME32 as usize
}

/// The number of code units before the first terminator of a name buffer,
/// or the length of the buffer where it holds none.
pub open spec fn name_length(units: Seq<u16>) -> nat
    decreases units.len(),
{
    if units.len() == 0 || units[0] == 0 {
        0
    } else {
        1 + name_length(units.skip(1))
    }
}

/// The code units of the name that a fixed-width, null-padded buffer holds:
/// those before its first terminator.
pub open spec fn name_of(units: Seq<u16>) -> Seq<u16> {
    units.take(name_length(units) as int)
}

/// The text that a fixed-width, null-padded name buffer holds: what stands
/// before its first terminator.
pub open spec fn buffer_text(units: Seq<u16>) -> Seq<char> {
    utf16_lossy(name_of(units))
}

/// The name never reaches beyond its buffer.
pub proof fn lemma_name_length_bound(units: Seq<u16>)
    ensures
        name_length(units) <= units.len(),
    decreases units.len(),
{
    if units.len() != 0 && units[0] != 0 {
        lemma_name_length_bound(units.skip(1));
    }
}

/// The name holds no terminator, and ends at the first one or with the
/// buffer.
pub proof fn lemma_name_length_is_first_terminator(units: Seq<u16>)
    ensures
        forall|i: int| 0 <= i < name_length(units) ==> units[i] != 0,
        name_length(units) == units.len() || units[name_length(units) as int] == 0,
    decreases units.len(),
{
    if units.len() != 0 && units[0] != 0 {
        let rest = units.skip(1);
        lemma_name_length_is_first_terminator(rest);
        lemma_name_length_bound(rest);
        assert forall|i: int| 0 <= i < name_length(units) implies units[i] != 0 by {
            if i > 0 {
                assert(rest[i - 1] == units[i]);
            }
        }
        if name_length(rest) < rest.len() {
            assert(rest[name_length(rest) as int] == units[name_length(units) as int]);
        }
    }
}

/// The part of a name buffer that holds the name: what stands before the
/// first terminator, or the whole buffer where it holds none. What follows
/// the terminator, padding or not, is no part of the name.
pub fn name_units(buffer: &[u16]) -> (units: &[u16])
    ensures
        units@ == name_of(buffer@),
{
    let mut end: usize = 0;
    assert(buffer@.skip(0) =~= buffer@);
    while end < buffer.len() && buffer[end] != 0
        invariant
            end <= buffer.len(),
            name_length(buffer@) == end + name_length(buffer@.skip(end as int)),
        decreases buffer.len() - end,
    {
        assert(buffer@.skip(end as int).skip(1) =~= buffer@.skip(end + 1));
        end += 1;
    }
    assert(buffer@.subrange(0, end as int) =~= buffer@.take(end as int));
    vstd::slice::slice_subrange(buffer, 0, end)
}

/// Decodes a fixed-width, null-padded name buffer. Decoding stops at the
/// first terminator.
pub fn decode_name(buffer: &[u16]) -> (text: String)
    ensures
        text@ == buffer_text(buffer@),
{
    from_utf16_lossy(name_units(buffer))
}

/// What the host has to ask of the system to take a snapshot.
#[derive(Debug, Clone, Copy, PartialEq, Eq, Structural)]
pub struct SnapshotRequest {
    /// What the snapshot is to hold.
    pub flags: u32,
    /// The process whose modules are meant; 0 for a snapshot of the processes.
    pub pid: u32,
}

/// The request for a snapshot of all processes.
pub fn process_snapshot() -> (request: SnapshotRequest)
    ensures
        request == (SnapshotRequest { flags: 2, pid: 0 }),
{
    SnapshotRequest { flags: th32cs_snapprocess(), pid: 0 }
}

/// The request for a snapshot of the modules of process `pid`, those of 32
/// bits and those of 64.
pub fn module_snapshot(pid: u32) -> (request: SnapshotRequest)
    ensures
        request == (SnapshotRequest { flags: 24, pid }),
{
    SnapshotRequest { flags: th32cs_snapmodules(), pid }
}

/// One record of a snapshot of the processes, as the system fills it in.
#[derive(Debug, Clone)]
pub struct ProcessEntry {
    /// The identifier of the process.
    pub pid: u32,
    /// The name of the executable, null-padded.
    pub exe_file: Vec<u16>,
}

/// One record of a snapshot of the modules, as the system fills it in.
#[derive(Debug, Clone)]
pub struct ModuleEntry {
    /// The name of the module, null-padded.
    pub module: Vec<u16>,
    /// The path of the module, null-padded.
    pub exe_path: Vec<u16>,
    /// The address at which the module is loaded.
    pub base_addr: usize,
    /// The size of the module in bytes.
    pub base_size: u32,
}

/// A process of a snapshot, decoded.
#[derive(Debug, Clone)]
pub struct ProcessDescriptor {
    pub name: String,
    pub pid: u32,
}

/// A module of a snapshot, decoded.
#[derive(Debug, Clone)]
pub struct ModuleDescriptor {
    pub name: String,
    pub path: String,
    pub base_address: usize,
    pub size: usize,
}

impl ProcessEntry {
    /// The name of the executable.
    pub open spec fn name(&self) -> Seq<char> {
        buffer_text(self.exe_file@)
    }

    /// Whether a descriptor says what this record holds.
    pub open spec fn described_by(&self, descriptor: ProcessDescriptor) -> bool {
        descriptor.name@ == self.name() && descriptor.pid == self.pid
    }

    /// Decodes the record into a value of its own.
    pub fn describe(&self) -> (descriptor: ProcessDescriptor)
        ensures
            self.described_by(descriptor),
    {
        ProcessDescriptor { name: decode_name(self.exe_file.as_slice()), pid: self.pid }
    }
}

impl ModuleEntry {
    /// The name of the module.
    pub open spec fn name(&self) -> Seq<char> {
        buffer_text(self.module@)
    }

    /// The path of the module.
    pub open spec fn path(&self) -> Seq<char> {
        buffer_text(self.exe_path@)
    }

    /// Whether a descriptor says what this record holds.
    pub open spec fn described_by(&self, descriptor: ModuleDescriptor) -> bool {
        &&& descriptor.name@ == self.name()
        &&& descriptor.path@ == self.path()
        &&& descriptor.base_address == self.base_addr
        &&& descriptor.size == self.base_size
    }

    /// Decodes the record into a value of its own.
    pub fn describe(&self) -> (descriptor: ModuleDescriptor)
        ensures
            self.described_by(descriptor),
    {
        ModuleDescriptor {
            name: decode_name(self.module.as_slice()),
            path: decode_name(self.exe_path.as_slice()),
            base_address: self.base_addr,
            size: self.base_size as usize,
        }
    }
}

/// A buffer of `length` terminators.
fn zeroed(length: usize) -> (buffer: Vec<u16>)
    ensures
        buffer@ == Seq::new(length as nat, |i: int| 0u16),
{
    let mut buffer: Vec<u16> = Vec::new();
    while buffer.len() < length
        invariant
            buffer.len() <= length,
            buffer@ == Seq::new(buffer.len() as nat, |i: int| 0u16),
        decreases length - buffer.len(),
    {
        buffer.push(0);
        assert(buffer@ =~= Seq::new(buffer.len() as nat, |i: int| 0u16));
    }
    buffer
}

/// An empty process record for the system to fill in: identifier 0 and a
/// name buffer of 260 terminators.
pub fn create_pe32() -> (entry: ProcessEntry)
    ensures
        entry.pid == 0,
        entry.exe_file@ == Seq::new(260, |i: int| 0u16),
{
    ProcessEntry { pid: 0, exe_file: zeroed(max_path()) }
}

/// An empty module record for the system to fill in: no address, no size, a
/// name buffer of 256 terminators and a path buffer of 260.
pub fn create_me32() -> (entry: ModuleEntry)
    ensures
        entry.base_addr == 0,
        entry.base_size == 0,
        entry.module@ == Seq::new(256, |i: int| 0u16),
        entry.exe_path@ == Seq::new(260, |i: int| 0u16),
{
    ModuleEntry {
        module: zeroed(max_module_name32() + 1),
        exe_path: zeroed(max_path()),
        base_addr: 0,
        base_size: 0,
    }
}

/// Judges what the system gave when a snapshot was asked for: the raw
/// handle, or a failure code. The snapshot exists exactly when the handle is
/// valid.
pub fn create_snapshot(outcome: Result<isize, i32>) -> (snapshot: Result<Handle, MemoryError>)
    ensures
        match snapshot {
            Ok(handle) => outcome == Ok::<isize, i32>(handle.wrap) && handle.valid(),
            Err(error) => error == MemoryError::CreateSnapshotFailure && !(outcome matches Ok(raw)
                && raw_is_valid(raw)),
        },
{
    match outcome {
        Ok(raw) => {
            let handle = Handle::new(raw);
            if handle.is_valid() {
                Ok(handle)
            } else {
                Err(MemoryError::CreateSnapshotFailure)
            }
        },
        Err(_) => Err(MemoryError::CreateSnapshotFailure),
    }
}

/// Judges the positioning on the first process record: the record, or the
/// failure code with which the system refused. A record is handed on
/// decoded.
pub fn process_first(outcome: Result<ProcessEntry, i32>) -> (first: Result<
    ProcessDescriptor,
    MemoryError,
>)
    ensures
        match outcome {
            Ok(entry) => first matches Ok(descriptor) && entry.described_by(descriptor),
            Err(code) => first matches Err(error) && error == (
            MemoryError::IterateSnapshotFailure { win32: code }),
        },
{
    match outcome {
        Ok(entry) => Ok(entry.describe()),
        Err(code) => Err(MemoryError::IterateSnapshotFailure { win32: code }),
    }
}

/// Judges an advance to the next process record: the record, decoded, or
/// nothing where the system reported no further one.
pub fn process32next(outcome: Result<ProcessEntry, i32>) -> (next: Option<ProcessDescriptor>)
    ensures
        match outcome {
            Ok(entry) => next matches Some(descriptor) && entry.described_by(descriptor),
            Err(_) => next is None,
        },
{
    match outcome {
        Ok(entry) => Some(entry.describe()),
        Err(_) => None,
    }
}

/// Judges the positioning on the first module record: the record, or the
/// failure code with which the system refused. A record is handed on
/// decoded.
pub fn module32first(outcome: Result<ModuleEntry, i32>) -> (first: Result<
    ModuleDescriptor,
    MemoryError,
>)
    ensures
        match outcome {
            Ok(entry) => first matches Ok(descriptor) && entry.described_by(descriptor),
            Err(code) => first matches Err(error) && error == (
            MemoryError::IterateSnapshotFailure { win32: code }),
        },
{
    match outcome {
        Ok(entry) => Ok(entry.describe()),
        Err(code) => Err(MemoryError::IterateSnapshotFailure { win32: code }),
    }
}

/// Judges an advance to the next module record: the record, decoded, or
/// nothing where the system reported no further one.
pub fn module32next(outcome: Result<ModuleEntry, i32>) -> (next: Option<ModuleDescriptor>)
    ensures
        match outcome {
            Ok(entry) => next matches Some(descriptor) && entry.described_by(descriptor),
            Err(_) => next is None,
        },
{
    match outcome {
        Ok(entry) => Some(entry.describe()),
        Err(_) => None,
    }
}

/// Where a cursor stands after one advance in a snapshot of `len` records,
/// and whether it stands on a record: it moves to the next record while
/// there is one, and past the last one otherwise.
pub open spec fn advanced(len: nat, position: nat) -> (nat, bool) {
    if position + 1 < len {
        ((position + 1) as nat, true)
    } else {
        (len, false)
    }
}

/// Where a cursor stands after `advances` advances from the first record.
pub open spec fn position_after(len: nat, advances: nat) -> nat
    decreases advances,
{
    if advances == 0 {
        0
    } else {
        advanced(len, position_after(len, (advances - 1) as nat)).0
    }
}

/// Enumeration visits every record once and ends: in a snapshot of `len`
/// records the cursor stands on record `k` after `k` advances, for every
/// `k` below `len`, so that no record is skipped and none comes twice; the
/// advance from the last record reports the end, and so does every later
/// one.
pub proof fn lemma_enumeration_visits_each_once(len: nat, advances: nat)
    ensures
        advances < len ==> position_after(len, advances) == advances,
        advances >= len ==> position_after(len, advances) == len,
        advanced(len, position_after(len, advances)).1 == (advances + 1 < len),
    decreases advances,
{
    if advances > 0 {
        lemma_enumeration_visits_each_once(len, (advances - 1) as nat);
    }
}

/// The records of a snapshot with a cursor on them. The cursor starts on
/// the first record and only moves forward.
pub struct Snapshot<E> {
    entries: Vec<E>,
    cursor: usize,
}

impl<E> Snapshot<E> {
    /// All records, in the order of the snapshot.
    pub closed spec fn entries(&self) -> Seq<E> {
        self.entries@
    }

    /// The index of the record under the cursor; the number of records
    /// where the cursor went past the last one.
    pub closed spec fn position(&self) -> nat {
        self.cursor as nat
    }

    /// The cursor never goes further than just past the last record.
    pub open spec fn wf(&self) -> bool {
        self.position() <= self.entries().len()
    }

    /// The records from the cursor on.
    pub open spec fn remaining(&self) -> Seq<E> {
        self.entries().skip(self.position() as int)
    }

    #[verifier::type_invariant]
    spec fn inv(self) -> bool {
        self.cursor <= self.entries@.len()
    }

    /// The snapshot that holds `entries`, with the cursor on the first one.
    pub fn new(entries: Vec<E>) -> (snapshot: Snapshot<E>)
        ensures
            snapshot.entries() == entries@,
            snapshot.position() == 0,
            snapshot.wf(),
    {
        Snapshot { entries, cursor: 0 }
    }

    /// The number of records.
    pub fn len(&self) -> (len: usize)
        ensures
            len == self.entries().len(),
            self.wf(),
    {
        proof {
            use_type_invariant(self);
        }
        self.entries.len()
    }

    /// The record under the cursor: none in an empty snapshot, and none
    /// once the cursor went past the last record.
    pub fn current(&self) -> (entry: Option<&E>)
        ensures
            self.wf(),
            match entry {
                Some(entry) => self.position() < self.entries().len() && *entry
                    == self.entries()[self.position() as int],
                None => self.position() == self.entries().len(),
            },
    {
        proof {
            use_type_invariant(self);
        }
        if self.cursor < self.entries.len() {
            Some(&self.entries[self.cursor])
        } else {
            None
        }
    }

    /// Moves the cursor forward by one record and says whether it stands on
    /// a record after that. Once it says no, it goes on saying no.
    pub fn advance(&mut self) -> (more: bool)
        ensures
            final(self).entries() == old(self).entries(),
            old(self).wf() && final(self).wf(),
            (final(self).position(), more) == advanced(
                old(self).entries().len(),
                old(self).position(),
            ),
    {
        proof {
            use_type_invariant(&*self);
        }
        if self.cursor < self.entries.len() && self.cursor + 1 < self.entries.len() {
            self.cursor = self.cursor + 1;
            true
        } else {
            self.cursor = self.entries.len();
            false
        }
    }
}

} // verus!
