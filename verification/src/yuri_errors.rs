//! The failures that the game layer reports.
use vstd::prelude::*;
use vstd::std_specs::convert::FromSpecImpl;
use vstd::string::StringExecFns;
use crate::errors::MemoryError;
use crate::text::{decimal, decimal_text};

verus! {

/// The kind of a [`YuriError`].
#[derive(Debug, Clone, Copy, PartialEq, Eq, Structural)]
pub enum YuriErrorKind {
    GameNotFound,
    GameNotStart,
    /// An unknown error.
    UnknownError,
    /// A failure of the system, with its code.
    SystemError { win32: i32 },
}

/// A boxed error kind.
#[derive(Debug, Clone)]
pub struct YuriError {
    kind: Box<YuriErrorKind>,
}

/// The kind that a failure of the memory engine is reported as: a failure
/// that carries a code of the system keeps it, every other one is unknown.
pub open spec fn kind_of(error: MemoryError) -> YuriErrorKind {
    match error {
        MemoryError::IterateSnapshotFailure { win32 } => YuriErrorKind::SystemError { win32 },
        MemoryError::SystemError { win32 } => YuriErrorKind::SystemError { win32 },
        _ => YuriErrorKind::UnknownError,
    }
}

/// The text that stands for a failure of the system whose code reads
/// `code`.
pub fn system_error_text(code: &str) -> (text: String)
    ensures
        text@ == "SystemError: "@ + code@,
{
    "SystemError: ".to_owned().concat(code)
}

impl YuriErrorKind {
    /// The text that stands for the kind.
    pub open spec fn text(self) -> Seq<char> {
        match self {
            YuriErrorKind::UnknownError => "UnknownError"@,
            YuriErrorKind::GameNotFound => "GameNotFound"@,
            YuriErrorKind::GameNotStart => "GameNotStart"@,
            YuriErrorKind::SystemError { win32 } => "SystemError: "@ + decimal_text(win32 as i64),
        }
    }

    /// The text that stands for the kind: its name, followed by the code
    /// for a failure of the system.
    pub fn message(&self) -> (text: String)
        ensures
            text@ == self.text(),
    {
        match self {
            YuriErrorKind::UnknownError => "UnknownError".to_owned(),
            YuriErrorKind::GameNotFound => "GameNotFound".to_owned(),
            YuriErrorKind::GameNotStart => "GameNotStart".to_owned(),
            YuriErrorKind::SystemError { win32 } => {
                let code = decimal(*win32 as i64);
                system_error_text(code.as_str())
            },
        }
    }
}

impl YuriError {
    /// The kind of the error.
    pub closed spec fn spec_kind(&self) -> YuriErrorKind {
        *self.kind
    }

    /// The error of a kind.
    pub closed spec fn of_kind(kind: YuriErrorKind) -> YuriError {
        YuriError { kind: Box::new(kind) }
    }

    /// The kind of the error.
    pub fn kind(&self) -> (kind: YuriErrorKind)
        ensures
            kind == self.spec_kind(),
    {
        *self.kind
    }

    /// The text that stands for the error: that of its kind.
    pub fn message(&self) -> (text: String)
        ensures
            text@ == self.spec_kind().text(),
    {
        self.kind.message()
    }
}

/// An error has the kind it was made of.
pub proof fn lemma_kind_of_error(kind: YuriErrorKind)
    ensures
        YuriError::of_kind(kind).spec_kind() == kind,
{
}

impl From<YuriErrorKind> for YuriError {
    fn from(value: YuriErrorKind) -> (error: YuriError) {
        YuriError { kind: Box::new(value) }
    }
}

impl FromSpecImpl<YuriErrorKind> for YuriError {
    open spec fn obeys_from_spec() -> bool {
        true
    }

    open spec fn from_spec(value: YuriErrorKind) -> YuriError {
        YuriError::of_kind(value)
    }
}

impl From<MemoryError> for YuriError {
    fn from(value: MemoryError) -> (error: YuriError) {
        let kind = match value {
            MemoryError::CreateSnapshotFailure => YuriErrorKind::UnknownError,
            MemoryError::IterateSnapshotFailure { win32 } => YuriErrorKind::SystemError { win32 },
            MemoryError::ProcessNotFound => YuriErrorKind::UnknownError,
            MemoryError::ModuleNotFound => YuriErrorKind::UnknownError,
            MemoryError::GetHandleError => YuriErrorKind::UnknownError,
            MemoryError::TerminateProcessError => YuriErrorKind::UnknownError,
            MemoryError::ReadMemoryError => YuriErrorKind::UnknownError,
            MemoryError::WriteMemoryError => YuriErrorKind::UnknownError,
            MemoryError::SignatureNotFound => YuriErrorKind::UnknownError,
            MemoryError::AddressOutOfBounds => YuriErrorKind::UnknownError,
            MemoryError::RIPRelativeFailed => YuriErrorKind::UnknownError,
            MemoryError::SystemError { win32 } => YuriErrorKind::SystemError { win32 },
        };
        YuriError { kind: Box::new(kind) }
    }
}

impl FromSpecImpl<MemoryError> for YuriError {
    open spec fn obeys_from_spec() -> bool {
        true
    }

    open spec fn from_spec(value: MemoryError) -> YuriError {
        YuriError::of_kind(kind_of(value))
    }
}

} // verus!
