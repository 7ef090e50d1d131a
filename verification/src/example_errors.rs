//! The failures that the debugger front end reports.
use vstd::prelude::*;
use vstd::std_specs::convert::FromSpecImpl;

verus! {

/// The kind of an [`ExampleError`].
#[derive(Debug, Copy, Clone, PartialEq, Eq, Structural)]
pub enum ExampleErrorKind {
    /// An unknown error.
    UnknownError,
}

/// A boxed error kind.
#[derive(Debug, Clone)]
pub struct ExampleError {
    kind: Box<ExampleErrorKind>,
}

impl ExampleError {
    /// The kind of the error.
    pub closed spec fn spec_kind(&self) -> ExampleErrorKind {
        *self.kind
    }

    /// The error of a kind.
    pub closed spec fn of_kind(kind: ExampleErrorKind) -> ExampleError {
        ExampleError { kind: Box::new(kind) }
    }

    /// The kind of the error.
    pub fn kind(&self) -> (kind: ExampleErrorKind)
        ensures
            kind == self.spec_kind(),
    {
        *self.kind
    }
}

/// An error has the kind it was made of.
pub proof fn lemma_kind_of_error(kind: ExampleErrorKind)
    ensures
        ExampleError::of_kind(kind).spec_kind() == kind,
{
}

impl From<ExampleErrorKind> for ExampleError {
    fn from(value: ExampleErrorKind) -> (error: ExampleError) {
        ExampleError { kind: Box::new(value) }
    }
}

impl FromSpecImpl<ExampleErrorKind> for ExampleError {
    open spec fn obeys_from_spec() -> bool {
        true
    }

    open spec fn from_spec(value: ExampleErrorKind) -> ExampleError {
        ExampleError::of_kind(value)
    }
}

} // verus!
