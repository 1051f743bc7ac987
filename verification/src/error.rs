//! The error taxonomy of the binding.
//!
//! Three things can go wrong at the native boundary: an allocation fails (a
//! constructor returns a null handle), a caller hands in a string the C side
//! cannot represent, or a native call reports an OS error code.

use vstd::prelude::*;

verus! {

/// The OS error code for an exhausted memory condition.
pub const CODE_NO_MEM: i32 = 12;

/// The OS error code for an invalid argument.
pub const CODE_INVALID_INPUT: i32 = 22;

/// Types of errors that occur in the binding.
#[derive(Debug, Clone, Copy, PartialEq, Eq, Structural)]
pub enum ErrorKind {
    /// The native layer could not allocate an object.
    NoMem,
    /// A caller-supplied string cannot cross the native boundary.
    InvalidInput,
    /// Any other failure, carrying the underlying OS error code.
    Io(i32),
}

/// The error type for operations of this binding.
#[derive(Debug, Clone, Copy, PartialEq, Eq, Structural)]
pub struct Error {
    /// What went wrong.
    pub kind: ErrorKind,
}

/// The kind an OS error code stands for: the two codes the binding gives a
/// name of their own, and the raw code otherwise.
pub open spec fn kind_of_code(code: i32) -> ErrorKind {
    if code == CODE_NO_MEM {
        ErrorKind::NoMem
    } else if code == CODE_INVALID_INPUT {
        ErrorKind::InvalidInput
    } else {
        ErrorKind::Io(code)
    }
}

impl Error {
    /// Returns the corresponding `ErrorKind` for this error.
    pub fn kind(&self) -> (r: ErrorKind)
        ensures
            r == self.kind,
    {
        self.kind
    }

    /// The kind, for use in contracts.
    pub open spec fn spec_kind(&self) -> ErrorKind {
        self.kind
    }

    /// Returns a description of the error.
    pub fn description(&self) -> (r: &'static str)
        ensures
            self.kind is NoMem ==> r@ == "out of memory"@,
            self.kind is InvalidInput ==> r@ == "invalid input"@,
            self.kind is Io ==> r@ == "native call failed"@,
    {
        match self.kind {
            ErrorKind::NoMem => "out of memory",
            ErrorKind::InvalidInput => "invalid input",
            ErrorKind::Io(_) => "native call failed",
        }
    }
}

/// Makes an error of the given kind.
pub fn new(kind: ErrorKind) -> (r: Error)
    ensures
        r.kind == kind,
{
    Error { kind }
}

/// Maps a negated OS error code, as native calls return it, to an error.
///
/// Native calls report failure as `-code`; the two codes the binding
/// distinguishes get their named kinds, every other code is carried as is.
pub fn from_errno(errno: i32) -> (r: Error)
    requires
        errno != i32::MIN,
    ensures
        r.kind == kind_of_code(-errno as i32),
{
    let code: i32 = -errno;
    if code == CODE_NO_MEM {
        Error { kind: ErrorKind::NoMem }
    } else if code == CODE_INVALID_INPUT {
        Error { kind: ErrorKind::InvalidInput }
    } else {
        Error { kind: ErrorKind::Io(code) }
    }
}

} // verus!
