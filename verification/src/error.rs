//! The errors of the configuration side.
use vstd::prelude::*;

verus! {

/// The kinds of I/O error that are reported here.
#[derive(Clone, Copy, Debug, PartialEq, Eq, Structural)]
pub enum IoErrorKind {
    InvalidData,
    Other,
}

/// An I/O error: its kind and what it says.
#[derive(Clone, Debug)]
pub struct IoError {
    pub kind: IoErrorKind,
    pub message: String,
}

/// What can go wrong while a device is described or validated.
#[derive(Clone, Debug)]
pub enum PushError {
    IoError(IoError),
}

impl PushError {
    /// Whether this is an I/O error of the given kind with the given message.
    pub open spec fn is_io(&self, kind: IoErrorKind, message: Seq<char>) -> bool {
        match self {
            PushError::IoError(e) => e.kind == kind && e.message@ == message,
        }
    }

    /// An I/O error.
    pub fn io(kind: IoErrorKind, message: String) -> (r: PushError)
        ensures
            r.is_io(kind, message@),
            r == PushError::IoError(IoError { kind, message }),
    {
        PushError::IoError(IoError { kind, message })
    }
}

/// An I/O error holds its kind and its whole message.
pub proof fn law_io_error_holds_its_parts(kind: IoErrorKind, message: String, r: PushError)
    requires
        call_ensures(PushError::io, (kind, message), r),
    ensures
        r == PushError::IoError(IoError { kind, message }),
{
}

} // verus!
