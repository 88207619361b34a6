//! Host-side error values: what a guest exception is to host code, and what a
//! host failure becomes when it is re-raised into the guest error slot.

use vstd::prelude::*;
use vstd::string::*;

verus! {

/// The class of a guest exception.  Raising an error into the guest error
/// slot, or fetching a pending one, preserves this tag.
#[derive(Clone, Copy, PartialEq, Eq, Structural, Debug)]
pub enum ErrorKind {
    /// Wrong argument shape or wrong value type at a call boundary.
    TypeError,
    /// A name was looked up on an object that does not provide it.
    AttributeError,
    /// A module was requested that the import registry does not hold.
    ImportError,
    /// A malformed value, such as a name with an embedded NUL byte.
    ValueError,
    /// Integer arithmetic in wrapped host code left the representable range.
    OverflowError,
    /// The guest runtime itself reported an inconsistent state.
    SystemError,
}

/// Mathematical model of an [`ErrorValue`].
pub struct ErrVal {
    pub kind: ErrorKind,
    pub message: Seq<char>,
}

/// A host-level error: either a guest exception that was fetched out of the
/// error slot, or an error synthesized by this layer.  It carries enough to be
/// re-raised into the guest error slot or inspected by host code.
#[derive(Debug)]
pub struct ErrorValue {
    pub kind: ErrorKind,
    pub message: String,
}

impl View for ErrorValue {
    type V = ErrVal;

    open spec fn view(&self) -> ErrVal {
        ErrVal { kind: self.kind, message: self.message@ }
    }
}

impl ErrorValue {
    /// Builds an error value of the given class with the given text.
    pub fn new(kind: ErrorKind, message: String) -> (r: ErrorValue)
        ensures
            r@ == (ErrVal { kind, message: message@ }),
    {
        ErrorValue { kind, message }
    }

    /// A copy with the same class and the same text, for when one error must
    /// both be deposited in the slot and handed back to the caller's scope.
    pub fn duplicate(&self) -> (r: ErrorValue)
        ensures
            r@ == self@,
    {
        ErrorValue { kind: self.kind, message: String::from_str(self.message.as_str()) }
    }
}

} // verus!
