//! What the operating system answers to a call, as plain values.
//!
//! The library never calls the kernel itself. Its caller does, and hands
//! back what the kernel said: the value that the call returned and, where
//! the call failed, the fault that the system recorded for it.

use vstd::prelude::*;

verus! {

/// The class of a failed call, after the kinds by which the standard
/// library sorts operating system errors.
#[derive(Clone, Copy, Debug, PartialEq, Eq, Structural)]
pub enum FaultKind {
    /// An argument does not fit the call: for a copy primitive, a
    /// descriptor of a type that the primitive does not serve.
    InvalidInput,
    /// The system, or the file system behind a descriptor, lacks the call.
    Unsupported,
    /// The two descriptors live on different file systems.
    CrossesDevices,
    /// An offset was given for a descriptor that cannot seek.
    NotSeekable,
    /// Anything else: an I/O failure in the proper sense.
    Other,
}

/// A failed call: its class and the error number that the system gave.
#[derive(Clone, Copy, Debug, PartialEq, Eq, Structural)]
pub struct Fault {
    pub kind: FaultKind,
    /// The raw error number, 0 where none is known.
    pub code: i32,
}

/// What one call reported: a count (bytes moved, or 0 where the call
/// counts nothing) or the fault.
pub type Reply = Result<usize, Fault>;

impl FaultKind {
    /// The classes that say "this primitive does not serve this pair of
    /// descriptors", as opposed to "the transfer broke".
    pub open spec fn spec_unsupported(self) -> bool {
        self != FaultKind::Other
    }

    /// Whether the class says that a primitive does not serve the
    /// descriptors it was given.
    #[verifier::when_used_as_spec(spec_unsupported)]
    pub fn unsupported(self) -> (b: bool)
        ensures
            b == self.spec_unsupported(),
    {
        match self {
            FaultKind::InvalidInput => true,
            FaultKind::Unsupported => true,
            FaultKind::CrossesDevices => true,
            FaultKind::NotSeekable => true,
            FaultKind::Other => false,
        }
    }
}

impl Fault {
    /// Whether the fault tells that a primitive cannot serve the
    /// descriptors it was given: its class decides.
    pub open spec fn spec_unsupported(self) -> bool {
        self.kind.spec_unsupported()
    }

    /// Whether the fault tells that a primitive cannot serve the
    /// descriptors it was given.
    #[verifier::when_used_as_spec(spec_unsupported)]
    pub fn unsupported(self) -> (b: bool)
        ensures
            b == self.spec_unsupported(),
    {
        self.kind.unsupported()
    }
}

/// Reads the value that a system call returned: a value below zero
/// means that the call failed, and `fault` is then what the system
/// recorded; any other value is the call's count.
pub fn check_return(value: isize, fault: Fault) -> (reply: Reply)
    ensures
        value >= 0 ==> reply == Ok::<usize, Fault>(value as usize),
        value < 0 ==> reply == Err::<usize, Fault>(fault),
{
    if value >= 0 {
        Ok(value as usize)
    } else {
        Err(fault)
    }
}

} // verus!
