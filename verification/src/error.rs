//! The failures of a run, by the step that failed.

use crate::seal::SealState;
use crate::sys::Fault;
use crate::transfer::Strategy;
use vstd::prelude::*;

verus! {

/// Why a transfer was abandoned.
#[derive(Clone, Copy, Debug, PartialEq, Eq, Structural)]
pub enum TransferCause {
    /// The system failed a read, a write, a flush or a copy primitive.
    Os(Fault),
    /// The buffer took none of the bytes it was offered.
    WriteZero,
    /// A call reported more bytes than it had been asked to move.
    Overrun,
    /// The transfer grew past the largest offset a descriptor can have.
    OffsetRange,
    /// No memory could be had for the staging area.
    OutOfMemory,
    /// The buffer is sealed against growing or writing.
    Sealed,
    /// The buffer is not yet sealed against shrinking.
    Unguarded,
}

/// A transfer that did not reach the end of the source.
#[derive(Clone, Copy, Debug, PartialEq, Eq, Structural)]
pub struct TransferError {
    /// The strategy that was at work.
    pub strategy: Strategy,
    /// The bytes that had reached the buffer by then.
    pub moved: u64,
    pub cause: TransferCause,
}

/// The step of the handoff that failed.
#[derive(Clone, Copy, Debug, PartialEq, Eq, Structural)]
pub enum HandoffError {
    /// The buffer could not be put in the place of standard input.
    Redirect(Fault),
    /// The program image could not be replaced.
    Launch(Fault),
}

/// Everything that ends a run before the handoff.
#[derive(Clone, Copy, Debug, PartialEq, Eq, Structural)]
pub enum Error {
    /// The kernel gave no buffer.
    Allocation(Fault),
    /// The kernel refused a seal.
    Seal(Fault),
    /// A seal state was asked for that lies behind the one held.
    InvalidState { held: SealState, requested: SealState },
    Transfer(TransferError),
    Handoff(HandoffError),
}

impl Error {
    /// The fault of the system behind the error, where it has one.
    pub open spec fn spec_fault(self) -> Option<Fault> {
        match self {
            Error::Allocation(fault) => Some(fault),
            Error::Seal(fault) => Some(fault),
            Error::InvalidState { .. } => None,
            Error::Transfer(error) => match error.cause {
                TransferCause::Os(fault) => Some(fault),
                _ => None,
            },
            Error::Handoff(HandoffError::Redirect(fault)) => Some(fault),
            Error::Handoff(HandoffError::Launch(fault)) => Some(fault),
        }
    }

    /// The fault of the system behind the error, where it has one.
    #[verifier::when_used_as_spec(spec_fault)]
    pub fn fault(self) -> (fault: Option<Fault>)
        ensures
            fault == self.spec_fault(),
    {
        match self {
            Error::Allocation(fault) => Some(fault),
            Error::Seal(fault) => Some(fault),
            Error::InvalidState { .. } => None,
            Error::Transfer(error) => match error.cause {
                TransferCause::Os(fault) => Some(fault),
                _ => None,
            },
            Error::Handoff(HandoffError::Redirect(fault)) => Some(fault),
            Error::Handoff(HandoffError::Launch(fault)) => Some(fault),
        }
    }

    /// What went wrong, in words, for an error that has no fault of the
    /// system behind it; for one that has, the system's own words for
    /// the fault are the ones to show, and the text here is empty.
    pub open spec fn spec_words(self) -> Seq<char> {
        match self {
            Error::InvalidState { .. } => "a seal cannot be taken back"@,
            Error::Transfer(error) => match error.cause {
                TransferCause::Os(_) => ""@,
                TransferCause::WriteZero => "the buffer took no more bytes"@,
                TransferCause::Overrun => "a call moved more bytes than it was asked to"@,
                TransferCause::OffsetRange => "the data does not fit a file offset"@,
                TransferCause::OutOfMemory => "out of memory"@,
                TransferCause::Sealed => "the buffer is sealed against writing"@,
                TransferCause::Unguarded => "the buffer is not sealed against shrinking"@,
            },
            _ => ""@,
        }
    }

    /// What went wrong, in words, where the system has no words for it.
    pub fn words(self) -> (words: &'static str)
        ensures
            words@ == self.spec_words(),
    {
        match self {
            Error::InvalidState { .. } => "a seal cannot be taken back",
            Error::Transfer(error) => match error.cause {
                TransferCause::Os(_) => "",
                TransferCause::WriteZero => "the buffer took no more bytes",
                TransferCause::Overrun => "a call moved more bytes than it was asked to",
                TransferCause::OffsetRange => "the data does not fit a file offset",
                TransferCause::OutOfMemory => "out of memory",
                TransferCause::Sealed => "the buffer is sealed against writing",
                TransferCause::Unguarded => "the buffer is not sealed against shrinking",
            },
            _ => "",
        }
    }
}

} // verus!
