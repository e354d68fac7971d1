use sealed_stdin::error::{Error, HandoffError, TransferCause, TransferError};
use sealed_stdin::seal::SealState;
use sealed_stdin::sys::{Fault, FaultKind};
use sealed_stdin::transfer::Strategy;

fn fault() -> Fault {
    Fault { kind: FaultKind::Other, code: 28 }
}

fn transfer(cause: TransferCause) -> Error {
    Error::Transfer(TransferError { strategy: Strategy::Buffered, moved: 12, cause })
}

#[test]
fn errors_of_the_system_carry_its_fault() {
    assert_eq!(Error::Allocation(fault()).fault(), Some(fault()));
    assert_eq!(Error::Seal(fault()).fault(), Some(fault()));
    assert_eq!(transfer(TransferCause::Os(fault())).fault(), Some(fault()));
    assert_eq!(Error::Handoff(HandoffError::Redirect(fault())).fault(), Some(fault()));
    assert_eq!(Error::Handoff(HandoffError::Launch(fault())).fault(), Some(fault()));
    for error in [
        Error::Allocation(fault()),
        Error::Seal(fault()),
        transfer(TransferCause::Os(fault())),
        Error::Handoff(HandoffError::Redirect(fault())),
        Error::Handoff(HandoffError::Launch(fault())),
    ] {
        assert_eq!(error.words(), "");
    }
}

#[test]
fn errors_of_the_library_have_words_of_their_own() {
    let backwards =
        Error::InvalidState { held: SealState::Immutable, requested: SealState::Mutable };
    assert_eq!(backwards.fault(), None);
    assert_eq!(backwards.words(), "a seal cannot be taken back");
    let told = [
        (TransferCause::WriteZero, "the buffer took no more bytes"),
        (TransferCause::Overrun, "a call moved more bytes than it was asked to"),
        (TransferCause::OffsetRange, "the data does not fit a file offset"),
        (TransferCause::OutOfMemory, "out of memory"),
        (TransferCause::Sealed, "the buffer is sealed against writing"),
        (TransferCause::Unguarded, "the buffer is not sealed against shrinking"),
    ];
    for (cause, words) in told {
        assert_eq!(transfer(cause).fault(), None);
        assert_eq!(transfer(cause).words(), words);
    }
}
