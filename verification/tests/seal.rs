use sealed_stdin::error::Error;
use sealed_stdin::seal::{
    creation_flags, Mutation, SealState, SealedBuffer, CREATE_ALLOW_SEALING, CREATE_CLOEXEC,
    SEAL_GROW, SEAL_SHRINK, SEAL_WRITE,
};
use sealed_stdin::sys::{Fault, FaultKind};

const STATES: [SealState; 3] = [SealState::Mutable, SealState::ShrinkSealed, SealState::Immutable];

const MUTATIONS: [Mutation; 3] = [Mutation::Shrink, Mutation::Grow, Mutation::Write];

fn fault(code: i32) -> Fault {
    Fault { kind: FaultKind::Other, code }
}

fn buffer_in(state: SealState) -> SealedBuffer {
    let mut buffer = SealedBuffer::create(5, fault(0)).unwrap();
    buffer.transition(state, Ok(0)).unwrap();
    assert_eq!(buffer.state(), state);
    buffer
}

#[test]
fn creation_flags_are_cloexec_and_sealing() {
    assert_eq!(creation_flags(), 3);
    assert_eq!(creation_flags(), CREATE_CLOEXEC | CREATE_ALLOW_SEALING);
}

#[test]
fn the_seals_have_the_values_of_the_system() {
    assert_eq!(Mutation::Shrink.seal(), 0x0002);
    assert_eq!(Mutation::Grow.seal(), 0x0004);
    assert_eq!(Mutation::Write.seal(), 0x0008);
    assert_eq!((SEAL_SHRINK, SEAL_GROW, SEAL_WRITE), (2, 4, 8));
}

#[test]
fn seals_of_each_state() {
    assert_eq!(SealState::Mutable.seals(), 0);
    assert_eq!(SealState::ShrinkSealed.seals(), 0x0002);
    assert_eq!(SealState::Immutable.seals(), 0x0002 | 0x0004 | 0x0008);
}

#[test]
fn the_seals_to_add_are_those_not_held() {
    assert_eq!(SealState::Mutable.missing(SealState::ShrinkSealed), 0x0002);
    assert_eq!(SealState::Mutable.missing(SealState::Immutable), 0x000e);
    assert_eq!(SealState::ShrinkSealed.missing(SealState::Immutable), 0x000c);
    for held in STATES {
        for target in STATES {
            if held.reaches(target) {
                assert_eq!(held.missing(target), 0);
            }
        }
    }
}

#[test]
fn the_states_are_in_order() {
    assert!(SealState::Mutable.reaches(SealState::Mutable));
    assert!(!SealState::Mutable.reaches(SealState::ShrinkSealed));
    assert!(!SealState::Mutable.reaches(SealState::Immutable));
    assert!(SealState::ShrinkSealed.reaches(SealState::Mutable));
    assert!(SealState::ShrinkSealed.reaches(SealState::ShrinkSealed));
    assert!(!SealState::ShrinkSealed.reaches(SealState::Immutable));
    for target in STATES {
        assert!(SealState::Immutable.reaches(target));
    }
}

#[test]
fn what_each_state_permits() {
    for mutation in MUTATIONS {
        assert!(SealState::Mutable.permits(mutation));
        assert!(!SealState::Immutable.permits(mutation));
    }
    assert!(!SealState::ShrinkSealed.permits(Mutation::Shrink));
    assert!(SealState::ShrinkSealed.permits(Mutation::Grow));
    assert!(SealState::ShrinkSealed.permits(Mutation::Write));
}

#[test]
fn a_new_buffer_is_mutable() {
    let buffer = SealedBuffer::create(0, fault(0)).unwrap();
    assert_eq!(buffer.descriptor(), 0);
    assert_eq!(buffer.state(), SealState::Mutable);
    for mutation in MUTATIONS {
        assert!(buffer.permits(mutation));
    }
    let other = SealedBuffer::create(i32::MAX, fault(0)).unwrap();
    assert_eq!(other.descriptor(), i32::MAX);
}

#[test]
fn a_buffer_that_the_kernel_did_not_make_is_an_allocation_error() {
    assert_eq!(SealedBuffer::create(-1, fault(24)), Err(Error::Allocation(fault(24))));
    assert_eq!(SealedBuffer::create(i32::MIN, fault(12)), Err(Error::Allocation(fault(12))));
}

#[test]
fn shrink_seal_applied_twice_is_idempotent() {
    let mut buffer = SealedBuffer::create(5, fault(0)).unwrap();
    assert_eq!(buffer.seals_to_add(SealState::ShrinkSealed), 2);
    assert_eq!(buffer.apply_shrink_seal(Ok(0)), Ok(()));
    assert_eq!(buffer.state(), SealState::ShrinkSealed);
    assert_eq!(buffer.seals_to_add(SealState::ShrinkSealed), 0);
    assert_eq!(buffer.apply_shrink_seal(Ok(0)), Ok(()));
    assert_eq!(buffer.state(), SealState::ShrinkSealed);
    assert_eq!(buffer.apply_shrink_seal(Err(fault(1))), Ok(()));
    assert_eq!(buffer.state(), SealState::ShrinkSealed);
    assert_eq!(buffer.descriptor(), 5);
}

#[test]
fn a_refused_seal_is_a_seal_error_and_changes_nothing() {
    let mut buffer = SealedBuffer::create(5, fault(0)).unwrap();
    assert_eq!(buffer.apply_shrink_seal(Err(fault(1))), Err(Error::Seal(fault(1))));
    assert_eq!(buffer.state(), SealState::Mutable);
    assert_eq!(buffer.apply_final_seal(Err(fault(22))), Err(Error::Seal(fault(22))));
    assert_eq!(buffer.state(), SealState::Mutable);
    assert_eq!(buffer.apply_shrink_seal(Ok(0)), Ok(()));
    assert_eq!(buffer.apply_final_seal(Err(fault(16))), Err(Error::Seal(fault(16))));
    assert_eq!(buffer.state(), SealState::ShrinkSealed);
}

#[test]
fn the_final_seal_makes_the_buffer_immutable() {
    let mut buffer = buffer_in(SealState::ShrinkSealed);
    assert_eq!(buffer.seals_to_add(SealState::Immutable), 0x0004 | 0x0008);
    assert_eq!(buffer.apply_final_seal(Ok(0)), Ok(()));
    assert_eq!(buffer.state(), SealState::Immutable);
    for mutation in MUTATIONS {
        assert!(!buffer.permits(mutation));
    }
    assert_eq!(buffer.apply_final_seal(Err(fault(1))), Ok(()));
    assert_eq!(buffer.apply_shrink_seal(Err(fault(1))), Ok(()));
    assert_eq!(buffer.state(), SealState::Immutable);
}

#[test]
fn the_final_seal_may_come_first_and_takes_the_shrink_seal_along() {
    let mut buffer = SealedBuffer::create(5, fault(0)).unwrap();
    assert_eq!(buffer.seals_to_add(SealState::Immutable), 0x0002 | 0x0004 | 0x0008);
    assert_eq!(buffer.apply_final_seal(Ok(0)), Ok(()));
    assert_eq!(buffer.state(), SealState::Immutable);
    assert!(!buffer.permits(Mutation::Shrink));
}

#[test]
fn a_move_backwards_is_an_invalid_state() {
    for held in STATES {
        for target in STATES {
            let mut buffer = buffer_in(held);
            let done = buffer.transition(target, Ok(0));
            if held.reaches(target) && held != target {
                assert_eq!(done, Err(Error::InvalidState { held, requested: target }));
                assert_eq!(buffer.state(), held);
            } else {
                assert_eq!(done, Ok(()));
                assert_eq!(buffer.state(), target);
            }
        }
    }
}

#[test]
fn seals_never_come_off() {
    let verdicts = [Ok(0), Err(fault(1))];
    for held in STATES {
        for target in STATES {
            for verdict in verdicts {
                let (after, _) = held.advance(target, verdict);
                assert!(after.reaches(held));
                assert_eq!(held.seals() & !after.seals(), 0);
                for mutation in MUTATIONS {
                    if !held.permits(mutation) {
                        assert!(!after.permits(mutation));
                    }
                }
            }
        }
    }
}

#[test]
fn advance_tells_state_and_outcome() {
    assert_eq!(
        SealState::Mutable.advance(SealState::ShrinkSealed, Ok(0)),
        (SealState::ShrinkSealed, Ok(()))
    );
    assert_eq!(
        SealState::Mutable.advance(SealState::ShrinkSealed, Err(fault(1))),
        (SealState::Mutable, Err(Error::Seal(fault(1))))
    );
    assert_eq!(
        SealState::Immutable.advance(SealState::ShrinkSealed, Err(fault(1))),
        (SealState::Immutable, Ok(()))
    );
}
