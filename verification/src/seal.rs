//! The buffer and the seals that narrow what may be done to it.
//!
//! A buffer starts `Mutable`. The shrink seal makes it `ShrinkSealed`:
//! from then on nobody who holds the descriptor can cut it short. The
//! final seal makes it `Immutable`: it can neither grow nor be written.
//! Seals are never lifted, so the state only moves forward.
//!
//! The kernel keeps the seals. This module keeps the state that follows
//! from the seals the kernel has accepted, says which seals to ask for,
//! and reads the kernel's verdict.

use crate::error::Error;
use crate::sys::{Fault, Reply};
use vstd::prelude::*;

verus! {

/// The seal against shrinking.
pub const SEAL_SHRINK: u32 = 0x0002;

/// The seal against growing.
pub const SEAL_GROW: u32 = 0x0004;

/// The seal against writing.
pub const SEAL_WRITE: u32 = 0x0008;

/// Buffer creation flag: the descriptor is closed when the program
/// image is replaced. Its duplicate in the place of standard input is
/// not.
pub const CREATE_CLOEXEC: u32 = 0x0001;

/// Buffer creation flag: the buffer accepts seals.
pub const CREATE_ALLOW_SEALING: u32 = 0x0002;

/// Reads the constant `libc::F_SEAL_SHRINK`. Taken on trust: that it is
/// 0x0002, as the crate defines it for every target that has seals.
#[verifier::external_body]
fn libc_seal_shrink() -> (bits: u32)
    ensures
        bits == 0x0002u32,
{
    libc::F_SEAL_SHRINK as u32
}

/// Reads the constant `libc::F_SEAL_GROW`. Taken on trust: that it is
/// 0x0004, as the crate defines it for every target that has seals.
#[verifier::external_body]
fn libc_seal_grow() -> (bits: u32)
    ensures
        bits == 0x0004u32,
{
    libc::F_SEAL_GROW as u32
}

/// Reads the constant `libc::F_SEAL_WRITE`. Taken on trust: that it is
/// 0x0008, as the crate defines it for every target that has seals.
#[verifier::external_body]
fn libc_seal_write() -> (bits: u32)
    ensures
        bits == 0x0008u32,
{
    libc::F_SEAL_WRITE as u32
}

/// Reads the constant `libc::MFD_CLOEXEC`. Taken on trust: that it is
/// 0x0001, as the crate defines it for every target that has it.
#[verifier::external_body]
fn libc_mfd_cloexec() -> (bits: u32)
    ensures
        bits == 0x0001u32,
{
    libc::MFD_CLOEXEC
}

/// Reads the constant `libc::MFD_ALLOW_SEALING`. Taken on trust: that
/// it is 0x0002, as the crate defines it for every target that has it.
#[verifier::external_body]
fn libc_mfd_allow_sealing() -> (bits: u32)
    ensures
        bits == 0x0002u32,
{
    libc::MFD_ALLOW_SEALING
}

/// The flags with which the buffer is to be created: its descriptor
/// does not outlive the program image, and it accepts seals.
pub fn creation_flags() -> (flags: u32)
    ensures
        flags == CREATE_CLOEXEC | CREATE_ALLOW_SEALING,
        flags == 3,
{
    let flags: u32 = libc_mfd_cloexec() | libc_mfd_allow_sealing();
    assert(0x0001u32 | 0x0002u32 == 3u32) by (bit_vector);
    flags
}

/// A change to the buffer that a seal can forbid.
#[derive(Clone, Copy, Debug, PartialEq, Eq, Structural)]
pub enum Mutation {
    Shrink,
    Grow,
    Write,
}

impl Mutation {
    /// The seal that forbids this mutation.
    pub open spec fn spec_seal(self) -> u32 {
        match self {
            Mutation::Shrink => SEAL_SHRINK,
            Mutation::Grow => SEAL_GROW,
            Mutation::Write => SEAL_WRITE,
        }
    }

    /// The seal that forbids this mutation.
    #[verifier::when_used_as_spec(spec_seal)]
    pub fn seal(self) -> (bits: u32)
        ensures
            bits == self.spec_seal(),
    {
        match self {
            Mutation::Shrink => libc_seal_shrink(),
            Mutation::Grow => libc_seal_grow(),
            Mutation::Write => libc_seal_write(),
        }
    }
}

/// How far a buffer has been sealed.
#[derive(Clone, Copy, Debug, PartialEq, Eq, Structural)]
pub enum SealState {
    /// No seal: the buffer can shrink, grow and be written.
    Mutable,
    /// Sealed against shrinking.
    ShrinkSealed,
    /// Sealed against shrinking, growing and writing.
    Immutable,
}

impl SealState {
    /// The place of the state in the order `Mutable`, `ShrinkSealed`,
    /// `Immutable`.
    pub open spec fn spec_rank(self) -> nat {
        match self {
            SealState::Mutable => 0,
            SealState::ShrinkSealed => 1,
            SealState::Immutable => 2,
        }
    }

    /// The seals that a buffer in this state carries.
    pub open spec fn spec_seals(self) -> u32 {
        match self {
            SealState::Mutable => 0,
            SealState::ShrinkSealed => SEAL_SHRINK,
            SealState::Immutable => SEAL_SHRINK | SEAL_GROW | SEAL_WRITE,
        }
    }

    /// Whether this state is `target` or lies beyond it.
    pub open spec fn spec_reaches(self, target: SealState) -> bool {
        self.spec_rank() >= target.spec_rank()
    }

    /// Whether the seals of this state leave `mutation` open.
    pub open spec fn spec_permits(self, mutation: Mutation) -> bool {
        self.spec_seals() & mutation.spec_seal() == 0
    }

    /// The seals that the kernel has to add to a buffer in this state
    /// for it to reach `target`: those of `target` that are not held.
    pub open spec fn spec_missing(self, target: SealState) -> u32 {
        target.spec_seals() & !self.spec_seals()
    }

    /// The state after `target` was asked for and the kernel, where it
    /// had a seal to add, gave `verdict`. A state at or beyond `target`
    /// stays; otherwise the state is `target` if the kernel agreed.
    pub open spec fn sealed(self, target: SealState, verdict: Reply) -> SealState {
        if !self.spec_reaches(target) && verdict is Ok {
            target
        } else {
            self
        }
    }

    /// What the request for `target` comes to: a success where nothing
    /// was to add or the kernel agreed, the kernel's refusal otherwise.
    pub open spec fn seal_result(self, target: SealState, verdict: Reply) -> Result<(), Error> {
        if self.spec_reaches(target) {
            Ok(())
        } else {
            match verdict {
                Ok(_) => Ok(()),
                Err(fault) => Err(Error::Seal(fault)),
            }
        }
    }

    /// What an exact move to `target` comes to: a move to a state behind
    /// the one held is refused, whatever the kernel said.
    pub open spec fn move_result(self, target: SealState, verdict: Reply) -> Result<(), Error> {
        if target.spec_rank() < self.spec_rank() {
            Err(Error::InvalidState { held: self, requested: target })
        } else {
            self.seal_result(target, verdict)
        }
    }

    /// The seals that a buffer in this state carries.
    #[verifier::when_used_as_spec(spec_seals)]
    pub fn seals(self) -> (bits: u32)
        ensures
            bits == self.spec_seals(),
    {
        match self {
            SealState::Mutable => 0,
            SealState::ShrinkSealed => libc_seal_shrink(),
            SealState::Immutable => libc_seal_shrink() | libc_seal_grow() | libc_seal_write(),
        }
    }

    /// Whether this state is `target` or lies beyond it.
    #[verifier::when_used_as_spec(spec_reaches)]
    pub fn reaches(self, target: SealState) -> (b: bool)
        ensures
            b == self.spec_reaches(target),
    {
        match target {
            SealState::Mutable => true,
            SealState::ShrinkSealed => !matches!(self, SealState::Mutable),
            SealState::Immutable => matches!(self, SealState::Immutable),
        }
    }

    /// Whether the seals of this state leave `mutation` open.
    #[verifier::when_used_as_spec(spec_permits)]
    pub fn permits(self, mutation: Mutation) -> (b: bool)
        ensures
            b == self.spec_permits(mutation),
    {
        self.seals() & mutation.seal() == 0
    }

    /// The seals to ask the kernel for so that a buffer in this state
    /// reaches `target`; 0 where it is there already, or beyond.
    #[verifier::when_used_as_spec(spec_missing)]
    pub fn missing(self, target: SealState) -> (bits: u32)
        ensures
            bits == self.spec_missing(target),
    {
        target.seals() & !self.seals()
    }

    /// Seals towards `target`. `verdict` is the kernel's answer to the
    /// request to add `missing(target)`; where nothing is missing it is
    /// not looked at. Gives the state that follows, and whether the
    /// request came through.
    pub fn advance(self, target: SealState, verdict: Reply) -> (out: (SealState, Result<(), Error>))
        ensures
            out.0 == self.sealed(target, verdict),
            out.1 == self.seal_result(target, verdict),
    {
        if self.reaches(target) {
            (self, Ok(()))
        } else {
            match verdict {
                Ok(_) => (target, Ok(())),
                Err(fault) => (self, Err(Error::Seal(fault))),
            }
        }
    }
}

/// The anonymous buffer: its descriptor and how far it is sealed.
#[derive(Debug, PartialEq, Eq)]
pub struct SealedBuffer {
    descriptor: i32,
    state: SealState,
}

impl SealedBuffer {
    /// The descriptor of the buffer.
    pub closed spec fn spec_descriptor(&self) -> i32 {
        self.descriptor
    }

    /// How far the buffer is sealed.
    pub closed spec fn spec_state(&self) -> SealState {
        self.state
    }

    /// A descriptor is never negative.
    #[verifier::type_invariant]
    pub closed spec fn wf(&self) -> bool {
        self.descriptor >= 0
    }

    /// Takes up the buffer that the kernel made. `descriptor` is what
    /// the creating call returned: a value below zero means that no
    /// buffer came to be, and `fault` says why. A new buffer is
    /// `Mutable`.
    pub fn create(descriptor: i32, fault: Fault) -> (made: Result<SealedBuffer, Error>)
        ensures
            descriptor >= 0 ==> made is Ok && made->Ok_0.wf() && made->Ok_0.spec_descriptor()
                == descriptor && made->Ok_0.spec_state() == SealState::Mutable,
            descriptor < 0 ==> made == Err::<SealedBuffer, Error>(Error::Allocation(fault)),
    {
        if descriptor >= 0 {
            Ok(SealedBuffer { descriptor, state: SealState::Mutable })
        } else {
            Err(Error::Allocation(fault))
        }
    }

    /// The descriptor of the buffer.
    #[verifier::when_used_as_spec(spec_descriptor)]
    pub fn descriptor(&self) -> (d: i32)
        ensures
            d == self.spec_descriptor(),
            d >= 0,
    {
        proof {
            use_type_invariant(self);
        }
        self.descriptor
    }

    /// How far the buffer is sealed.
    #[verifier::when_used_as_spec(spec_state)]
    pub fn state(&self) -> (s: SealState)
        ensures
            s == self.spec_state(),
    {
        self.state
    }

    /// Whether the seals held leave `mutation` open.
    pub fn permits(&self, mutation: Mutation) -> (b: bool)
        ensures
            b == self.spec_state().spec_permits(mutation),
    {
        self.state.permits(mutation)
    }

    /// The seals to hand to the kernel so that the buffer reaches
    /// `target`; 0 where it is there already, or beyond.
    pub fn seals_to_add(&self, target: SealState) -> (bits: u32)
        ensures
            bits == self.spec_state().spec_missing(target),
    {
        self.state.missing(target)
    }

    /// Seals the buffer against shrinking. `verdict` is the kernel's
    /// answer to the request to add `seals_to_add(ShrinkSealed)`. A
    /// buffer that is sealed that far already stays as it is, and the
    /// verdict is not looked at.
    pub fn apply_shrink_seal(&mut self, verdict: Reply) -> (done: Result<(), Error>)
        ensures
            final(self).wf(),
            final(self).spec_descriptor() == old(self).spec_descriptor(),
            final(self).spec_state() == old(self).spec_state().sealed(
                SealState::ShrinkSealed,
                verdict,
            ),
            done == old(self).spec_state().seal_result(SealState::ShrinkSealed, verdict),
    {
        self.seal_to(SealState::ShrinkSealed, verdict)
    }

    /// Seals the buffer for good: it can no longer shrink, grow or be
    /// written. `verdict` is the kernel's answer to the request to add
    /// `seals_to_add(Immutable)`. An `Immutable` buffer stays as it is,
    /// and the verdict is not looked at.
    pub fn apply_final_seal(&mut self, verdict: Reply) -> (done: Result<(), Error>)
        ensures
            final(self).wf(),
            final(self).spec_descriptor() == old(self).spec_descriptor(),
            final(self).spec_state() == old(self).spec_state().sealed(SealState::Immutable, verdict),
            done == old(self).spec_state().seal_result(SealState::Immutable, verdict),
    {
        self.seal_to(SealState::Immutable, verdict)
    }

    /// Moves the buffer to exactly `target`. A target behind the state
    /// held would lift a seal: that is refused with `InvalidState`, and
    /// the buffer stays as it is. Any other target is sealed towards
    /// as by the two operations above.
    pub fn transition(&mut self, target: SealState, verdict: Reply) -> (done: Result<(), Error>)
        ensures
            final(self).wf(),
            final(self).spec_descriptor() == old(self).spec_descriptor(),
            final(self).spec_state() == old(self).spec_state().sealed(target, verdict),
            done == old(self).spec_state().move_result(target, verdict),
    {
        proof {
            use_type_invariant(&*self);
        }
        if self.state.reaches(target) && !target.reaches(self.state) {
            Err(Error::InvalidState { held: self.state, requested: target })
        } else {
            self.seal_to(target, verdict)
        }
    }

    /// Seals the buffer towards `target`.
    fn seal_to(&mut self, target: SealState, verdict: Reply) -> (done: Result<(), Error>)
        ensures
            final(self).wf(),
            final(self).spec_descriptor() == old(self).spec_descriptor(),
            final(self).spec_state() == old(self).spec_state().sealed(target, verdict),
            done == old(self).spec_state().seal_result(target, verdict),
    {
        proof {
            use_type_invariant(&*self);
        }
        let (state, done) = self.state.advance(target, verdict);
        self.state = state;
        done
    }

    /// The buffer of a descriptor that is known to be in `state`.
    pub(crate) fn adopt(descriptor: i32, state: SealState) -> (buffer: SealedBuffer)
        requires
            descriptor >= 0,
        ensures
            buffer.wf(),
            buffer.spec_descriptor() == descriptor,
            buffer.spec_state() == state,
    {
        SealedBuffer { descriptor, state }
    }
}

/// The seals of each state, and what is missing between two states, in
/// numbers.
pub proof fn lemma_seal_values()
    ensures
        SealState::Mutable.spec_seals() == 0,
        SealState::ShrinkSealed.spec_seals() == 2,
        SealState::Immutable.spec_seals() == 14,
        SealState::Mutable.spec_missing(SealState::ShrinkSealed) == 2,
        SealState::Mutable.spec_missing(SealState::Immutable) == 14,
        SealState::ShrinkSealed.spec_missing(SealState::Immutable) == 12,
        forall|held: SealState, target: SealState|
            held.spec_reaches(target) ==> #[trigger] held.spec_missing(target) == 0,
{
    assert(0x0002u32 | 0x0004u32 | 0x0008u32 == 14u32) by (bit_vector);
    assert(2u32 & !0u32 == 2u32) by (bit_vector);
    assert(14u32 & !0u32 == 14u32) by (bit_vector);
    assert(14u32 & !2u32 == 12u32) by (bit_vector);
    assert(0u32 & !0u32 == 0u32) by (bit_vector);
    assert(0u32 & !2u32 == 0u32) by (bit_vector);
    assert(0u32 & !14u32 == 0u32) by (bit_vector);
    assert(2u32 & !2u32 == 0u32) by (bit_vector);
    assert(2u32 & !14u32 == 0u32) by (bit_vector);
    assert(14u32 & !14u32 == 0u32) by (bit_vector);
}

/// What each state leaves open: a `Mutable` buffer everything, a
/// `ShrinkSealed` one growing and writing, an `Immutable` one nothing.
pub proof fn lemma_permissions()
    ensures
        forall|mutation: Mutation| #[trigger] SealState::Mutable.spec_permits(mutation),
        !SealState::ShrinkSealed.spec_permits(Mutation::Shrink),
        SealState::ShrinkSealed.spec_permits(Mutation::Grow),
        SealState::ShrinkSealed.spec_permits(Mutation::Write),
        forall|mutation: Mutation| !#[trigger] SealState::Immutable.spec_permits(mutation),
{
    lemma_seal_values();
    assert(0u32 & 2u32 == 0u32) by (bit_vector);
    assert(0u32 & 4u32 == 0u32) by (bit_vector);
    assert(0u32 & 8u32 == 0u32) by (bit_vector);
    assert(2u32 & 2u32 != 0u32) by (bit_vector);
    assert(2u32 & 4u32 == 0u32) by (bit_vector);
    assert(2u32 & 8u32 == 0u32) by (bit_vector);
    assert(14u32 & 2u32 != 0u32) by (bit_vector);
    assert(14u32 & 4u32 != 0u32) by (bit_vector);
    assert(14u32 & 8u32 != 0u32) by (bit_vector);
    assert forall|mutation: Mutation| #[trigger] SealState::Mutable.spec_permits(mutation) by {
        match mutation {
            Mutation::Shrink => {},
            Mutation::Grow => {},
            Mutation::Write => {},
        }
    }
    assert forall|mutation: Mutation| !#[trigger] SealState::Immutable.spec_permits(mutation) by {
        match mutation {
            Mutation::Shrink => {},
            Mutation::Grow => {},
            Mutation::Write => {},
        }
    }
}

/// Seals only accumulate. Whatever state is asked for and whatever the
/// kernel answers, the buffer does not fall back in the order of the
/// states, it keeps every seal it had, and a mutation that was
/// forbidden before stays forbidden.
pub proof fn lemma_seals_accumulate(
    held: SealState,
    target: SealState,
    verdict: Reply,
    mutation: Mutation,
)
    ensures
        held.sealed(target, verdict).spec_reaches(held),
        held.spec_seals() & !held.sealed(target, verdict).spec_seals() == 0,
        !held.spec_permits(mutation) ==> !held.sealed(target, verdict).spec_permits(mutation),
{
    lemma_seal_values();
    lemma_permissions();
    let after = held.sealed(target, verdict);
    assert(after.spec_missing(held) == 0);
}

/// Once a buffer is `Immutable`, growing and writing stay forbidden,
/// and once it is `ShrinkSealed` or `Immutable`, shrinking stays
/// forbidden, through every later request for a seal.
pub proof fn lemma_sealed_for_good(held: SealState, target: SealState, verdict: Reply)
    ensures
        held == SealState::Immutable ==> {
            let after = held.sealed(target, verdict);
            after == SealState::Immutable && !after.spec_permits(Mutation::Grow)
                && !after.spec_permits(Mutation::Write)
        },
        held.spec_reaches(SealState::ShrinkSealed) ==> {
            let after = held.sealed(target, verdict);
            after.spec_reaches(SealState::ShrinkSealed) && !after.spec_permits(Mutation::Shrink)
        },
{
    lemma_permissions();
    lemma_seals_accumulate(held, target, verdict, Mutation::Shrink);
}

/// A seal that is held can be asked for again: the request succeeds,
/// whatever the kernel would have said, and changes nothing.
pub proof fn lemma_reapplying_is_noop(held: SealState, target: SealState, verdict: Reply)
    requires
        held.spec_reaches(target),
    ensures
        held.sealed(target, verdict) == held,
        held.seal_result(target, verdict) == Ok::<(), Error>(()),
        held.spec_missing(target) == 0,
{
    lemma_seal_values();
}

/// Sealing against shrinking twice in a row: if the kernel accepts the
/// first request, the buffer is `ShrinkSealed` after it, and the second
/// request succeeds and leaves it `ShrinkSealed`, whatever verdict it is
/// handed.
pub proof fn lemma_shrink_seal_twice(first: Reply, second: Reply)
    requires
        first is Ok,
    ensures
        ({
            let once = SealState::Mutable.sealed(SealState::ShrinkSealed, first);
            let twice = once.sealed(SealState::ShrinkSealed, second);
            &&& once == SealState::ShrinkSealed
            &&& twice == SealState::ShrinkSealed
            &&& SealState::Mutable.seal_result(SealState::ShrinkSealed, first) == Ok::<(), Error>(())
            &&& once.seal_result(SealState::ShrinkSealed, second) == Ok::<(), Error>(())
        }),
{
}

} // verus!
