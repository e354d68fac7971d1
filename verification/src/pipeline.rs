//! The whole run, one call at a time.
//!
//! A run goes through five stages, in this order and no other: the
//! buffer is `Created`; sealed against shrinking it is `ShrinkGuarded`,
//! and only then is it written; when the source is exhausted it is
//! `Filled`; sealed for good it is `Finalized`; and when it has taken
//! the place of standard input and the program image is replaced, the
//! run is `HandedOff`. The pipeline names the call to make, takes in
//! what it reported, and stops at the first failure.

use crate::error::{Error, HandoffError};
use crate::handoff::STANDARD_INPUT;
use crate::seal::{SealState, SealedBuffer};
use crate::sys::{Fault, Reply};
use crate::transfer::{advance, initial, prescribe, Action, EngineState, Phase, TransferRate};
use vstd::prelude::*;

verus! {

/// How far a run has come.
#[derive(Clone, Copy, Debug, PartialEq, Eq, Structural)]
pub enum Stage {
    /// The buffer exists, empty and without a seal.
    Created,
    /// The buffer cannot shrink any more; it is being filled.
    ShrinkGuarded,
    /// The buffer holds the whole source.
    Filled,
    /// The buffer can no longer change.
    Finalized,
    /// The buffer is the standard input of the program that has taken
    /// over.
    HandedOff,
}

impl Stage {
    /// The place of the stage in the order of the run.
    pub open spec fn spec_rank(self) -> nat {
        match self {
            Stage::Created => 0,
            Stage::ShrinkGuarded => 1,
            Stage::Filled => 2,
            Stage::Finalized => 3,
            Stage::HandedOff => 4,
        }
    }
}

/// The call that the pipeline asks for.
#[derive(Clone, Copy, Debug, PartialEq, Eq)]
pub enum Step {
    /// Ask the kernel to add `seals` to the buffer.
    AddSeals { descriptor: i32, seals: u32 },
    /// A call of the transfer.
    Transfer(Action),
    /// Duplicate the buffer's descriptor onto `onto`.
    Redirect { descriptor: i32, onto: i32 },
    /// Replace the program image.
    Launch,
    /// Nothing more: the run is handed off.
    Done,
    /// Nothing more: the run has failed.
    Stop(Error),
}

/// All that the pipeline knows.
#[derive(Clone, Copy, Debug, PartialEq, Eq)]
pub struct PipelineState {
    pub stage: Stage,
    /// The descriptor of the buffer.
    pub descriptor: i32,
    /// How far the buffer is sealed.
    pub seal: SealState,
    /// The engine of the transfer.
    pub engine: EngineState,
    /// Whether the buffer has taken the place of standard input.
    pub redirected: bool,
    /// The failure that stopped the run, if one did.
    pub failure: Option<Error>,
}

impl PipelineState {
    /// The seals follow the stage, the transfer is over from `Filled`
    /// on, and nothing is written before the buffer is guarded.
    pub open spec fn wf(self) -> bool {
        &&& self.descriptor >= 0
        &&& self.engine.wf()
        &&& self.redirected ==> self.stage.spec_rank() >= Stage::Finalized.spec_rank()
        &&& self.seal == match self.stage {
            Stage::Created => SealState::Mutable,
            Stage::ShrinkGuarded => SealState::ShrinkSealed,
            Stage::Filled => SealState::ShrinkSealed,
            Stage::Finalized => SealState::Immutable,
            Stage::HandedOff => SealState::Immutable,
        }
        &&& self.stage == Stage::Created ==> self.engine == EngineState::start(self.engine.rate)
        &&& self.stage == Stage::ShrinkGuarded && self.failure is None ==> !self.engine.halted()
        &&& self.stage == Stage::ShrinkGuarded && self.failure is Some
            ==> !(self.engine.phase is Finished)
        &&& self.stage.spec_rank() >= Stage::Filled.spec_rank() ==> self.engine.phase is Finished
        &&& self.stage == Stage::HandedOff ==> self.redirected && self.failure is None
    }

    /// A run at its start, with the buffer `descriptor`.
    pub open spec fn created(descriptor: i32, rate: usize) -> PipelineState {
        PipelineState {
            stage: Stage::Created,
            descriptor,
            seal: SealState::Mutable,
            engine: EngineState::start(rate),
            redirected: false,
            failure: None,
        }
    }

    /// Whether the pipeline asks for nothing more.
    pub open spec fn halted(self) -> bool {
        self.failure is Some || self.stage == Stage::HandedOff
    }

    /// The call to make in this state.
    pub open spec fn step(self) -> Step {
        match self.failure {
            Some(error) => Step::Stop(error),
            None => match self.stage {
                Stage::Created => Step::AddSeals {
                    descriptor: self.descriptor,
                    seals: self.seal.spec_missing(SealState::ShrinkSealed),
                },
                Stage::ShrinkGuarded => Step::Transfer(self.engine.action()),
                Stage::Filled => Step::AddSeals {
                    descriptor: self.descriptor,
                    seals: self.seal.spec_missing(SealState::Immutable),
                },
                Stage::Finalized => if self.redirected {
                    Step::Launch
                } else {
                    Step::Redirect { descriptor: self.descriptor, onto: STANDARD_INPUT }
                },
                Stage::HandedOff => Step::Done,
            },
        }
    }

    /// This state, stopped by `error`.
    pub open spec fn stopped(self, error: Error) -> PipelineState {
        PipelineState { failure: Some(error), ..self }
    }

    /// After the kernel answered a request for the seals of `target`:
    /// the next stage if it agreed, the end of the run if not.
    pub open spec fn after_seal(self, target: SealState, next: Stage, reply: Reply) -> PipelineState {
        match self.seal.seal_result(target, reply) {
            Ok(_) => PipelineState { seal: self.seal.sealed(target, reply), stage: next, ..self },
            Err(error) => self.stopped(error),
        }
    }

    /// After a call of the transfer answered: the engine takes it in.
    /// The buffer is `Filled` when the engine has finished, and the run
    /// ends when the engine has failed.
    pub open spec fn after_transfer(self, reply: Reply) -> PipelineState {
        let engine = self.engine.observe(reply);
        match engine.phase {
            Phase::Finished => PipelineState { engine, stage: Stage::Filled, ..self },
            Phase::Failed(error) => PipelineState {
                engine,
                failure: Some(Error::Transfer(error)),
                ..self
            },
            _ => PipelineState { engine, ..self },
        }
    }

    /// After the call that puts the buffer in the place of standard
    /// input answered.
    pub open spec fn after_redirect(self, reply: Reply) -> PipelineState {
        match reply {
            Ok(_) => PipelineState { redirected: true, ..self },
            Err(fault) => self.stopped(Error::Handoff(HandoffError::Redirect(fault))),
        }
    }

    /// After the launch answered. An answer other than a fault comes
    /// from a stand-in only: a real launch that succeeds does not
    /// answer.
    pub open spec fn after_launch(self, reply: Reply) -> PipelineState {
        match reply {
            Ok(_) => PipelineState { stage: Stage::HandedOff, ..self },
            Err(fault) => self.stopped(Error::Handoff(HandoffError::Launch(fault))),
        }
    }

    /// The state after the call of `step()` reported `reply`. A
    /// pipeline that has halted stays as it is.
    pub open spec fn observe(self, reply: Reply) -> PipelineState {
        if self.failure is Some {
            self
        } else {
            match self.stage {
                Stage::Created => self.after_seal(
                    SealState::ShrinkSealed,
                    Stage::ShrinkGuarded,
                    reply,
                ),
                Stage::ShrinkGuarded => self.after_transfer(reply),
                Stage::Filled => self.after_seal(SealState::Immutable, Stage::Finalized, reply),
                Stage::Finalized => if self.redirected {
                    self.after_launch(reply)
                } else {
                    self.after_redirect(reply)
                },
                Stage::HandedOff => self,
            }
        }
    }
}

/// The pipeline of one run.
#[derive(Debug)]
pub struct Pipeline {
    state: PipelineState,
}

impl View for Pipeline {
    type V = PipelineState;

    /// All that the pipeline knows.
    closed spec fn view(&self) -> PipelineState {
        self.state
    }
}

impl Pipeline {
    /// The state of a pipeline is always well formed.
    #[verifier::type_invariant]
    pub closed spec fn wf(&self) -> bool {
        self.state.wf()
    }

    /// Begins a run with the buffer that the kernel made. `descriptor`
    /// is what the creating call returned: a value below zero means
    /// that no buffer came to be, and `fault` says why.
    pub fn new(descriptor: i32, fault: Fault, rate: TransferRate) -> (made: Result<Pipeline, Error>)
        ensures
            descriptor >= 0 ==> made is Ok && made->Ok_0@ == PipelineState::created(
                descriptor,
                rate.spec_bytes(),
            ) && made->Ok_0@.wf(),
            descriptor < 0 ==> made == Err::<Pipeline, Error>(Error::Allocation(fault)),
    {
        if descriptor >= 0 {
            Ok(
                Pipeline {
                    state: PipelineState {
                        stage: Stage::Created,
                        descriptor,
                        seal: SealState::Mutable,
                        engine: initial(rate),
                        redirected: false,
                        failure: None,
                    },
                },
            )
        } else {
            Err(Error::Allocation(fault))
        }
    }

    /// All that the pipeline knows.
    pub fn state(&self) -> (state: PipelineState)
        ensures
            state == self@,
            state.wf(),
    {
        proof {
            use_type_invariant(self);
        }
        self.state
    }

    /// How far the run has come.
    pub fn stage(&self) -> (stage: Stage)
        ensures
            stage == self@.stage,
    {
        self.state.stage
    }

    /// The buffer, as far as it is sealed now.
    pub fn buffer(&self) -> (buffer: SealedBuffer)
        ensures
            buffer.wf(),
            buffer.spec_descriptor() == self@.descriptor,
            buffer.spec_state() == self@.seal,
    {
        proof {
            use_type_invariant(self);
        }
        SealedBuffer::adopt(self.state.descriptor, self.state.seal)
    }

    /// The bytes that have reached the buffer.
    pub fn moved(&self) -> (moved: u64)
        ensures
            moved == self@.engine.moved,
    {
        self.state.engine.moved
    }

    /// The failure that stopped the run, if one did.
    pub fn failure(&self) -> (failure: Option<Error>)
        ensures
            failure == self@.failure,
    {
        self.state.failure
    }

    /// The call to make next.
    pub fn step(&self) -> (step: Step)
        ensures
            step == self@.step(),
    {
        proof {
            use_type_invariant(self);
        }
        let state = self.state;
        match state.failure {
            Some(error) => Step::Stop(error),
            None => match state.stage {
                Stage::Created => Step::AddSeals {
                    descriptor: state.descriptor,
                    seals: state.seal.missing(SealState::ShrinkSealed),
                },
                Stage::ShrinkGuarded => Step::Transfer(prescribe(state.engine)),
                Stage::Filled => Step::AddSeals {
                    descriptor: state.descriptor,
                    seals: state.seal.missing(SealState::Immutable),
                },
                Stage::Finalized => {
                    if state.redirected {
                        Step::Launch
                    } else {
                        Step::Redirect { descriptor: state.descriptor, onto: STANDARD_INPUT }
                    }
                },
                Stage::HandedOff => Step::Done,
            },
        }
    }

    /// Takes in what the call of `step()` reported.
    pub fn observe(&mut self, reply: Reply)
        ensures
            final(self)@ == old(self)@.observe(reply),
            final(self)@.wf(),
    {
        proof {
            use_type_invariant(&*self);
        }
        let state = self.state;
        let next = match state.failure {
            Some(_) => state,
            None => match state.stage {
                Stage::Created => after_seal(
                    state,
                    SealState::ShrinkSealed,
                    Stage::ShrinkGuarded,
                    reply,
                ),
                Stage::ShrinkGuarded => {
                    let engine = advance(state.engine, reply);
                    match engine.phase {
                        Phase::Finished => PipelineState { engine, stage: Stage::Filled, ..state },
                        Phase::Failed(error) => PipelineState {
                            engine,
                            failure: Some(Error::Transfer(error)),
                            ..state
                        },
                        _ => PipelineState { engine, ..state },
                    }
                },
                Stage::Filled => after_seal(state, SealState::Immutable, Stage::Finalized, reply),
                Stage::Finalized => match reply {
                    Ok(_) => {
                        if state.redirected {
                            PipelineState { stage: Stage::HandedOff, ..state }
                        } else {
                            PipelineState { redirected: true, ..state }
                        }
                    },
                    Err(fault) => {
                        let error = if state.redirected {
                            HandoffError::Launch(fault)
                        } else {
                            HandoffError::Redirect(fault)
                        };
                        PipelineState { failure: Some(Error::Handoff(error)), ..state }
                    },
                },
                Stage::HandedOff => state,
            },
        };
        self.state = next;
    }
}

/// The state after the kernel answered a request for the seals of
/// `target`.
fn after_seal(state: PipelineState, target: SealState, next: Stage, reply: Reply) -> (then:
    PipelineState)
    ensures
        then == state.after_seal(target, next, reply),
{
    let (seal, done) = state.seal.advance(target, reply);
    match done {
        Ok(_) => PipelineState { seal, stage: next, ..state },
        Err(error) => PipelineState { failure: Some(error), ..state },
    }
}

/// A step never takes the run back, and never over a stage: the stage
/// stays or the next one is entered.
pub proof fn lemma_stages_in_order(state: PipelineState, reply: Reply)
    requires
        state.wf(),
    ensures
        state.observe(reply).wf(),
        state.observe(reply).stage == state.stage || state.observe(reply).stage.spec_rank()
            == state.stage.spec_rank() + 1,
        state.observe(reply).descriptor == state.descriptor,
        state.observe(reply).seal.spec_reaches(state.seal),
        state.observe(reply).engine.moved >= state.engine.moved,
{
}

/// Nothing is written to a buffer that can still shrink or that is
/// sealed for good: a call of the transfer is asked for in the stage
/// `ShrinkGuarded` only, of a buffer that is `ShrinkSealed`, and it is
/// never one that ends the transfer.
pub proof fn lemma_writes_are_guarded(state: PipelineState)
    requires
        state.wf(),
        state.step() is Transfer,
    ensures
        state.stage == Stage::ShrinkGuarded,
        state.seal == SealState::ShrinkSealed,
        !(state.step()->Transfer_0 is Finish),
        !(state.step()->Transfer_0 is Abort),
{
}

/// The final seal is asked for only after the transfer has finished:
/// a request for seals beyond the shrink seal comes in the stage
/// `Filled`, when the engine has met the end of the source.
pub proof fn lemma_final_seal_follows_transfer(state: PipelineState)
    requires
        state.wf(),
        state.step() matches Step::AddSeals { seals, .. } && seals != crate::seal::SEAL_SHRINK,
    ensures
        state.stage == Stage::Filled,
        state.engine.phase is Finished,
        state.step() == (Step::AddSeals { descriptor: state.descriptor, seals: 12 }),
{
    crate::seal::lemma_seal_values();
}

/// The buffer is handed off only when it is `Immutable` and holds the
/// whole source; the launch comes after the redirection, and it is the
/// buffer's own descriptor that is put in the place of standard input.
pub proof fn lemma_handoff_is_sealed(state: PipelineState)
    requires
        state.wf(),
        state.step() is Redirect || state.step() is Launch || state.step() is Done,
    ensures
        state.seal == SealState::Immutable,
        state.engine.phase is Finished,
        state.step() is Launch || state.step() is Done ==> state.redirected,
        state.step() is Redirect ==> state.step() == (Step::Redirect {
            descriptor: state.descriptor,
            onto: 0,
        }),
{
}

/// A run in which no call fails, on a source that the first call of
/// the transfer finds empty, takes five calls: the shrink seal, the
/// copy that reports no bytes, the final seal, the redirection and the
/// launch.
pub proof fn lemma_empty_source_run(descriptor: i32, rate: usize, launched: usize)
    requires
        descriptor >= 0,
        rate > 0,
    ensures
        ({
            let start = PipelineState::created(descriptor, rate);
            let end = start.observe(Ok(0)).observe(Ok(0)).observe(Ok(0)).observe(Ok(0)).observe(
                Ok(launched),
            );
            &&& end.stage == Stage::HandedOff
            &&& end.seal == SealState::Immutable
            &&& end.engine.moved == 0
            &&& end.failure is None
            &&& end.step() == Step::Done
        }),
{
}

} // verus!
