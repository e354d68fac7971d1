//! The transfer engine: which call to make next, and what to make of
//! its answer.
//!
//! Four strategies can fill the buffer. Three are copy primitives of the
//! kernel, tried in a fixed order; the fourth reads the source into a
//! staging area and writes that to the buffer, and works wherever the
//! source can be read and the buffer written. The engine asks for one
//! call at a time, never for more than `rate` bytes, and is told what
//! the call reported.
//!
//! A primitive whose very first call reports that it does not serve the
//! descriptors at hand is given up for the next strategy. Once a
//! strategy has moved a byte the engine stays with it: a failure is
//! then the failure of the transfer. A call that reports zero bytes has
//! met the end of the source.

use crate::error::{Error, TransferCause, TransferError};
use crate::seal::{Mutation, SealedBuffer};
use crate::sys::{Fault, Reply};
use vstd::prelude::*;

verus! {

/// The rate that is used where none is configured.
pub const DEFAULT_RATE: usize = 4096;

/// The largest offset a descriptor can have.
pub const MAX_OFFSET: u64 = 0x7fff_ffff_ffff_ffff;

/// The most bytes that one call is asked to move. Never zero: a call
/// for zero bytes reports zero bytes, which would read as the end of the
/// source.
#[derive(Clone, Copy, Debug, PartialEq, Eq)]
pub struct TransferRate {
    bytes: usize,
}

impl TransferRate {
    /// The rate in bytes.
    pub closed spec fn spec_bytes(&self) -> usize {
        self.bytes
    }

    /// A rate is never zero.
    #[verifier::type_invariant]
    pub closed spec fn wf(&self) -> bool {
        self.bytes > 0
    }

    /// A rate of `bytes`, if that is not zero.
    pub fn new(bytes: usize) -> (rate: Option<TransferRate>)
        ensures
            bytes > 0 ==> rate is Some && rate->Some_0.wf() && rate->Some_0.spec_bytes() == bytes,
            bytes == 0 ==> rate is None,
    {
        if bytes > 0 {
            Some(TransferRate { bytes })
        } else {
            None
        }
    }

    /// A rate of `bytes`, or the default rate where `bytes` is zero.
    pub fn new_or_default(bytes: usize) -> (rate: TransferRate)
        ensures
            rate.wf(),
            rate.spec_bytes() == (if bytes > 0 {
                bytes
            } else {
                DEFAULT_RATE
            }),
    {
        if bytes > 0 {
            TransferRate { bytes }
        } else {
            TransferRate { bytes: DEFAULT_RATE }
        }
    }

    /// The rate in bytes.
    #[verifier::when_used_as_spec(spec_bytes)]
    pub fn bytes(&self) -> (bytes: usize)
        ensures
            bytes == self.spec_bytes(),
            bytes > 0,
    {
        proof {
            use_type_invariant(self);
        }
        self.bytes
    }
}

impl Default for TransferRate {
    /// The default rate.
    fn default() -> (rate: TransferRate)
        ensures
            rate.wf(),
            rate.spec_bytes() == DEFAULT_RATE,
    {
        TransferRate { bytes: DEFAULT_RATE }
    }
}

/// A way to move bytes from the source into the buffer.
#[derive(Clone, Copy, Debug, PartialEq, Eq, Structural)]
pub enum Strategy {
    /// Through a buffer inside the kernel. Reads the source where the
    /// kernel's own cursor stands and writes the buffer at a given offset.
    Splice,
    /// A copy of a byte range from descriptor to descriptor, with an
    /// offset given on both sides.
    RangeCopy,
    /// From a source that can be mapped, at a given offset, onto the
    /// buffer where the kernel's cursor stands.
    SendFile,
    /// Read into a staging area, write from it, flush at the end.
    Buffered,
}

impl Strategy {
    /// The place of the strategy in the order of trial.
    pub open spec fn spec_rank(self) -> nat {
        match self {
            Strategy::Splice => 0,
            Strategy::RangeCopy => 1,
            Strategy::SendFile => 2,
            Strategy::Buffered => 3,
        }
    }

    /// The strategy to try where this one does not serve; none after the
    /// last.
    pub open spec fn spec_fallback(self) -> Option<Strategy> {
        match self {
            Strategy::Splice => Some(Strategy::RangeCopy),
            Strategy::RangeCopy => Some(Strategy::SendFile),
            Strategy::SendFile => Some(Strategy::Buffered),
            Strategy::Buffered => None,
        }
    }

    /// Whether the strategy is one call into the kernel per step.
    pub open spec fn spec_in_kernel(self) -> bool {
        self != Strategy::Buffered
    }

    /// Whether the strategy names the place to read in the source, in
    /// place of the kernel's own cursor.
    pub open spec fn spec_seeks_source(self) -> bool {
        self == Strategy::RangeCopy || self == Strategy::SendFile
    }

    /// Whether the strategy names the place to write in the buffer, in
    /// place of the kernel's own cursor.
    pub open spec fn spec_seeks_buffer(self) -> bool {
        self == Strategy::Splice || self == Strategy::RangeCopy
    }

    /// The strategy that is tried first.
    pub fn first() -> (strategy: Strategy)
        ensures
            strategy == Strategy::Splice,
    {
        Strategy::Splice
    }

    /// The strategy to try where this one does not serve; none after the
    /// last.
    #[verifier::when_used_as_spec(spec_fallback)]
    pub fn fallback(self) -> (next: Option<Strategy>)
        ensures
            next == self.spec_fallback(),
    {
        match self {
            Strategy::Splice => Some(Strategy::RangeCopy),
            Strategy::RangeCopy => Some(Strategy::SendFile),
            Strategy::SendFile => Some(Strategy::Buffered),
            Strategy::Buffered => None,
        }
    }

    /// Whether the strategy is one call into the kernel per step.
    #[verifier::when_used_as_spec(spec_in_kernel)]
    pub fn in_kernel(self) -> (b: bool)
        ensures
            b == self.spec_in_kernel(),
    {
        !matches!(self, Strategy::Buffered)
    }

    /// Whether the strategy names the place to read in the source.
    #[verifier::when_used_as_spec(spec_seeks_source)]
    pub fn seeks_source(self) -> (b: bool)
        ensures
            b == self.spec_seeks_source(),
    {
        matches!(self, Strategy::RangeCopy | Strategy::SendFile)
    }

    /// Whether the strategy names the place to write in the buffer.
    #[verifier::when_used_as_spec(spec_seeks_buffer)]
    pub fn seeks_buffer(self) -> (b: bool)
        ensures
            b == self.spec_seeks_buffer(),
    {
        matches!(self, Strategy::Splice | Strategy::RangeCopy)
    }
}

/// The call that the engine asks for.
#[derive(Clone, Copy, Debug, PartialEq, Eq)]
pub enum Action {
    /// Call the copy primitive of `strategy` for up to `len` bytes. An
    /// offset that is given is where to read the source, or to write the
    /// buffer; where none is given, the kernel's cursor for that
    /// descriptor decides.
    Copy { strategy: Strategy, source_offset: Option<i64>, buffer_offset: Option<i64>, len: usize },
    /// Read up to `len` bytes from the source into the start of the
    /// staging area.
    Read { len: usize },
    /// Write the bytes of the staging area from index `from` up to, not
    /// including, `to` to the buffer.
    Write { from: usize, to: usize },
    /// Flush what was written to the buffer.
    Flush,
    /// Nothing more: the source is exhausted and the buffer holds it.
    Finish,
    /// Nothing more: the transfer has failed.
    Abort(TransferError),
}

/// Where the engine stands between two calls.
#[derive(Clone, Copy, Debug, PartialEq, Eq, Structural)]
pub enum Phase {
    /// The next call fetches bytes from the source: a copy primitive,
    /// or a read into the staging area.
    Fetching,
    /// The staging area holds bytes from `from` up to `to` that the
    /// buffer has not taken yet.
    Writing { from: usize, to: usize },
    /// The source is exhausted; what was written is to be flushed.
    Flushing,
    Finished,
    Failed(TransferError),
}

/// All that the engine knows.
#[derive(Clone, Copy, Debug, PartialEq, Eq, Structural)]
pub struct EngineState {
    /// The most bytes to ask of one call.
    pub rate: usize,
    /// The strategy at work.
    pub strategy: Strategy,
    /// The bytes that have reached the buffer.
    pub moved: u64,
    pub phase: Phase,
}

impl EngineState {
    /// The rate is not zero, the count fits an offset, and bytes wait
    /// in the staging area under the buffered strategy only, no more
    /// than a read can bring.
    pub open spec fn wf(self) -> bool {
        &&& self.rate > 0
        &&& self.moved <= MAX_OFFSET
        &&& match self.phase {
            Phase::Writing { from, to } => self.strategy == Strategy::Buffered && from < to
                <= self.rate,
            Phase::Flushing => self.strategy == Strategy::Buffered,
            _ => true,
        }
    }

    /// The engine before its first call.
    pub open spec fn start(rate: usize) -> EngineState {
        EngineState { rate, strategy: Strategy::Splice, moved: 0, phase: Phase::Fetching }
    }

    /// A strategy is committed to once it has moved a byte.
    pub open spec fn committed(self) -> bool {
        self.moved > 0
    }

    /// Whether the engine asks for nothing more.
    pub open spec fn halted(self) -> bool {
        self.phase is Finished || self.phase is Failed
    }

    /// The call to make in this state. An offset, where the strategy
    /// names one, is the count of bytes moved so far.
    pub open spec fn action(self) -> Action {
        match self.phase {
            Phase::Fetching => if self.strategy.spec_in_kernel() {
                Action::Copy {
                    strategy: self.strategy,
                    source_offset: if self.strategy.spec_seeks_source() {
                        Some(self.moved as i64)
                    } else {
                        None
                    },
                    buffer_offset: if self.strategy.spec_seeks_buffer() {
                        Some(self.moved as i64)
                    } else {
                        None
                    },
                    len: self.rate,
                }
            } else {
                Action::Read { len: self.rate }
            },
            Phase::Writing { from, to } => Action::Write { from, to },
            Phase::Flushing => Action::Flush,
            Phase::Finished => Action::Finish,
            Phase::Failed(error) => Action::Abort(error),
        }
    }

    /// This state, failed for `cause`.
    pub open spec fn failed(self, cause: TransferCause) -> EngineState {
        EngineState {
            phase: Phase::Failed(
                TransferError { strategy: self.strategy, moved: self.moved, cause },
            ),
            ..self
        }
    }

    /// This state in another phase.
    pub open spec fn in_phase(self, phase: Phase) -> EngineState {
        EngineState { phase, ..self }
    }

    /// This state with `count` more bytes in the buffer, failed where it
    /// was asked to count more than `limit` bytes or past the largest
    /// offset; then in `phase`.
    pub open spec fn counted(self, count: usize, limit: usize, phase: Phase) -> EngineState {
        if count > limit {
            self.failed(TransferCause::Overrun)
        } else if self.moved + count > MAX_OFFSET {
            self.failed(TransferCause::OffsetRange)
        } else {
            EngineState { moved: (self.moved + count) as u64, phase, ..self }
        }
    }

    /// After a copy primitive answered. Zero bytes end the transfer;
    /// more are counted. A fault that says "not for these descriptors",
    /// before anything was moved, brings on the next strategy; any other
    /// fault fails the transfer.
    pub open spec fn after_copy(self, reply: Reply) -> EngineState {
        match reply {
            Ok(count) => if count == 0 {
                self.in_phase(Phase::Finished)
            } else {
                self.counted(count, self.rate, Phase::Fetching)
            },
            Err(fault) => if !self.committed() && fault.spec_unsupported()
                && self.strategy.spec_fallback() is Some {
                EngineState { strategy: self.strategy.spec_fallback()->Some_0, ..self }
            } else {
                self.failed(TransferCause::Os(fault))
            },
        }
    }

    /// After a read into the staging area answered. Zero bytes are the
    /// end of the source: what was written is flushed. More bytes wait
    /// in the staging area to be written.
    pub open spec fn after_read(self, reply: Reply) -> EngineState {
        match reply {
            Ok(count) => if count == 0 {
                self.in_phase(Phase::Flushing)
            } else if count > self.rate {
                self.failed(TransferCause::Overrun)
            } else {
                self.in_phase(Phase::Writing { from: 0, to: count })
            },
            Err(fault) => self.failed(TransferCause::Os(fault)),
        }
    }

    /// After a write of the staging area from `from` to `to` answered.
    /// A buffer that took no byte will not take the rest either: the
    /// transfer fails. Bytes taken are counted; those not yet taken are
    /// offered again, and when none is left the next read follows.
    pub open spec fn after_write(self, from: usize, to: usize, reply: Reply) -> EngineState {
        match reply {
            Ok(count) => if count == 0 {
                self.failed(TransferCause::WriteZero)
            } else {
                self.counted(
                    count,
                    (to - from) as usize,
                    if from + count == to {
                        Phase::Fetching
                    } else {
                        Phase::Writing { from: (from + count) as usize, to }
                    },
                )
            },
            Err(fault) => self.failed(TransferCause::Os(fault)),
        }
    }

    /// After a flush answered.
    pub open spec fn after_flush(self, reply: Reply) -> EngineState {
        match reply {
            Ok(_) => self.in_phase(Phase::Finished),
            Err(fault) => self.failed(TransferCause::Os(fault)),
        }
    }

    /// The state after the call of `action()` reported `reply`. An
    /// engine that has halted stays as it is.
    pub open spec fn observe(self, reply: Reply) -> EngineState {
        match self.phase {
            Phase::Fetching => if self.strategy.spec_in_kernel() {
                self.after_copy(reply)
            } else {
                self.after_read(reply)
            },
            Phase::Writing { from, to } => self.after_write(from, to, reply),
            Phase::Flushing => self.after_flush(reply),
            Phase::Finished => self,
            Phase::Failed(_) => self,
        }
    }
}

/// Whether a transfer into a buffer can begin: the buffer must be
/// sealed against shrinking, and open to growing and writing.
pub open spec fn ready_to_fill(buffer: SealedBuffer) -> bool {
    &&& !buffer.spec_state().spec_permits(Mutation::Shrink)
    &&& buffer.spec_state().spec_permits(Mutation::Grow)
    &&& buffer.spec_state().spec_permits(Mutation::Write)
}

/// Why a transfer into `buffer` cannot begin, where it cannot.
pub open spec fn refusal(buffer: SealedBuffer) -> TransferCause {
    if buffer.spec_state().spec_permits(Mutation::Grow) && buffer.spec_state().spec_permits(
        Mutation::Write,
    ) {
        TransferCause::Unguarded
    } else {
        TransferCause::Sealed
    }
}

/// The transfer engine.
#[derive(Debug)]
pub struct TransferEngine {
    state: EngineState,
}

impl View for TransferEngine {
    type V = EngineState;

    /// All that the engine knows.
    closed spec fn view(&self) -> EngineState {
        self.state
    }
}

impl TransferEngine {
    /// The state of an engine is always well formed.
    #[verifier::type_invariant]
    pub closed spec fn wf(&self) -> bool {
        self.state.wf()
    }

    /// An engine for a transfer into `buffer`, at most `rate` bytes a
    /// call. The buffer must be ready: an attempt to fill a buffer that
    /// is sealed against growing or writing fails with the cause
    /// `Sealed`, one to fill a buffer that can still shrink with the
    /// cause `Unguarded`.
    pub fn start(buffer: &SealedBuffer, rate: TransferRate) -> (made: Result<TransferEngine, Error>)
        ensures
            ready_to_fill(*buffer) ==> made is Ok && made->Ok_0@ == EngineState::start(
                rate.spec_bytes(),
            ) && made->Ok_0@.wf(),
            !ready_to_fill(*buffer) ==> made == Err::<TransferEngine, Error>(
                Error::Transfer(
                    TransferError {
                        strategy: Strategy::Splice,
                        moved: 0,
                        cause: refusal(*buffer),
                    },
                ),
            ),
    {
        let open = buffer.permits(Mutation::Grow) && buffer.permits(Mutation::Write);
        if open && !buffer.permits(Mutation::Shrink) {
            Ok(TransferEngine { state: initial(rate) })
        } else {
            let cause = if open {
                TransferCause::Unguarded
            } else {
                TransferCause::Sealed
            };
            Err(Error::Transfer(TransferError { strategy: Strategy::Splice, moved: 0, cause }))
        }
    }

    /// All that the engine knows.
    pub fn state(&self) -> (state: EngineState)
        ensures
            state == self@,
            state.wf(),
    {
        proof {
            use_type_invariant(self);
        }
        self.state
    }

    /// The strategy at work.
    pub fn strategy(&self) -> (strategy: Strategy)
        ensures
            strategy == self@.strategy,
    {
        self.state.strategy
    }

    /// The bytes that have reached the buffer.
    pub fn moved(&self) -> (moved: u64)
        ensures
            moved == self@.moved,
    {
        self.state.moved
    }

    /// Whether the transfer has ended with the buffer holding the whole
    /// source.
    pub fn finished(&self) -> (b: bool)
        ensures
            b == (self@.phase is Finished),
    {
        matches!(self.state.phase, Phase::Finished)
    }

    /// The failure of the transfer, if it has failed.
    pub fn failure(&self) -> (error: Option<TransferError>)
        ensures
            error == (match self@.phase {
                Phase::Failed(e) => Some(e),
                _ => None,
            }),
    {
        match self.state.phase {
            Phase::Failed(e) => Some(e),
            _ => None,
        }
    }

    /// The call to make next.
    pub fn action(&self) -> (action: Action)
        ensures
            action == self@.action(),
    {
        proof {
            use_type_invariant(self);
        }
        prescribe(self.state)
    }

    /// Takes in what the call of `action()` reported.
    pub fn observe(&mut self, reply: Reply)
        ensures
            final(self)@ == old(self)@.observe(reply),
            final(self)@.wf(),
    {
        proof {
            use_type_invariant(&*self);
        }
        self.state = advance(self.state, reply);
    }
}

/// A staging area of `len` bytes: all of them zero.
pub open spec fn zeroed(len: usize) -> Seq<u8> {
    Seq::new(len as nat, |i: int| 0u8)
}

/// The failure of a transfer that found no memory for its staging
/// area: nothing was read, and nothing moved.
pub open spec fn no_memory() -> TransferError {
    TransferError { strategy: Strategy::Buffered, moved: 0, cause: TransferCause::OutOfMemory }
}

/// Whether memory for a staging area of `len` bytes can be asked for at
/// all: no allocation is larger than `isize::MAX` bytes.
pub open spec fn spec_reservable(len: usize) -> bool {
    len <= isize::MAX
}

/// Whether memory for a staging area of `len` bytes can be asked for at
/// all.
#[verifier::when_used_as_spec(spec_reservable)]
pub fn reservable(len: usize) -> (b: bool)
    ensures
        b == spec_reservable(len),
{
    len <= isize::MAX as usize
}

/// The staging area, once the memory for it was asked for. `room` is
/// the vector that the reservation was made on, and `reserved` tells
/// whether it was granted. Where it was, the area is `rate` bytes, all
/// zero, whatever `room` held; where it was not, the transfer has
/// failed before it moved a byte.
pub fn staging_from(room: Vec<u8>, reserved: bool, rate: TransferRate) -> (area: Result<
    Vec<u8>,
    TransferError,
>)
    ensures
        reserved ==> area is Ok && area->Ok_0@ == zeroed(rate.spec_bytes()),
        !reserved ==> area == Err::<Vec<u8>, TransferError>(no_memory()),
{
    if !reserved {
        return Err(
            TransferError {
                strategy: Strategy::Buffered,
                moved: 0,
                cause: TransferCause::OutOfMemory,
            },
        );
    }
    let len: usize = rate.bytes();
    let mut bytes: Vec<u8> = room;
    bytes.clear();
    while bytes.len() < len
        invariant
            bytes@.len() <= len,
            forall|i: int| 0 <= i < bytes@.len() ==> bytes@[i] == 0u8,
        decreases len - bytes@.len(),
    {
        bytes.push(0);
    }
    assert(bytes@ =~= zeroed(len));
    Ok(bytes)
}

/// A staging area for the buffered strategy: `rate` bytes, all zero.
/// A rate beyond what can be reserved at all fails the transfer at
/// once, before memory is asked for and before anything is read. For
/// any other rate the memory is asked for, and the outcome is that of
/// `staging_from`: the area where the memory was granted, the failure
/// of the transfer where it was not.
pub fn staging_area(rate: TransferRate) -> (area: Result<Vec<u8>, TransferError>)
    ensures
        !spec_reservable(rate.spec_bytes()) ==> area == Err::<Vec<u8>, TransferError>(no_memory()),
        area matches Ok(bytes) ==> bytes@ == zeroed(rate.spec_bytes()),
        area matches Err(error) ==> error == no_memory(),
{
    if !reservable(rate.bytes()) {
        return staging_from(Vec::new(), false, rate);
    }
    let mut room: Vec<u8> = Vec::new();
    let reserved = room.try_reserve(rate.bytes()).is_ok();
    staging_from(room, reserved, rate)
}

/// The call that `state` asks for.
pub(crate) fn prescribe(state: EngineState) -> (action: Action)
    requires
        state.wf(),
    ensures
        action == state.action(),
{
    match state.phase {
        Phase::Fetching => {
            if state.strategy.in_kernel() {
                let offset: i64 = state.moved as i64;
                Action::Copy {
                    strategy: state.strategy,
                    source_offset: if state.strategy.seeks_source() {
                        Some(offset)
                    } else {
                        None
                    },
                    buffer_offset: if state.strategy.seeks_buffer() {
                        Some(offset)
                    } else {
                        None
                    },
                    len: state.rate,
                }
            } else {
                Action::Read { len: state.rate }
            }
        },
        Phase::Writing { from, to } => Action::Write { from, to },
        Phase::Flushing => Action::Flush,
        Phase::Finished => Action::Finish,
        Phase::Failed(error) => Action::Abort(error),
    }
}

/// The state that follows `state` when its call reported `reply`.
pub(crate) fn advance(state: EngineState, reply: Reply) -> (next: EngineState)
    requires
        state.wf(),
    ensures
        next == state.observe(reply),
        next.wf(),
{
    match state.phase {
        Phase::Fetching => {
            if state.strategy.in_kernel() {
                after_copy(state, reply)
            } else {
                after_read(state, reply)
            }
        },
        Phase::Writing { from, to } => after_write(state, from, to, reply),
        Phase::Flushing => match reply {
            Ok(_) => EngineState { phase: Phase::Finished, ..state },
            Err(fault) => failed(state, TransferCause::Os(fault)),
        },
        Phase::Finished => state,
        Phase::Failed(_) => state,
    }
}

/// The state of an engine before its first call.
pub(crate) fn initial(rate: TransferRate) -> (state: EngineState)
    ensures
        state == EngineState::start(rate.spec_bytes()),
        state.wf(),
{
    EngineState { rate: rate.bytes(), strategy: Strategy::first(), moved: 0, phase: Phase::Fetching }
}

/// `state`, failed for `cause`.
fn failed(state: EngineState, cause: TransferCause) -> (next: EngineState)
    requires
        state.wf(),
    ensures
        next == state.failed(cause),
        next.wf(),
{
    EngineState {
        phase: Phase::Failed(TransferError { strategy: state.strategy, moved: state.moved, cause }),
        ..state
    }
}

/// `state` with `count` more bytes in the buffer and in `phase`, or
/// failed where the count is beyond `limit` or beyond what an offset
/// holds.
fn counted(state: EngineState, count: usize, limit: usize, phase: Phase) -> (next: EngineState)
    requires
        state.wf(),
        state.in_phase(phase).wf(),
    ensures
        next == state.counted(count, limit, phase),
        next.wf(),
{
    if count > limit {
        failed(state, TransferCause::Overrun)
    } else if count as u64 > MAX_OFFSET - state.moved {
        failed(state, TransferCause::OffsetRange)
    } else {
        EngineState { moved: state.moved + count as u64, phase, ..state }
    }
}

/// The state after a copy primitive answered.
fn after_copy(state: EngineState, reply: Reply) -> (next: EngineState)
    requires
        state.wf(),
        state.phase is Fetching,
    ensures
        next == state.after_copy(reply),
        next.wf(),
{
    match reply {
        Ok(count) => {
            if count == 0 {
                EngineState { phase: Phase::Finished, ..state }
            } else {
                counted(state, count, state.rate, Phase::Fetching)
            }
        },
        Err(fault) => {
            if state.moved == 0 && fault.unsupported() {
                match state.strategy.fallback() {
                    Some(next) => EngineState { strategy: next, ..state },
                    None => failed(state, TransferCause::Os(fault)),
                }
            } else {
                failed(state, TransferCause::Os(fault))
            }
        },
    }
}

/// The state after a read into the staging area answered.
fn after_read(state: EngineState, reply: Reply) -> (next: EngineState)
    requires
        state.wf(),
        state.phase is Fetching,
        state.strategy == Strategy::Buffered,
    ensures
        next == state.after_read(reply),
        next.wf(),
{
    match reply {
        Ok(count) => {
            if count == 0 {
                EngineState { phase: Phase::Flushing, ..state }
            } else if count > state.rate {
                failed(state, TransferCause::Overrun)
            } else {
                EngineState { phase: Phase::Writing { from: 0, to: count }, ..state }
            }
        },
        Err(fault) => failed(state, TransferCause::Os(fault)),
    }
}

/// The state after a write of the staging area from `from` to `to`
/// answered.
fn after_write(state: EngineState, from: usize, to: usize, reply: Reply) -> (next: EngineState)
    requires
        state.wf(),
        state.phase == (Phase::Writing { from, to }),
    ensures
        next == state.after_write(from, to, reply),
        next.wf(),
{
    match reply {
        Ok(count) => {
            if count == 0 {
                failed(state, TransferCause::WriteZero)
            } else if count >= to - from {
                counted(state, count, to - from, Phase::Fetching)
            } else {
                counted(state, count, to - from, Phase::Writing { from: from + count, to })
            }
        },
        Err(fault) => failed(state, TransferCause::Os(fault)),
    }
}

/// A primitive that reports, at its very first call, that it does not
/// serve the descriptors is followed by the next strategy in order, from
/// the start of the source; the last of the primitives by the buffered
/// strategy.
pub proof fn theorem_fallback_in_order(engine: EngineState, fault: Fault)
    requires
        engine.wf(),
        engine.phase is Fetching,
        engine.strategy.spec_in_kernel(),
        !engine.committed(),
        fault.spec_unsupported(),
    ensures
        ({
            let next = engine.observe(Err(fault));
            &&& engine.strategy.spec_fallback() == Some(next.strategy)
            &&& next.strategy.spec_rank() == engine.strategy.spec_rank() + 1
            &&& next.phase is Fetching
            &&& next.moved == 0
            &&& next.rate == engine.rate
            &&& next.strategy == Strategy::Buffered ==> next.action() == (Action::Read {
                len: engine.rate,
            })
            &&& next.strategy != Strategy::Buffered ==> (next.action() matches Action::Copy {
                strategy,
                len,
                ..
            } && strategy == next.strategy && len == engine.rate)
        }),
{
}

/// An engine whose three primitives are each refused at the first call
/// asks for a read of `rate` bytes: it has arrived at the buffered
/// strategy with nothing moved.
pub proof fn theorem_fallback_reaches_buffered(rate: usize, first: Fault, second: Fault, third: Fault)
    requires
        rate > 0,
        first.spec_unsupported(),
        second.spec_unsupported(),
        third.spec_unsupported(),
    ensures
        ({
            let engine = EngineState::start(rate).observe(Err(first)).observe(Err(second)).observe(
                Err(third),
            );
            &&& engine.strategy == Strategy::Buffered
            &&& engine.moved == 0
            &&& engine.action() == (Action::Read { len: rate })
        }),
{
}

/// Once a strategy has moved a byte, or where the fault is not a
/// refusal of the descriptors, or where no strategy is left, a fault
/// fails the transfer under the strategy at work: no other strategy is
/// tried.
pub proof fn theorem_committed_failure_is_final(engine: EngineState, fault: Fault)
    requires
        engine.wf(),
        !engine.halted(),
        engine.committed() || !fault.spec_unsupported() || !engine.strategy.spec_in_kernel(),
    ensures
        engine.observe(Err(fault)) == engine.failed(TransferCause::Os(fault)),
        engine.observe(Err(fault)).strategy == engine.strategy,
        engine.observe(Err(fault)).halted(),
{
}

/// The count of the bytes moved never goes back, and with it no offset
/// that the engine hands out: an offset is that count, and a call is
/// never asked for more than `rate` bytes.
pub proof fn lemma_offsets_follow_the_count(engine: EngineState, reply: Reply)
    requires
        engine.wf(),
    ensures
        engine.observe(reply).wf(),
        engine.observe(reply).rate == engine.rate,
        engine.observe(reply).moved >= engine.moved,
        engine.observe(reply).strategy.spec_rank() >= engine.strategy.spec_rank(),
        engine.observe(reply).moved - engine.moved <= engine.rate,
        match engine.action() {
            Action::Copy { source_offset, buffer_offset, len, .. } => {
                &&& len == engine.rate
                &&& source_offset matches Some(at) ==> at == engine.moved
                &&& buffer_offset matches Some(at) ==> at == engine.moved
            },
            Action::Read { len } => len == engine.rate,
            Action::Write { from, to } => from < to <= engine.rate,
            _ => true,
        },
{
}

/// A transfer ends when a call reports that nothing is left: a copy
/// primitive that moves no byte finishes the transfer at once, and a
/// read of no byte finishes it after the flush.
pub proof fn lemma_zero_bytes_end_the_transfer(engine: EngineState, flushed: usize)
    requires
        engine.wf(),
        engine.phase is Fetching,
    ensures
        engine.strategy.spec_in_kernel() ==> engine.observe(Ok(0)).phase is Finished,
        !engine.strategy.spec_in_kernel() ==> engine.observe(Ok(0)).action() == Action::Flush
            && engine.observe(Ok(0)).observe(Ok(flushed)).phase is Finished,
        engine.observe(Ok(0)).moved == engine.moved,
{
}

} // verus!
