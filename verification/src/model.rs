//! What the kernel holds for a source and a buffer, and the proof that
//! an engine served by such a kernel fills the buffer with the source.
//!
//! The engine sees counts only. Whether the counts it keeps and the
//! offsets it hands out are the right ones shows against a picture of
//! the other side: the bytes of the source, the bytes of the buffer, the
//! cursor that the kernel keeps for each, and the staging area. The
//! picture says what each call does to them, as the manual pages of
//! the calls describe it. Nothing here runs.

use crate::pipeline::{lemma_stages_in_order, PipelineState, Stage, Step};
use crate::seal::SealState;
use crate::sys::{Fault, Reply};
use crate::transfer::{Action, EngineState, Phase, Strategy, MAX_OFFSET};
use vstd::prelude::*;

verus! {

/// A source, a buffer, and what lies between them.
pub struct Pair {
    /// Every byte of the source, from its start.
    pub source: Seq<u8>,
    /// The kernel's cursor for the source: how many of its bytes were
    /// read without an offset.
    pub source_cursor: int,
    /// The bytes in the buffer.
    pub buffer: Seq<u8>,
    /// The kernel's cursor for the buffer.
    pub buffer_cursor: int,
    /// The staging area of the buffered strategy.
    pub staging: Seq<u8>,
}

/// `data` laid over `buffer` from index `at` on. The buffer grows where
/// the data ends behind it; a gap between the two reads as zeros.
pub open spec fn overlay(buffer: Seq<u8>, at: int, data: Seq<u8>) -> Seq<u8> {
    Seq::new(
        if buffer.len() >= at + data.len() {
            buffer.len()
        } else {
            (at + data.len()) as nat
        },
        |i: int|
            if at <= i < at + data.len() {
                data[i - at]
            } else if i < buffer.len() {
                buffer[i]
            } else {
                0u8
            },
    )
}

impl Pair {
    /// The pair before the first call: nothing read, an empty buffer.
    pub open spec fn fresh(source: Seq<u8>, staging: Seq<u8>) -> Pair {
        Pair { source, source_cursor: 0, buffer: Seq::empty(), buffer_cursor: 0, staging }
    }

    /// Where `action` reads the source: at the offset it names, else at
    /// the kernel's cursor.
    pub open spec fn read_at(self, action: Action) -> int {
        match action {
            Action::Copy { source_offset: Some(offset), .. } => offset as int,
            _ => self.source_cursor,
        }
    }

    /// Where `action` writes the buffer: at the offset it names, else at
    /// the kernel's cursor.
    pub open spec fn write_at(self, action: Action) -> int {
        match action {
            Action::Copy { buffer_offset: Some(offset), .. } => offset as int,
            _ => self.buffer_cursor,
        }
    }

    /// The bytes that the source holds from index `at` on.
    pub open spec fn left(self, at: int) -> int {
        if 0 <= at <= self.source.len() {
            self.source.len() - at
        } else {
            0
        }
    }

    /// Whether a fetch of up to `len` bytes at `at` may report `count`:
    /// no more than asked for, no more than the source has, and nothing
    /// only where nothing is asked for or nothing is left.
    pub open spec fn fetches(self, at: int, len: usize, count: usize) -> bool {
        &&& count <= len
        &&& count <= self.left(at)
        &&& count == 0 ==> len == 0 || self.left(at) == 0
    }

    /// Whether the kernel may answer `action` with `reply`. It may
    /// always fail a call.
    pub open spec fn admits(self, action: Action, reply: Reply) -> bool {
        match reply {
            Err(_) => true,
            Ok(count) => match action {
                Action::Copy { len, .. } => self.fetches(self.read_at(action), len, count),
                Action::Read { len } => len <= self.staging.len() && self.fetches(
                    self.source_cursor,
                    len,
                    count,
                ),
                Action::Write { from, to } => from <= to <= self.staging.len() && count <= to
                    - from,
                _ => true,
            },
        }
    }

    /// The pair after `action` was answered with `reply`. A call that
    /// failed has changed nothing. A call with an offset leaves the
    /// cursor of that descriptor where it was.
    pub open spec fn after(self, action: Action, reply: Reply) -> Pair {
        match reply {
            Err(_) => self,
            Ok(count) => match action {
                Action::Copy { source_offset, buffer_offset, .. } => {
                    let from = self.read_at(action);
                    Pair {
                        buffer: overlay(
                            self.buffer,
                            self.write_at(action),
                            self.source.subrange(from, from + count),
                        ),
                        source_cursor: if source_offset is None {
                            self.source_cursor + count
                        } else {
                            self.source_cursor
                        },
                        buffer_cursor: if buffer_offset is None {
                            self.buffer_cursor + count
                        } else {
                            self.buffer_cursor
                        },
                        ..self
                    }
                },
                Action::Read { .. } => Pair {
                    staging: self.source.subrange(self.source_cursor, self.source_cursor + count)
                        + self.staging.skip(count as int),
                    source_cursor: self.source_cursor + count,
                    ..self
                },
                Action::Write { from, .. } => Pair {
                    buffer: overlay(
                        self.buffer,
                        self.buffer_cursor,
                        self.staging.subrange(from as int, from + count),
                    ),
                    buffer_cursor: self.buffer_cursor + count,
                    ..self
                },
                _ => self,
            },
        }
    }
}

/// What holds between an engine and the pair it works on, from the
/// first call to the last: the buffer is the source as far as the engine
/// has counted, and the cursors that the strategy at work relies on
/// stand at that count. Of an engine that has failed nothing is said.
pub open spec fn in_step(engine: EngineState, pair: Pair) -> bool {
    &&& engine.wf()
    &&& engine.phase is Failed || {
        &&& engine.moved <= pair.source.len()
        &&& pair.buffer == pair.source.take(engine.moved as int)
        &&& pair.source_cursor <= pair.source.len()
        &&& pair.staging.len() >= engine.rate
        &&& !engine.committed() && engine.strategy.spec_in_kernel() ==> pair.source_cursor == 0
            && pair.buffer_cursor == 0
        &&& engine.strategy == Strategy::Splice ==> pair.source_cursor == engine.moved
        &&& engine.strategy == Strategy::SendFile ==> pair.buffer_cursor == engine.moved
        &&& engine.strategy == Strategy::Buffered ==> pair.buffer_cursor == engine.moved
            && match engine.phase {
            Phase::Writing { from, to } => {
                &&& pair.source_cursor == engine.moved + (to - from)
                &&& pair.staging.subrange(from as int, to as int) == pair.source.subrange(
                    engine.moved as int,
                    engine.moved + (to - from),
                )
            },
            _ => pair.source_cursor == engine.moved,
        }
        &&& engine.phase is Finished || engine.phase is Flushing ==> engine.moved
            == pair.source.len()
    }
}

/// The engine and the pair after the calls that were answered with
/// `replies`, one after the other.
pub open spec fn run(engine: EngineState, pair: Pair, replies: Seq<Reply>) -> (EngineState, Pair)
    decreases replies.len(),
{
    if replies.len() == 0 {
        (engine, pair)
    } else {
        run(
            engine.observe(replies[0]),
            pair.after(engine.action(), replies[0]),
            replies.skip(1),
        )
    }
}

/// Whether each of `replies` is one that the kernel may give to the
/// call it answers.
pub open spec fn faithful(engine: EngineState, pair: Pair, replies: Seq<Reply>) -> bool
    decreases replies.len(),
{
    replies.len() == 0 || {
        &&& pair.admits(engine.action(), replies[0])
        &&& faithful(
            engine.observe(replies[0]),
            pair.after(engine.action(), replies[0]),
            replies.skip(1),
        )
    }
}

/// An engine that starts on a fresh pair is in step with it.
pub proof fn lemma_start_in_step(rate: usize, source: Seq<u8>, staging: Seq<u8>)
    requires
        rate > 0,
        staging.len() >= rate,
    ensures
        in_step(EngineState::start(rate), Pair::fresh(source, staging)),
{
    assert(Seq::<u8>::empty() =~= source.take(0));
}

/// Bytes of the source laid over its own beginning, where that ends,
/// make a longer beginning.
proof fn lemma_overlay_appends(source: Seq<u8>, moved: int, count: int)
    requires
        0 <= moved,
        0 <= count,
        moved + count <= source.len(),
    ensures
        overlay(source.take(moved), moved, source.subrange(moved, moved + count)) == source.take(
            moved + count,
        ),
{
    assert(overlay(source.take(moved), moved, source.subrange(moved, moved + count))
        =~= source.take(moved + count));
}

/// One call keeps the engine and the pair in step, whatever the kernel
/// answers within what it may.
pub proof fn lemma_step_in_step(engine: EngineState, pair: Pair, reply: Reply)
    requires
        in_step(engine, pair),
        pair.admits(engine.action(), reply),
    ensures
        in_step(engine.observe(reply), pair.after(engine.action(), reply)),
{
    let action = engine.action();
    let next = engine.observe(reply);
    let then = pair.after(action, reply);
    let moved = engine.moved as int;
    match reply {
        Err(_) => {},
        Ok(count) => if !(engine.phase is Failed) && !(next.phase is Failed) {
            match engine.phase {
                Phase::Fetching => {
                    if engine.strategy.spec_in_kernel() {
                        assert(pair.read_at(action) == moved);
                        assert(pair.write_at(action) == moved);
                        lemma_overlay_appends(pair.source, moved, count as int);
                    } else if count > 0 {
                        assert(then.staging.subrange(0, count as int) =~= pair.source.subrange(
                            moved,
                            moved + count,
                        ));
                    }
                },
                Phase::Writing { from, to } => {
                    let waiting = pair.staging.subrange(from as int, to as int);
                    assert(pair.staging.subrange(from as int, from + count) =~= waiting.take(
                        count as int,
                    ));
                    assert(waiting.take(count as int) =~= pair.source.subrange(
                        moved,
                        moved + count,
                    ));
                    lemma_overlay_appends(pair.source, moved, count as int);
                    if from + count < to {
                        assert(pair.staging.subrange(from + count, to as int) =~= waiting.skip(
                            count as int,
                        ));
                        assert(waiting.skip(count as int) =~= pair.source.subrange(
                            moved + count,
                            moved + count + (to - (from + count)),
                        ));
                    }
                },
                _ => {},
            }
        },
    }
}

/// A finished engine that is in step with its pair has filled the
/// buffer with the source: every byte, in order, and nothing else.
pub proof fn lemma_finished_exact(engine: EngineState, pair: Pair)
    requires
        in_step(engine, pair),
        engine.phase is Finished,
    ensures
        pair.buffer == pair.source,
        engine.moved == pair.source.len(),
{
    assert(pair.source.take(pair.source.len() as int) =~= pair.source);
}

/// A run keeps the engine and the pair in step, and leaves the source
/// as it is.
pub proof fn lemma_run_in_step(engine: EngineState, pair: Pair, replies: Seq<Reply>)
    requires
        in_step(engine, pair),
        faithful(engine, pair, replies),
    ensures
        in_step(run(engine, pair, replies).0, run(engine, pair, replies).1),
        run(engine, pair, replies).1.source == pair.source,
    decreases replies.len(),
{
    if replies.len() > 0 {
        lemma_step_in_step(engine, pair, replies[0]);
        lemma_run_in_step(
            engine.observe(replies[0]),
            pair.after(engine.action(), replies[0]),
            replies.skip(1),
        );
    }
}

/// Nothing changes once the engine has halted.
pub proof fn lemma_halted_run(engine: EngineState, pair: Pair, replies: Seq<Reply>)
    requires
        engine.halted(),
    ensures
        run(engine, pair, replies) == (engine, pair),
    decreases replies.len(),
{
    if replies.len() > 0 {
        lemma_halted_run(engine, pair, replies.skip(1));
    }
}

/// For a source of any bytes, a rate of any size and a kernel that
/// answers in any way it may: if the engine ends up finished, the
/// buffer holds exactly the bytes of the source, in order, whichever
/// strategy moved them.
pub proof fn theorem_buffer_holds_source(
    rate: usize,
    source: Seq<u8>,
    staging: Seq<u8>,
    replies: Seq<Reply>,
)
    requires
        rate > 0,
        staging.len() >= rate,
        faithful(EngineState::start(rate), Pair::fresh(source, staging), replies),
    ensures
        ({
            let (engine, pair) = run(
                EngineState::start(rate),
                Pair::fresh(source, staging),
                replies,
            );
            engine.phase is Finished ==> pair.buffer == source && engine.moved == source.len()
        }),
{
    let engine = EngineState::start(rate);
    let pair = Pair::fresh(source, staging);
    lemma_start_in_step(rate, source, staging);
    lemma_run_in_step(engine, pair, replies);
    let end = run(engine, pair, replies);
    if end.0.phase is Finished {
        lemma_finished_exact(end.0, end.1);
    }
}

/// How far a buffered transfer is from its end, in calls at most: two
/// for each byte that the buffer still lacks, and those that are due
/// in any case.
pub open spec fn distance(engine: EngineState, pair: Pair) -> nat {
    let lacking = (pair.source.len() - engine.moved) as nat;
    match engine.phase {
        Phase::Fetching => 2 * lacking + 3,
        Phase::Writing { .. } => 2 * lacking + 2,
        Phase::Flushing => 1,
        _ => 0,
    }
}

/// Whether each of `replies` reports bytes: no call fails, and no write
/// takes nothing.
pub open spec fn cooperative(engine: EngineState, pair: Pair, replies: Seq<Reply>) -> bool
    decreases replies.len(),
{
    replies.len() == 0 || {
        &&& replies[0] is Ok
        &&& engine.phase is Writing ==> replies[0]->Ok_0 > 0
        &&& cooperative(
            engine.observe(replies[0]),
            pair.after(engine.action(), replies[0]),
            replies.skip(1),
        )
    }
}

/// The buffered strategy fails on a fault, on a write that takes
/// nothing, and on nothing else that a kernel may answer, as long as the
/// source is no longer than an offset can count.
pub proof fn theorem_buffered_serves(engine: EngineState, pair: Pair, count: usize)
    requires
        in_step(engine, pair),
        engine.strategy == Strategy::Buffered,
        !engine.halted(),
        pair.admits(engine.action(), Ok(count)),
        engine.phase is Writing ==> count > 0,
        pair.source.len() <= MAX_OFFSET,
    ensures
        !(engine.observe(Ok(count)).phase is Failed),
{
}

/// Each call of the buffered strategy that does not fail brings the
/// transfer nearer to its end.
pub proof fn theorem_buffered_advances(engine: EngineState, pair: Pair, count: usize)
    requires
        in_step(engine, pair),
        engine.strategy == Strategy::Buffered,
        !engine.halted(),
        pair.admits(engine.action(), Ok(count)),
        !(engine.observe(Ok(count)).phase is Failed),
    ensures
        distance(engine.observe(Ok(count)), pair.after(engine.action(), Ok(count))) < distance(
            engine,
            pair,
        ),
        distance(engine, pair) <= 2 * pair.source.len() + 3,
{
    lemma_step_in_step(engine, pair, Ok(count));
}

/// The buffered strategy serves every source that can be read into
/// every buffer that can be written: where no call fails and every
/// write takes a byte at least, a source of `n` bytes is in the buffer,
/// and the transfer finished, after `2 * n + 3` calls at most.
pub proof fn theorem_buffered_completes(engine: EngineState, pair: Pair, replies: Seq<Reply>)
    requires
        in_step(engine, pair),
        engine.strategy == Strategy::Buffered,
        !(engine.phase is Failed),
        pair.source.len() <= MAX_OFFSET,
        faithful(engine, pair, replies),
        cooperative(engine, pair, replies),
        replies.len() >= distance(engine, pair),
    ensures
        run(engine, pair, replies).0.phase is Finished,
        run(engine, pair, replies).0.strategy == Strategy::Buffered,
        run(engine, pair, replies).1.buffer == pair.source,
        distance(engine, pair) <= 2 * pair.source.len() + 3,
    decreases replies.len(),
{
    if engine.phase is Finished {
        lemma_halted_run(engine, pair, replies);
        lemma_finished_exact(engine, pair);
    } else {
        let reply = replies[0];
        let count = reply->Ok_0;
        assert(reply == Ok::<usize, Fault>(count));
        theorem_buffered_serves(engine, pair, count);
        theorem_buffered_advances(engine, pair, count);
        lemma_step_in_step(engine, pair, reply);
        theorem_buffered_completes(
            engine.observe(reply),
            pair.after(engine.action(), reply),
            replies.skip(1),
        );
    }
}

/// A source whose descriptors all three primitives refuse is moved all
/// the same: the engine arrives at the buffered strategy, and where no
/// call fails from there on, the buffer holds every byte of the source,
/// in order, after `2 * n + 3` more calls at most.
pub proof fn theorem_refused_primitives_end_in_parity(
    rate: usize,
    source: Seq<u8>,
    staging: Seq<u8>,
    refusals: (Fault, Fault, Fault),
    replies: Seq<Reply>,
)
    requires
        rate > 0,
        staging.len() >= rate,
        source.len() <= MAX_OFFSET,
        refusals.0.spec_unsupported(),
        refusals.1.spec_unsupported(),
        refusals.2.spec_unsupported(),
        replies.len() >= 2 * source.len() + 3,
        ({
            let engine = EngineState::start(rate).observe(Err(refusals.0)).observe(
                Err(refusals.1),
            ).observe(Err(refusals.2));
            let pair = Pair::fresh(source, staging);
            faithful(engine, pair, replies) && cooperative(engine, pair, replies)
        }),
    ensures
        ({
            let engine = EngineState::start(rate).observe(Err(refusals.0)).observe(
                Err(refusals.1),
            ).observe(Err(refusals.2));
            let end = run(engine, Pair::fresh(source, staging), replies);
            &&& end.0.phase is Finished
            &&& end.0.strategy == Strategy::Buffered
            &&& end.0.moved == source.len()
            &&& end.1.buffer == source
        }),
{
    let pair = Pair::fresh(source, staging);
    let first = EngineState::start(rate);
    let second = first.observe(Err(refusals.0));
    let third = second.observe(Err(refusals.1));
    let engine = third.observe(Err(refusals.2));
    lemma_start_in_step(rate, source, staging);
    lemma_step_in_step(first, pair, Err(refusals.0));
    lemma_step_in_step(second, pair, Err(refusals.1));
    lemma_step_in_step(third, pair, Err(refusals.2));
    theorem_buffered_completes(engine, pair, replies);
    lemma_run_in_step(engine, pair, replies);
    lemma_finished_exact(run(engine, pair, replies).0, run(engine, pair, replies).1);
}

/// The pair after `step` was answered with `reply`. Only a call of the
/// transfer touches the source or the buffer's bytes.
pub open spec fn pair_after(pair: Pair, step: Step, reply: Reply) -> Pair {
    match step {
        Step::Transfer(action) => pair.after(action, reply),
        _ => pair,
    }
}

/// Whether the kernel may answer `step` with `reply`.
pub open spec fn pair_admits(pair: Pair, step: Step, reply: Reply) -> bool {
    match step {
        Step::Transfer(action) => pair.admits(action, reply),
        _ => true,
    }
}

/// A pipeline and the pair it works on, after the calls that were
/// answered with `replies`.
pub open spec fn run_pipeline(state: PipelineState, pair: Pair, replies: Seq<Reply>) -> (
    PipelineState,
    Pair,
)
    decreases replies.len(),
{
    if replies.len() == 0 {
        (state, pair)
    } else {
        run_pipeline(
            state.observe(replies[0]),
            pair_after(pair, state.step(), replies[0]),
            replies.skip(1),
        )
    }
}

/// Whether each of `replies` is one that the kernel may give to the
/// call of the pipeline that it answers.
pub open spec fn faithful_pipeline(state: PipelineState, pair: Pair, replies: Seq<Reply>) -> bool
    decreases replies.len(),
{
    replies.len() == 0 || {
        &&& pair_admits(pair, state.step(), replies[0])
        &&& faithful_pipeline(
            state.observe(replies[0]),
            pair_after(pair, state.step(), replies[0]),
            replies.skip(1),
        )
    }
}

/// One call keeps a pipeline, its engine and the pair in step.
pub proof fn lemma_pipeline_step_in_step(state: PipelineState, pair: Pair, reply: Reply)
    requires
        state.wf(),
        in_step(state.engine, pair),
        pair_admits(pair, state.step(), reply),
    ensures
        state.observe(reply).wf(),
        in_step(state.observe(reply).engine, pair_after(pair, state.step(), reply)),
        pair_after(pair, state.step(), reply).source == pair.source,
        state.observe(reply).descriptor == state.descriptor,
{
    lemma_stages_in_order(state, reply);
    if state.step() is Transfer {
        lemma_step_in_step(state.engine, pair, reply);
    }
}

/// A run keeps a pipeline, its engine and the pair in step.
pub proof fn lemma_pipeline_run_in_step(state: PipelineState, pair: Pair, replies: Seq<Reply>)
    requires
        state.wf(),
        in_step(state.engine, pair),
        faithful_pipeline(state, pair, replies),
    ensures
        run_pipeline(state, pair, replies).0.wf(),
        in_step(run_pipeline(state, pair, replies).0.engine, run_pipeline(state, pair, replies).1),
        run_pipeline(state, pair, replies).1.source == pair.source,
        run_pipeline(state, pair, replies).0.descriptor == state.descriptor,
    decreases replies.len(),
{
    if replies.len() > 0 {
        lemma_pipeline_step_in_step(state, pair, replies[0]);
        lemma_pipeline_run_in_step(
            state.observe(replies[0]),
            pair_after(pair, state.step(), replies[0]),
            replies.skip(1),
        );
    }
}

/// For a source of any bytes, a rate of any size and a kernel that
/// answers in any way it may: from the moment the run is `Filled`, and
/// so when it is `Finalized` and when it is `HandedOff`, the buffer
/// holds exactly the bytes of the source, in order; and the buffer that
/// is handed off is the one that was made, sealed for good.
pub proof fn theorem_handoff_holds_source(
    descriptor: i32,
    rate: usize,
    source: Seq<u8>,
    staging: Seq<u8>,
    replies: Seq<Reply>,
)
    requires
        descriptor >= 0,
        rate > 0,
        staging.len() >= rate,
        faithful_pipeline(
            PipelineState::created(descriptor, rate),
            Pair::fresh(source, staging),
            replies,
        ),
    ensures
        ({
            let (state, pair) = run_pipeline(
                PipelineState::created(descriptor, rate),
                Pair::fresh(source, staging),
                replies,
            );
            &&& state.stage.spec_rank() >= Stage::Filled.spec_rank() ==> pair.buffer == source
                && state.engine.moved == source.len()
            &&& state.stage == Stage::HandedOff ==> state.seal == SealState::Immutable
                && state.descriptor == descriptor && state.redirected
        }),
{
    let state = PipelineState::created(descriptor, rate);
    let pair = Pair::fresh(source, staging);
    lemma_start_in_step(rate, source, staging);
    lemma_pipeline_run_in_step(state, pair, replies);
    let end = run_pipeline(state, pair, replies);
    if end.0.stage.spec_rank() >= Stage::Filled.spec_rank() {
        lemma_finished_exact(end.0.engine, end.1);
    }
}

} // verus!
