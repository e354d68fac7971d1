use sealed_stdin::error::{Error, HandoffError, TransferCause, TransferError};
use sealed_stdin::pipeline::{Pipeline, Stage, Step};
use sealed_stdin::seal::{Mutation, SealState};
use sealed_stdin::sys::{Fault, FaultKind, Reply};
use sealed_stdin::transfer::{staging_area, Action, Strategy, TransferEngine, TransferRate};

const DESCRIPTOR: i32 = 7;

fn refusal() -> Fault {
    Fault { kind: FaultKind::InvalidInput, code: 22 }
}

fn breakdown() -> Fault {
    Fault { kind: FaultKind::Other, code: 5 }
}

/// A stand-in for the kernel: a source, a buffer with its seals, the
/// cursors, the slot of standard input, and which calls it serves.
struct Machine {
    source: Vec<u8>,
    source_cursor: usize,
    buffer: Vec<u8>,
    buffer_cursor: usize,
    seals: u32,
    staging: Vec<u8>,
    splice: bool,
    range_copy: bool,
    send_file: bool,
    most_per_fetch: usize,
    most_per_write: usize,
    fail_after: Option<usize>,
    refuse_seals: bool,
    refuse_redirect: bool,
    refuse_launch: bool,
    standard_input: Option<i32>,
    launched_with: Option<Vec<u8>>,
    calls: Vec<Step>,
}

impl Machine {
    fn new(source: &[u8], rate: usize) -> Machine {
        Machine {
            source: source.to_vec(),
            source_cursor: 0,
            buffer: Vec::new(),
            buffer_cursor: 0,
            seals: 0,
            staging: staging_area(TransferRate::new(rate).unwrap()).unwrap(),
            splice: true,
            range_copy: true,
            send_file: true,
            most_per_fetch: usize::MAX,
            most_per_write: usize::MAX,
            fail_after: None,
            refuse_seals: false,
            refuse_redirect: false,
            refuse_launch: false,
            standard_input: None,
            launched_with: None,
            calls: Vec::new(),
        }
    }

    fn without_primitives(mut self) -> Machine {
        self.splice = false;
        self.range_copy = false;
        self.send_file = false;
        self
    }

    fn write_at(&mut self, at: usize, data: &[u8]) -> Result<(), Fault> {
        if self.seals & 0x0008 != 0 {
            return Err(Fault { kind: FaultKind::Other, code: 1 });
        }
        let end = at + data.len();
        if end > self.buffer.len() {
            if self.seals & 0x0004 != 0 {
                return Err(Fault { kind: FaultKind::Other, code: 1 });
            }
            self.buffer.resize(end, 0);
        }
        self.buffer[at..end].copy_from_slice(data);
        Ok(())
    }

    fn fetch(&self, at: usize, len: usize) -> Vec<u8> {
        let left = self.source.len().saturating_sub(at);
        let count = len.min(left).min(self.most_per_fetch);
        self.source[at.min(self.source.len())..at.min(self.source.len()) + count].to_vec()
    }

    fn copy(
        &mut self,
        strategy: Strategy,
        source_offset: Option<i64>,
        buffer_offset: Option<i64>,
        len: usize,
    ) -> Reply {
        let served = match strategy {
            Strategy::Splice => {
                assert_eq!(source_offset, None);
                assert!(buffer_offset.is_some());
                self.splice
            }
            Strategy::RangeCopy => {
                assert!(source_offset.is_some());
                assert!(buffer_offset.is_some());
                self.range_copy
            }
            Strategy::SendFile => {
                assert!(source_offset.is_some());
                assert_eq!(buffer_offset, None);
                self.send_file
            }
            Strategy::Buffered => panic!("the buffered strategy is no copy primitive"),
        };
        if !served {
            return Err(refusal());
        }
        let read_at = source_offset.map(|o| o as usize).unwrap_or(self.source_cursor);
        let write_at = buffer_offset.map(|o| o as usize).unwrap_or(self.buffer_cursor);
        let data = self.fetch(read_at, len);
        self.write_at(write_at, &data)?;
        if source_offset.is_none() {
            self.source_cursor += data.len();
        }
        if buffer_offset.is_none() {
            self.buffer_cursor += data.len();
        }
        Ok(data.len())
    }

    fn transfer(&mut self, action: Action) -> Reply {
        if let Some(limit) = self.fail_after {
            if self.buffer.len() >= limit {
                return Err(breakdown());
            }
        }
        match action {
            Action::Copy { strategy, source_offset, buffer_offset, len } => {
                self.copy(strategy, source_offset, buffer_offset, len)
            }
            Action::Read { len } => {
                assert!(len <= self.staging.len());
                let data = self.fetch(self.source_cursor, len);
                self.staging[..data.len()].copy_from_slice(&data);
                self.source_cursor += data.len();
                Ok(data.len())
            }
            Action::Write { from, to } => {
                assert!(from < to && to <= self.staging.len());
                let count = (to - from).min(self.most_per_write);
                let data = self.staging[from..from + count].to_vec();
                let at = self.buffer_cursor;
                self.write_at(at, &data)?;
                self.buffer_cursor += count;
                Ok(count)
            }
            Action::Flush => Ok(0),
            Action::Finish | Action::Abort(_) => panic!("a halted engine asks for no call"),
        }
    }

    fn perform(&mut self, step: Step) -> Reply {
        self.calls.push(step);
        match step {
            Step::AddSeals { descriptor, seals } => {
                assert_eq!(descriptor, DESCRIPTOR);
                if self.refuse_seals {
                    return Err(breakdown());
                }
                self.seals |= seals;
                Ok(0)
            }
            Step::Transfer(action) => self.transfer(action),
            Step::Redirect { descriptor, onto } => {
                assert_eq!(onto, 0);
                if self.refuse_redirect {
                    return Err(Fault { kind: FaultKind::Other, code: 9 });
                }
                self.standard_input = Some(descriptor);
                Ok(0)
            }
            Step::Launch => {
                if self.refuse_launch {
                    return Err(Fault { kind: FaultKind::Other, code: 2 });
                }
                assert_eq!(self.standard_input, Some(DESCRIPTOR));
                self.launched_with = Some(self.buffer.clone());
                Ok(0)
            }
            Step::Done | Step::Stop(_) => panic!("a halted pipeline asks for no call"),
        }
    }
}

fn run(machine: &mut Machine, rate: usize) -> Pipeline {
    let rate = TransferRate::new(rate).unwrap();
    let mut pipeline = Pipeline::new(DESCRIPTOR, breakdown(), rate).unwrap();
    for _ in 0..10_000 {
        let step = pipeline.step();
        if matches!(step, Step::Done | Step::Stop(_)) {
            return pipeline;
        }
        let reply = machine.perform(step);
        pipeline.observe(reply);
    }
    panic!("the pipeline did not halt");
}

fn strategies_called(machine: &Machine) -> Vec<Strategy> {
    let mut seen = Vec::new();
    for call in &machine.calls {
        let strategy = match call {
            Step::Transfer(Action::Copy { strategy, .. }) => *strategy,
            Step::Transfer(_) => Strategy::Buffered,
            _ => continue,
        };
        if seen.last() != Some(&strategy) {
            seen.push(strategy);
        }
    }
    seen
}

#[test]
fn hello_at_rate_four_is_handed_off_sealed() {
    let mut machine = Machine::new(b"hello\n", 4);
    let pipeline = run(&mut machine, 4);
    assert_eq!(pipeline.stage(), Stage::HandedOff);
    assert_eq!(pipeline.failure(), None);
    assert_eq!(machine.buffer, b"hello\n".to_vec());
    assert_eq!(pipeline.moved(), 6);
    assert_eq!(pipeline.buffer().state(), SealState::Immutable);
    assert_eq!(machine.seals, 0x0002 | 0x0004 | 0x0008);
    assert_eq!(machine.standard_input, Some(DESCRIPTOR));
    assert_eq!(machine.launched_with, Some(b"hello\n".to_vec()));
    assert_eq!(
        machine.calls,
        vec![
            Step::AddSeals { descriptor: DESCRIPTOR, seals: 0x0002 },
            Step::Transfer(Action::Copy {
                strategy: Strategy::Splice,
                source_offset: None,
                buffer_offset: Some(0),
                len: 4,
            }),
            Step::Transfer(Action::Copy {
                strategy: Strategy::Splice,
                source_offset: None,
                buffer_offset: Some(4),
                len: 4,
            }),
            Step::Transfer(Action::Copy {
                strategy: Strategy::Splice,
                source_offset: None,
                buffer_offset: Some(6),
                len: 4,
            }),
            Step::AddSeals { descriptor: DESCRIPTOR, seals: 0x0004 | 0x0008 },
            Step::Redirect { descriptor: DESCRIPTOR, onto: 0 },
            Step::Launch,
        ]
    );
}

#[test]
fn empty_input_completes_at_once_and_is_still_sealed_and_handed_off() {
    let mut machine = Machine::new(b"", 4);
    let pipeline = run(&mut machine, 4);
    assert_eq!(pipeline.stage(), Stage::HandedOff);
    assert_eq!(machine.buffer, Vec::<u8>::new());
    assert_eq!(pipeline.moved(), 0);
    assert_eq!(machine.seals, 0x0002 | 0x0004 | 0x0008);
    assert_eq!(pipeline.buffer().state(), SealState::Immutable);
    assert_eq!(machine.standard_input, Some(DESCRIPTOR));
    assert_eq!(machine.launched_with, Some(Vec::new()));
    assert_eq!(machine.calls.len(), 5);
}

#[test]
fn empty_input_through_the_buffered_strategy() {
    let mut machine = Machine::new(b"", 4).without_primitives();
    let pipeline = run(&mut machine, 4);
    assert_eq!(pipeline.stage(), Stage::HandedOff);
    assert_eq!(machine.buffer, Vec::<u8>::new());
    assert_eq!(pipeline.state().engine.strategy, Strategy::Buffered);
}

#[test]
fn all_primitives_refused_falls_through_to_buffered_with_parity() {
    let source: Vec<u8> = (0..=255u8).cycle().take(1000).collect();
    let mut machine = Machine::new(&source, 64).without_primitives();
    let pipeline = run(&mut machine, 64);
    assert_eq!(pipeline.stage(), Stage::HandedOff);
    assert_eq!(machine.buffer, source);
    assert_eq!(pipeline.moved(), 1000);
    assert_eq!(pipeline.state().engine.strategy, Strategy::Buffered);
    assert_eq!(
        strategies_called(&machine),
        vec![Strategy::Splice, Strategy::RangeCopy, Strategy::SendFile, Strategy::Buffered]
    );
    assert_eq!(machine.launched_with, Some(source));
}

#[test]
fn each_strategy_alone_moves_every_byte_in_order() {
    let source: Vec<u8> = (0..=255u8).rev().cycle().take(777).collect();
    for serving in [Strategy::Splice, Strategy::RangeCopy, Strategy::SendFile, Strategy::Buffered] {
        let mut machine = Machine::new(&source, 50);
        machine.splice = serving == Strategy::Splice;
        machine.range_copy = serving == Strategy::RangeCopy;
        machine.send_file = serving == Strategy::SendFile;
        machine.most_per_fetch = 33;
        let pipeline = run(&mut machine, 50);
        assert_eq!(pipeline.stage(), Stage::HandedOff);
        assert_eq!(machine.buffer, source);
        assert_eq!(pipeline.state().engine.strategy, serving);
        assert_eq!(*strategies_called(&machine).last().unwrap(), serving);
    }
}

#[test]
fn fallback_goes_from_splice_to_range_copy_first() {
    let mut machine = Machine::new(b"abcdef", 4);
    machine.splice = false;
    let pipeline = run(&mut machine, 4);
    assert_eq!(machine.buffer, b"abcdef".to_vec());
    assert_eq!(strategies_called(&machine), vec![Strategy::Splice, Strategy::RangeCopy]);
    assert_eq!(pipeline.state().engine.strategy, Strategy::RangeCopy);
    assert_eq!(
        machine.calls[2],
        Step::Transfer(Action::Copy {
            strategy: Strategy::RangeCopy,
            source_offset: Some(0),
            buffer_offset: Some(0),
            len: 4,
        })
    );
    assert_eq!(
        machine.calls[3],
        Step::Transfer(Action::Copy {
            strategy: Strategy::RangeCopy,
            source_offset: Some(4),
            buffer_offset: Some(4),
            len: 4,
        })
    );
}

#[test]
fn fallback_reaches_send_file_when_range_copy_is_refused_too() {
    let mut machine = Machine::new(b"abcdef", 4);
    machine.splice = false;
    machine.range_copy = false;
    let pipeline = run(&mut machine, 4);
    assert_eq!(machine.buffer, b"abcdef".to_vec());
    assert_eq!(
        strategies_called(&machine),
        vec![Strategy::Splice, Strategy::RangeCopy, Strategy::SendFile]
    );
    assert_eq!(pipeline.state().engine.strategy, Strategy::SendFile);
    assert_eq!(
        machine.calls[4],
        Step::Transfer(Action::Copy {
            strategy: Strategy::SendFile,
            source_offset: Some(4),
            buffer_offset: None,
            len: 4,
        })
    );
}

#[test]
fn short_writes_are_made_up_for_until_the_chunk_is_written() {
    let source = b"the quick brown fox jumps over the lazy dog".to_vec();
    let mut machine = Machine::new(&source, 16).without_primitives();
    machine.most_per_write = 5;
    let pipeline = run(&mut machine, 16);
    assert_eq!(pipeline.stage(), Stage::HandedOff);
    assert_eq!(machine.buffer, source);
    let writes: Vec<Step> = machine
        .calls
        .iter()
        .copied()
        .filter(|call| matches!(call, Step::Transfer(Action::Write { .. })))
        .take(4)
        .collect();
    assert_eq!(
        writes,
        vec![
            Step::Transfer(Action::Write { from: 0, to: 16 }),
            Step::Transfer(Action::Write { from: 5, to: 16 }),
            Step::Transfer(Action::Write { from: 10, to: 16 }),
            Step::Transfer(Action::Write { from: 15, to: 16 }),
        ]
    );
}

#[test]
fn a_write_that_takes_nothing_fails_the_transfer() {
    let mut machine = Machine::new(b"abc", 4).without_primitives();
    machine.most_per_write = 0;
    let pipeline = run(&mut machine, 4);
    assert_eq!(pipeline.stage(), Stage::ShrinkGuarded);
    assert_eq!(
        pipeline.failure(),
        Some(Error::Transfer(TransferError {
            strategy: Strategy::Buffered,
            moved: 0,
            cause: TransferCause::WriteZero,
        }))
    );
    assert_eq!(pipeline.step(), Step::Stop(pipeline.failure().unwrap()));
    assert_eq!(machine.launched_with, None);
    assert_eq!(machine.seals, 0x0002);
}

#[test]
fn a_failure_after_the_first_bytes_is_final_and_tries_no_other_strategy() {
    let mut machine = Machine::new(b"0123456789", 4);
    machine.fail_after = Some(4);
    let pipeline = run(&mut machine, 4);
    assert_eq!(
        pipeline.failure(),
        Some(Error::Transfer(TransferError {
            strategy: Strategy::Splice,
            moved: 4,
            cause: TransferCause::Os(breakdown()),
        }))
    );
    assert_eq!(strategies_called(&machine), vec![Strategy::Splice]);
    assert_eq!(pipeline.stage(), Stage::ShrinkGuarded);
    assert_eq!(pipeline.buffer().state(), SealState::ShrinkSealed);
    assert_eq!(machine.standard_input, None);
}

#[test]
fn a_breakdown_at_the_first_call_is_final_too() {
    let mut machine = Machine::new(b"0123456789", 4);
    machine.fail_after = Some(0);
    let pipeline = run(&mut machine, 4);
    assert_eq!(
        pipeline.failure(),
        Some(Error::Transfer(TransferError {
            strategy: Strategy::Splice,
            moved: 0,
            cause: TransferCause::Os(breakdown()),
        }))
    );
    assert_eq!(strategies_called(&machine), vec![Strategy::Splice]);
}

#[test]
fn a_refused_shrink_seal_stops_the_run_before_any_byte_moves() {
    let mut machine = Machine::new(b"abc", 4);
    machine.refuse_seals = true;
    let pipeline = run(&mut machine, 4);
    assert_eq!(pipeline.failure(), Some(Error::Seal(breakdown())));
    assert_eq!(pipeline.stage(), Stage::Created);
    assert_eq!(pipeline.buffer().state(), SealState::Mutable);
    assert_eq!(machine.calls.len(), 1);
    assert_eq!(machine.buffer, Vec::<u8>::new());
}

#[test]
fn a_refused_redirection_stops_the_run_with_the_buffer_sealed() {
    let mut machine = Machine::new(b"abc", 4);
    machine.refuse_redirect = true;
    let pipeline = run(&mut machine, 4);
    assert_eq!(
        pipeline.failure(),
        Some(Error::Handoff(HandoffError::Redirect(Fault { kind: FaultKind::Other, code: 9 })))
    );
    assert_eq!(pipeline.stage(), Stage::Finalized);
    assert_eq!(pipeline.buffer().state(), SealState::Immutable);
    assert_eq!(machine.launched_with, None);
}

#[test]
fn a_launch_that_returns_is_a_handoff_failure() {
    let mut machine = Machine::new(b"abc", 4);
    machine.refuse_launch = true;
    let pipeline = run(&mut machine, 4);
    assert_eq!(
        pipeline.failure(),
        Some(Error::Handoff(HandoffError::Launch(Fault { kind: FaultKind::Other, code: 2 })))
    );
    assert_eq!(pipeline.stage(), Stage::Finalized);
    assert_eq!(machine.standard_input, Some(DESCRIPTOR));
}

#[test]
fn no_buffer_no_pipeline() {
    let fault = Fault { kind: FaultKind::Other, code: 24 };
    let made = Pipeline::new(-1, fault, TransferRate::default());
    assert_eq!(made.err(), Some(Error::Allocation(fault)));
}

#[test]
fn a_halted_pipeline_ignores_what_it_is_told() {
    let mut machine = Machine::new(b"abc", 4);
    let mut pipeline = run(&mut machine, 4);
    let before = pipeline.state();
    pipeline.observe(Err(breakdown()));
    pipeline.observe(Ok(3));
    assert_eq!(pipeline.state(), before);
    assert_eq!(pipeline.step(), Step::Done);
}

#[test]
fn a_buffer_that_was_handed_off_takes_no_second_transfer() {
    let mut machine = Machine::new(b"abc", 4);
    let pipeline = run(&mut machine, 4);
    let buffer = pipeline.buffer();
    for mutation in [Mutation::Shrink, Mutation::Grow, Mutation::Write] {
        assert!(!buffer.permits(mutation));
    }
    assert_eq!(buffer.seals_to_add(SealState::Immutable), 0);
    let again = TransferEngine::start(&buffer, TransferRate::default());
    assert_eq!(
        again.err(),
        Some(Error::Transfer(TransferError {
            strategy: Strategy::Splice,
            moved: 0,
            cause: TransferCause::Sealed,
        }))
    );
    assert!(machine.write_at(0, b"x").is_err());
    assert_eq!(machine.buffer, b"abc".to_vec());
}
