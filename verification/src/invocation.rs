//! The life of one invocation of an exported operation.
//!
//! An invocation alternates between decisions, which are made here, and work
//! that only the host or the codec can do. The glue reports each thing that
//! happened as an [`Event`] and carries out the [`Action`] it gets back.

use crate::error::BindingError;
use crate::error::ErrorView;
use crate::level::level_of;
use crate::level::parse_level;
use crate::level::CompressionLevel;
use crate::operation::Codec;
use crate::operation::Direction;
use crate::operation::Mode;
use crate::operation::Operation;
use vstd::prelude::*;
use vstd::slice::slice_to_vec;

verus! {

/// What the codec is asked to do.
#[derive(Debug, Clone, Copy, PartialEq, Eq, Hash, Structural)]
pub enum Job {
    /// Compress the input into a stream of `codec` at `level`.
    Compress { codec: Codec, level: CompressionLevel },
    /// Decompress the input, a stream of `codec`.
    Decompress { codec: Codec },
}

/// How far an invocation has come.
#[derive(Debug, Clone, Copy, PartialEq, Eq, Hash, Structural)]
pub enum Phase {
    /// Nothing has happened yet.
    Created,
    /// The codec has been asked and has not answered.
    AwaitingCodec,
    /// The caller has its result or its error. Nothing more will happen.
    Settled,
}

/// Something that happened to an invocation.
#[derive(Debug, PartialEq, Eq)]
pub enum Event<'a> {
    /// The caller invoked the operation. `level` is the level argument as
    /// the caller gave it, if it gave one; decompress operations ignore it.
    Called { level: Option<i64>, input: &'a [u8] },
    /// The codec answered with its output or with its diagnostic text.
    CodecFinished { outcome: Result<Vec<u8>, String> },
}

/// What the glue must do next.
#[derive(Debug, PartialEq, Eq)]
pub enum Action<'a> {
    /// Run the codec now, on the calling thread, on the borrowed input.
    RunInline { job: Job, input: &'a [u8] },
    /// Hand the job and this private copy of the input to the worker pool and
    /// give the caller a pending future.
    Schedule { job: Job, input_copy: Vec<u8> },
    /// Return these bytes to the caller in a fresh buffer of their length.
    Return { output: Vec<u8> },
    /// Resolve the future with these bytes in a fresh buffer of their length.
    Resolve { output: Vec<u8> },
    /// Throw this error on the calling thread.
    Raise { error: BindingError },
    /// Reject the future with this error.
    Reject { error: BindingError },
    /// The event does not belong to this phase; do nothing.
    Ignore,
}

/// Mathematical model of an [`Event`].
pub enum EventView {
    Called { level: Option<int>, input: Seq<u8> },
    CodecFinished { outcome: Result<Seq<u8>, Seq<char>> },
}

/// Mathematical model of an [`Action`].
pub enum ActionView {
    RunInline { job: Job, input: Seq<u8> },
    Schedule { job: Job, input: Seq<u8> },
    Return { output: Seq<u8> },
    Resolve { output: Seq<u8> },
    Raise { error: ErrorView },
    Reject { error: ErrorView },
    Ignore,
}

/// The level argument as a mathematical integer.
pub open spec fn level_view(level: Option<i64>) -> Option<int> {
    match level {
        Some(raw) => Some(raw as int),
        None => None,
    }
}

/// Mathematical model of a codec's answer.
pub open spec fn outcome_view(outcome: Result<Vec<u8>, String>) -> Result<Seq<u8>, Seq<char>> {
    match outcome {
        Ok(bytes) => Ok(bytes@),
        Err(detail) => Err(detail@),
    }
}

/// Mathematical model of what a caller ends with.
pub open spec fn result_view(result: Result<Vec<u8>, BindingError>) -> Result<
    Seq<u8>,
    ErrorView,
> {
    match result {
        Ok(output) => Ok(output@),
        Err(error) => Err(error@),
    }
}

impl<'a> View for Event<'a> {
    type V = EventView;

    open spec fn view(&self) -> EventView {
        match self {
            Event::Called { level, input } => EventView::Called {
                level: level_view(*level),
                input: input@,
            },
            Event::CodecFinished { outcome } => EventView::CodecFinished {
                outcome: outcome_view(*outcome),
            },
        }
    }
}

impl<'a> View for Action<'a> {
    type V = ActionView;

    open spec fn view(&self) -> ActionView {
        match self {
            Action::RunInline { job, input } => ActionView::RunInline { job: *job, input: input@ },
            Action::Schedule { job, input_copy } => ActionView::Schedule {
                job: *job,
                input: input_copy@,
            },
            Action::Return { output } => ActionView::Return { output: output@ },
            Action::Resolve { output } => ActionView::Resolve { output: output@ },
            Action::Raise { error } => ActionView::Raise { error: error@ },
            Action::Reject { error } => ActionView::Reject { error: error@ },
            Action::Ignore => ActionView::Ignore,
        }
    }
}

impl ActionView {
    /// Whether the action asks for the codec to run.
    pub open spec fn starts_codec(self) -> bool {
        self is RunInline || self is Schedule
    }

    /// Whether the action gives the caller its result or its error.
    pub open spec fn settles(self) -> bool {
        self is Return || self is Resolve || self is Raise || self is Reject
    }

    /// What the action gives the caller, if it gives the caller anything.
    pub open spec fn delivers(self) -> Option<Result<Seq<u8>, ErrorView>> {
        match self {
            ActionView::Return { output } => Some(Ok(output)),
            ActionView::Resolve { output } => Some(Ok(output)),
            ActionView::Raise { error } => Some(Err(error)),
            ActionView::Reject { error } => Some(Err(error)),
            _ => None,
        }
    }
}

/// The job an operation gives the codec for a level argument, or `None`
/// where the level argument is refused. Only compress operations read it.
pub open spec fn job_for(op: Operation, level: Option<int>) -> Option<Job> {
    match op.direction {
        Direction::Decompress => Some(Job::Decompress { codec: op.codec }),
        Direction::Compress => match level {
            Some(raw) => match level_of(raw) {
                Some(level) => Some(Job::Compress { codec: op.codec, level }),
                None => None,
            },
            None => None,
        },
    }
}

/// The error that a codec failure with text `detail` becomes.
pub open spec fn codec_failure(direction: Direction, detail: Seq<char>) -> ErrorView {
    match direction {
        Direction::Compress => ErrorView::Compression(detail),
        Direction::Decompress => ErrorView::Decompression(detail),
    }
}

/// What a call does: refuse a bad level at once, otherwise ask for the codec,
/// inline for a blocking operation and on a worker for the other kind.
pub open spec fn on_called(op: Operation, level: Option<int>, input: Seq<u8>) -> ActionView {
    match job_for(op, level) {
        None => ActionView::Raise { error: ErrorView::InvalidLevel },
        Some(job) => match op.mode {
            Mode::Blocking => ActionView::RunInline { job, input },
            Mode::NonBlocking => ActionView::Schedule { job, input },
        },
    }
}

/// What the codec's answer becomes: its bytes, untouched, or an error that
/// carries its text.
pub open spec fn on_codec_finished(
    op: Operation,
    outcome: Result<Seq<u8>, Seq<char>>,
) -> ActionView {
    match outcome {
        Ok(output) => match op.mode {
            Mode::Blocking => ActionView::Return { output },
            Mode::NonBlocking => ActionView::Resolve { output },
        },
        Err(detail) => match op.mode {
            Mode::Blocking => ActionView::Raise { error: codec_failure(op.direction, detail) },
            Mode::NonBlocking => ActionView::Reject { error: codec_failure(op.direction, detail) },
        },
    }
}

/// One step of an invocation of `op` that is in `phase`: the phase it moves
/// to and the action it asks for.
pub open spec fn step(op: Operation, phase: Phase, event: EventView) -> (Phase, ActionView) {
    match (phase, event) {
        (Phase::Created, EventView::Called { level, input }) => {
            let action = on_called(op, level, input);
            (
                if action.starts_codec() {
                    Phase::AwaitingCodec
                } else {
                    Phase::Settled
                },
                action,
            )
        },
        (Phase::AwaitingCodec, EventView::CodecFinished { outcome }) => (
            Phase::Settled,
            on_codec_finished(op, outcome),
        ),
        _ => (phase, ActionView::Ignore),
    }
}

/// What the caller of `op` ends with when the codec, if it is asked,
/// answers `answer`: the refused level, or else the codec's bytes as they are,
/// or its failure under the operation's direction.
pub open spec fn result_of(
    op: Operation,
    level: Option<int>,
    answer: Result<Seq<u8>, Seq<char>>,
) -> Result<Seq<u8>, ErrorView> {
    match job_for(op, level) {
        None => Err(ErrorView::InvalidLevel),
        Some(_) => match answer {
            Ok(output) => Ok(output),
            Err(detail) => Err(codec_failure(op.direction, detail)),
        },
    }
}

/// One invocation of an exported operation.
///
/// It owns nothing but its own progress, so any number of invocations can be
/// in flight without sharing state.
#[derive(Debug)]
pub struct Invocation {
    op: Operation,
    phase: Phase,
}

/// Mathematical model of an [`Invocation`].
pub struct InvocationView {
    pub op: Operation,
    pub phase: Phase,
}

impl View for Invocation {
    type V = InvocationView;

    closed spec fn view(&self) -> InvocationView {
        InvocationView { op: self.op, phase: self.phase }
    }
}

impl Invocation {
    /// A fresh invocation of `op`.
    pub fn new(op: Operation) -> (invocation: Invocation)
        ensures
            invocation@.op == op,
            invocation@.phase == Phase::Created,
    {
        Invocation { op, phase: Phase::Created }
    }

    /// The operation that was invoked.
    pub fn operation(&self) -> (op: Operation)
        ensures
            op == self@.op,
    {
        self.op
    }

    /// How far the invocation has come.
    pub fn phase(&self) -> (phase: Phase)
        ensures
            phase == self@.phase,
    {
        self.phase
    }

    /// Takes note of `event` and says what to do next.
    ///
    /// A call is answered by a request to run the codec, or, for a compress
    /// operation whose level is not 0, 1 or 3, by an error raised at once. The
    /// codec's answer is passed on as it is: its bytes become the result, its
    /// failure becomes an error that carries its text. Any other event leaves
    /// the invocation as it was.
    pub fn step<'a>(&mut self, event: Event<'a>) -> (action: Action<'a>)
        ensures
            final(self)@.op == old(self)@.op,
            (final(self)@.phase, action@) == step(old(self)@.op, old(self)@.phase, event@),
    {
        match self.phase {
            Phase::Created => match event {
                Event::Called { level, input } => self.begin(level, input),
                Event::CodecFinished { .. } => Action::Ignore,
            },
            Phase::AwaitingCodec => match event {
                Event::CodecFinished { outcome } => {
                    self.phase = Phase::Settled;
                    self.finish(outcome)
                },
                Event::Called { .. } => Action::Ignore,
            },
            Phase::Settled => Action::Ignore,
        }
    }

    fn begin<'a>(&mut self, level: Option<i64>, input: &'a [u8]) -> (action: Action<'a>)
        requires
            old(self).phase == Phase::Created,
        ensures
            final(self).op == old(self).op,
            action@ == on_called(old(self).op, level_view(level), input@),
            final(self).phase == if action@.starts_codec() {
                Phase::AwaitingCodec
            } else {
                Phase::Settled
            },
    {
        let job = match self.op.direction {
            Direction::Decompress => Job::Decompress { codec: self.op.codec },
            Direction::Compress => {
                let parsed = match level {
                    Some(raw) => parse_level(raw),
                    None => Err(BindingError::InvalidLevel),
                };
                match parsed {
                    Ok(level) => Job::Compress { codec: self.op.codec, level },
                    Err(error) => {
                        self.phase = Phase::Settled;
                        return Action::Raise { error };
                    },
                }
            },
        };
        self.phase = Phase::AwaitingCodec;
        match self.op.mode {
            Mode::Blocking => Action::RunInline { job, input },
            Mode::NonBlocking => Action::Schedule { job, input_copy: slice_to_vec(input) },
        }
    }

    fn finish<'a>(&self, outcome: Result<Vec<u8>, String>) -> (action: Action<'a>)
        ensures
            action@ == on_codec_finished(self.op, outcome_view(outcome)),
    {
        match outcome {
            Ok(output) => match self.op.mode {
                Mode::Blocking => Action::Return { output },
                Mode::NonBlocking => Action::Resolve { output },
            },
            Err(detail) => {
                let error = match self.op.direction {
                    Direction::Compress => BindingError::Compression(detail),
                    Direction::Decompress => BindingError::Decompression(detail),
                };
                match self.op.mode {
                    Mode::Blocking => Action::Raise { error },
                    Mode::NonBlocking => Action::Reject { error },
                }
            },
        }
    }
}

} // verus!
