//! Whole runs of an invocation, and what holds of every run.

use crate::error::ErrorView;
use crate::invocation::job_for;
use crate::invocation::on_codec_finished;
use crate::invocation::result_of;
use crate::invocation::step;
use crate::invocation::ActionView;
use crate::invocation::EventView;
use crate::invocation::Job;
use crate::invocation::Phase;
use crate::level::is_valid_level;
use crate::level::level_of;
use crate::operation::Codec;
use crate::operation::Direction;
use crate::operation::Mode;
use crate::operation::Operation;
use vstd::prelude::*;

verus! {

/// The phase an invocation of `op` reaches from `phase` over `events`, and
/// the action it asks for at each event.
pub open spec fn run(op: Operation, phase: Phase, events: Seq<EventView>) -> (
    Phase,
    Seq<ActionView>,
)
    decreases events.len(),
{
    if events.len() == 0 {
        (phase, Seq::empty())
    } else {
        let (reached, actions) = run(op, phase, events.drop_last());
        let (next, action) = step(op, reached, events.last());
        (next, actions.push(action))
    }
}

/// A run answers every event with one action.
pub proof fn lemma_run_answers_each_event(op: Operation, phase: Phase, events: Seq<EventView>)
    ensures
        run(op, phase, events).1.len() == events.len(),
    decreases events.len(),
{
    if events.len() > 0 {
        lemma_run_answers_each_event(op, phase, events.drop_last());
    }
}

/// The answer to an event depends only on the events before it.
pub proof fn lemma_run_prefix(op: Operation, phase: Phase, events: Seq<EventView>, upto: int)
    requires
        0 <= upto <= events.len(),
    ensures
        run(op, phase, events.take(upto)).1 =~= run(op, phase, events).1.take(upto),
    decreases events.len(),
{
    lemma_run_answers_each_event(op, phase, events);
    if upto < events.len() {
        lemma_run_prefix(op, phase, events.drop_last(), upto);
        assert(events.drop_last().take(upto) =~= events.take(upto));
    } else {
        assert(events.take(upto) =~= events);
    }
}

/// Whatever happens to an invocation, its caller is answered at most once,
/// and the invocation is settled exactly when the caller has been answered.
/// The codec, too, is asked at most once, and the invocation awaits it only
/// after asking.
pub proof fn lemma_settles_at_most_once(op: Operation, events: Seq<EventView>)
    ensures
        ({
            let (end, actions) = run(op, Phase::Created, events);
            &&& actions.len() == events.len()
            &&& forall|i: int, j: int|
                0 <= i < j < actions.len() ==> !(#[trigger] actions[i].settles()
                    && #[trigger] actions[j].settles())
            &&& forall|i: int, j: int|
                0 <= i < j < actions.len() ==> !(#[trigger] actions[i].starts_codec()
                    && #[trigger] actions[j].starts_codec())
            &&& end is Settled <==> exists|i: int|
                0 <= i < actions.len() && #[trigger] actions[i].settles()
            &&& end is Created ==> forall|i: int|
                0 <= i < actions.len() ==> !(#[trigger] actions[i]).starts_codec()
            &&& end is AwaitingCodec ==> exists|i: int|
                0 <= i < actions.len() && #[trigger] actions[i].starts_codec()
        }),
    decreases events.len(),
{
    if events.len() > 0 {
        lemma_settles_at_most_once(op, events.drop_last());
        let (reached, before) = run(op, Phase::Created, events.drop_last());
        let (end, action) = step(op, reached, events.last());
        let actions = before.push(action);
        let last = before.len() as int;
        assert(actions[last] == action);
        assert(forall|i: int| 0 <= i < last ==> actions[i] == before[i]);
        if action.settles() {
            assert(actions[last].settles());
        }
        if action.starts_codec() {
            assert(actions[last].starts_codec());
        }
        if reached is AwaitingCodec {
            let i = choose|i: int| 0 <= i < before.len() && #[trigger] before[i].starts_codec();
            assert(actions[i].starts_codec());
        }
        if reached is Settled {
            let i = choose|i: int| 0 <= i < before.len() && #[trigger] before[i].settles();
            assert(actions[i].settles());
        }
    }
}

/// The caller gets the codec's answer only after the codec has been asked:
/// an action that delivers output, rejects a future or raises a codec failure
/// answers the codec's completion, and an earlier action started the codec.
/// An error raised in answer to the call itself is always the refused level.
pub proof fn lemma_settlement_follows_codec(op: Operation, events: Seq<EventView>, at: int)
    requires
        0 <= at < events.len(),
    ensures
        ({
            let actions = run(op, Phase::Created, events).1;
            &&& actions.len() == events.len()
            &&& events[at] is Called && actions[at].settles() ==> actions[at] == (
            ActionView::Raise { error: ErrorView::InvalidLevel })
            &&& events[at] is CodecFinished && actions[at].settles() ==> {
                &&& actions[at] == on_codec_finished(op, events[at]->outcome)
                &&& exists|i: int| 0 <= i < at && #[trigger] actions[i].starts_codec()
            }
        }),
{
    let upto = events.take(at);
    lemma_run_prefix(op, Phase::Created, events, at);
    lemma_run_prefix(op, Phase::Created, events, at + 1);
    lemma_run_answers_each_event(op, Phase::Created, events);
    lemma_settles_at_most_once(op, upto);
    assert(events.take(at + 1).drop_last() =~= upto);
    let (reached, before) = run(op, Phase::Created, upto);
    let actions = run(op, Phase::Created, events).1;
    assert(actions[at] == actions.take(at + 1)[at]);
    if events[at] is CodecFinished && actions[at].settles() {
        let i = choose|i: int| 0 <= i < before.len() && #[trigger] before[i].starts_codec();
        assert(before[i] == actions.take(at)[i]);
        assert(actions[i].starts_codec());
    }
}

/// A compress operation that is called with anything but 0, 1 or 3 as its
/// level raises the level error at once, whichever its mode, and never asks
/// for the codec: nothing is run and nothing is scheduled.
pub proof fn lemma_refused_level_never_reaches_codec(op: Operation, events: Seq<EventView>)
    requires
        op.direction is Compress,
        forall|i: int|
            0 <= i < events.len() ==> (#[trigger] events[i] matches EventView::Called { level, .. }
                ==> !(level matches Some(raw) && is_valid_level(raw))),
    ensures
        ({
            let (end, actions) = run(op, Phase::Created, events);
            &&& actions.len() == events.len()
            &&& !(end is AwaitingCodec)
            &&& forall|i: int|
                0 <= i < actions.len() ==> {
                    &&& !(#[trigger] actions[i]).starts_codec()
                    &&& actions[i] is Ignore || actions[i] == (ActionView::Raise {
                        error: ErrorView::InvalidLevel,
                    })
                }
            &&& forall|i: int|
                0 <= i < actions.len() && events[i] is Called && (forall|j: int|
                    0 <= j < i ==> !(events[j] is Called)) ==> #[trigger] actions[i] == (
                ActionView::Raise { error: ErrorView::InvalidLevel })
        }),
    decreases events.len(),
{
    if events.len() > 0 {
        let earlier = events.drop_last();
        assert forall|i: int| 0 <= i < earlier.len() implies (#[trigger] earlier[i] matches EventView::Called {
            level,
            ..
        } ==> !(level matches Some(raw) && is_valid_level(raw))) by {
            assert(earlier[i] == events[i]);
        }
        lemma_refused_level_never_reaches_codec(op, earlier);
        if forall|j: int| 0 <= j < earlier.len() ==> !(#[trigger] earlier[j] is Called) {
            lemma_first_call_meets_fresh_invocation(op, earlier);
        }
        let (reached, before) = run(op, Phase::Created, earlier);
        let (end, action) = step(op, reached, events.last());
        let actions = before.push(action);
        assert(forall|i: int| 0 <= i < before.len() ==> actions[i] == before[i]);
        assert(events.last() == events[events.len() - 1]);
        assert forall|j: int| 0 <= j < earlier.len() implies earlier[j] == events[j] by {}
    }
}

/// Until it is called, an invocation stays as it was created.
proof fn lemma_first_call_meets_fresh_invocation(op: Operation, events: Seq<EventView>)
    requires
        forall|j: int| 0 <= j < events.len() ==> !(#[trigger] events[j] is Called),
    ensures
        run(op, Phase::Created, events).0 is Created,
    decreases events.len(),
{
    if events.len() > 0 {
        let earlier = events.drop_last();
        assert forall|j: int| 0 <= j < earlier.len() implies !(#[trigger] earlier[j] is Called) by {
            assert(earlier[j] == events[j]);
        }
        lemma_first_call_meets_fresh_invocation(op, earlier);
        assert(events.last() == events[events.len() - 1]);
    }
}

/// The events of an invocation that is called once and whose codec, if it
/// is asked, answers `answer`.
pub open spec fn called_and_answered(
    level: Option<int>,
    input: Seq<u8>,
    answer: Result<Seq<u8>, Seq<char>>,
) -> Seq<EventView> {
    seq![EventView::Called { level, input }, EventView::CodecFinished { outcome: answer }]
}

/// What the caller of `op` ends with against a codec that answers as
/// `codec_model` says.
pub open spec fn result_with(
    codec_model: spec_fn(Job, Seq<u8>) -> Result<Seq<u8>, Seq<char>>,
    op: Operation,
    level: Option<int>,
    input: Seq<u8>,
) -> Result<Seq<u8>, ErrorView> {
    match job_for(op, level) {
        None => Err(ErrorView::InvalidLevel),
        Some(job) => result_of(op, level, codec_model(job, input)),
    }
}

/// The binding adds nothing and loses nothing. Where the level is accepted,
/// the codec is asked to do the operation's job on exactly the caller's bytes,
/// and the caller gets exactly what the codec answered: its bytes, all of them
/// and no others, or its failure. Where the level is refused, the caller gets
/// the level error and the codec's answer is ignored.
pub proof fn lemma_caller_gets_the_codecs_answer(
    op: Operation,
    level: Option<int>,
    input: Seq<u8>,
    answer: Result<Seq<u8>, Seq<char>>,
)
    ensures
        ({
            let (end, actions) = run(
                op,
                Phase::Created,
                called_and_answered(level, input, answer),
            );
            &&& end is Settled
            &&& actions.len() == 2
            &&& match job_for(op, level) {
                Some(job) => {
                    &&& actions[0] == match op.mode {
                        Mode::Blocking => ActionView::RunInline { job, input },
                        Mode::NonBlocking => ActionView::Schedule { job, input },
                    }
                    &&& actions[1].delivers() == Some(result_of(op, level, answer))
                },
                None => {
                    &&& actions[0].delivers() == Some(result_of(op, level, answer))
                    &&& actions[1] is Ignore
                },
            }
        }),
{
    let events = called_and_answered(level, input, answer);
    let first = seq![events[0]];
    assert(events.drop_last() =~= first);
    assert(first.drop_last() =~= Seq::<EventView>::empty());
    reveal_with_fuel(run, 3);
    assert(run(op, Phase::Created, first.drop_last()).0 is Created);
}

/// Against a codec that answers as `codec_model` says, what an invocation
/// delivers is `result_with`: once, in answer to the codec where the codec
/// is asked, and in answer to the call where the level is refused.
pub proof fn lemma_result_with_is_delivered(
    codec_model: spec_fn(Job, Seq<u8>) -> Result<Seq<u8>, Seq<char>>,
    op: Operation,
    level: Option<int>,
    input: Seq<u8>,
    answer: Result<Seq<u8>, Seq<char>>,
)
    requires
        job_for(op, level) matches Some(job) ==> answer == codec_model(job, input),
    ensures
        ({
            let actions = run(op, Phase::Created, called_and_answered(level, input, answer)).1;
            let at: int = if job_for(op, level) is Some {
                1
            } else {
                0
            };
            &&& actions.len() == 2
            &&& actions[at].delivers() == Some(result_with(codec_model, op, level, input))
            &&& actions[1 - at].delivers() is None
        }),
{
    lemma_caller_gets_the_codecs_answer(op, level, input, answer);
}

/// A codec failure reaches the caller as the error of the operation's
/// direction and as nothing else: the message is the direction's prefix
/// followed by the codec's text, and no output comes with it.
pub proof fn lemma_codec_failure_is_reported(
    op: Operation,
    level: Option<int>,
    input: Seq<u8>,
    detail: Seq<char>,
)
    requires
        job_for(op, level) is Some,
    ensures
        ({
            let actions = run(
                op,
                Phase::Created,
                called_and_answered(level, input, Err(detail)),
            ).1;
            let error = match op.direction {
                Direction::Compress => ErrorView::Compression(detail),
                Direction::Decompress => ErrorView::Decompression(detail),
            };
            let prefix = match op.direction {
                Direction::Compress => "Compression failed: "@,
                Direction::Decompress => "Decompression failed: "@,
            };
            &&& actions.len() == 2
            &&& actions[1] == match op.mode {
                Mode::Blocking => ActionView::Raise { error },
                Mode::NonBlocking => ActionView::Reject { error },
            }
            &&& error.message() == prefix + detail
            &&& error.message().subrange(0, prefix.len() as int) == prefix
        }),
{
    lemma_caller_gets_the_codecs_answer(op, level, input, Err(detail));
}

/// Round trip. Against a codec whose decompression undoes its compression
/// of `data`, compressing `data` at a valid level and decompressing the result
/// gives `data` back, for each codec and in either mode.
pub proof fn lemma_round_trip(
    codec_model: spec_fn(Job, Seq<u8>) -> Result<Seq<u8>, Seq<char>>,
    codec: Codec,
    mode: Mode,
    raw: int,
    data: Seq<u8>,
)
    requires
        is_valid_level(raw),
        codec_model(Job::Compress { codec, level: level_of(raw).unwrap() }, data) matches Ok(
            packed,
        ) && codec_model(Job::Decompress { codec }, packed) == Ok::<Seq<u8>, Seq<char>>(data),
    ensures
        result_with(
            codec_model,
            Operation::of(codec, Direction::Compress, mode),
            Some(raw),
            data,
        ) matches Ok(packed) && forall|unread: Option<int>|
            #[trigger] result_with(
                codec_model,
                Operation::of(codec, Direction::Decompress, mode),
                unread,
                packed,
            ) == Ok::<Seq<u8>, ErrorView>(data),
{
}

} // verus!
