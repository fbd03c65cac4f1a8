//! A blocking operation from call to result, around any codec.

use crate::error::BindingError;
use crate::error::ErrorView;
use crate::invocation::job_for;
use crate::invocation::level_view;
use crate::invocation::outcome_view;
use crate::invocation::result_of;
use crate::invocation::result_view;
use crate::invocation::Action;
use crate::invocation::Event;
use crate::invocation::Invocation;
use crate::invocation::Job;
use crate::operation::Codec;
use crate::operation::Direction;
use crate::operation::Mode;
use crate::operation::Operation;
use vstd::pervasive::unreached;
use vstd::prelude::*;

verus! {

/// Runs a blocking operation on the calling thread.
///
/// The level is validated first: a compress operation whose level is not 0,
/// 1 or 3 fails with [`BindingError::InvalidLevel`] and `call_codec` is never
/// called. Otherwise `call_codec` is called once, with the job and the
/// borrowed input, and its answer is the result: its bytes as they are, or its
/// failure as a compression or decompression error that carries its text.
pub fn run_blocking<F>(
    codec: Codec,
    direction: Direction,
    level: Option<i64>,
    input: &[u8],
    call_codec: F,
) -> (result: Result<Vec<u8>, BindingError>) where
    F: FnOnce(Job, &[u8]) -> Result<Vec<u8>, String>,

    requires
        job_for(Operation::of(codec, direction, Mode::Blocking), level_view(level)) matches Some(
            job,
        ) ==> call_requires(call_codec, (job, input)),
    ensures
        match job_for(Operation::of(codec, direction, Mode::Blocking), level_view(level)) {
            None => result_view(result) == Err::<Seq<u8>, ErrorView>(ErrorView::InvalidLevel),
            Some(job) => exists|answer: Result<Vec<u8>, String>|
                {
                    &&& call_ensures(call_codec, (job, input), answer)
                    &&& result_view(result) == result_of(
                        Operation::of(codec, direction, Mode::Blocking),
                        level_view(level),
                        #[trigger] outcome_view(answer),
                    )
                },
        },
{
    let op = Operation::new(codec, direction, Mode::Blocking);
    let mut invocation = Invocation::new(op);
    match invocation.step(Event::Called { level, input }) {
        Action::RunInline { job, input: borrowed } => {
            assert(borrowed =~= input);
            let answer = call_codec(job, borrowed);
            let ghost seen = answer;
            let result = match invocation.step(Event::CodecFinished { outcome: answer }) {
                Action::Return { output } => Ok(output),
                Action::Raise { error } => Err(error),
                _ => unreached(),
            };
            assert(result_view(result) == result_of(op, level_view(level), outcome_view(seen)));
            result
        },
        Action::Raise { error } => Err(error),
        _ => unreached(),
    }
}

} // verus!
