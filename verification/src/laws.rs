//! What holds of every session, whatever evaluator is behind it.
//!
//! A call of `process_statement` is described by one run of the evaluator, `step`, with its
//! `answer`, and by the `outcome` that the host received. The laws take these as they stand in
//! that function's contract.

use crate::evaluator::{accepts, evaluates, rejects, Evaluator};
use crate::outcome::{flattened, renders};
use vstd::prelude::*;

verus! {

/// The outcome is on the channel that the answer was on, and carries what the answer carried:
/// a success is the evaluator's rendering, letter for letter, and a failure is the text of the
/// evaluator's error. The boundary adds no failure of its own and hides none.
pub proof fn lemma_outcome_mirrors_answer<X: core::fmt::Display>(
    answer: Result<String, X>,
    outcome: Result<String, String>,
)
    requires
        flattened(answer, outcome),
    ensures
        outcome is Ok <==> answer is Ok,
        outcome matches Ok(text) ==> answer == Ok::<String, X>(text),
        outcome matches Err(text) ==> (answer matches Err(error) && renders(error, text)),
{
}

/// A statement that the evaluator accepts succeeds at the boundary, and its text, which is
/// the evaluator's rendering, is not empty. The session is intact afterwards: a statement that
/// the evaluator accepts in the state in which the first one left it succeeds in the same way.
pub proof fn lemma_accepted_statements_succeed<E: Evaluator>(
    step: &mut E,
    input: &str,
    answer: Result<String, E::Error>,
    outcome: Result<String, String>,
    next_step: &mut E,
    next_input: &str,
    next_answer: Result<String, E::Error>,
    next_outcome: Result<String, String>,
)
    requires
        evaluates(step, input, answer),
        flattened(answer, outcome),
        accepts(*step, input),
        *next_step == *final(step),
        evaluates(next_step, next_input, next_answer),
        flattened(next_answer, next_outcome),
        accepts(*next_step, next_input),
    ensures
        outcome matches Ok(text) && text@.len() > 0 && answer == Ok::<String, E::Error>(text),
        next_outcome matches Ok(text) && text@.len() > 0 && next_answer == Ok::<
            String,
            E::Error,
        >(text),
{
}

/// A statement that the evaluator rejects comes back as a failure whose text is that of the
/// evaluator's error, and the session stays usable: a statement that the evaluator accepts in
/// the state in which the rejected one left it succeeds.
pub proof fn lemma_session_survives_rejection<E: Evaluator>(
    step: &mut E,
    input: &str,
    answer: Result<String, E::Error>,
    outcome: Result<String, String>,
    next_step: &mut E,
    next_input: &str,
    next_answer: Result<String, E::Error>,
    next_outcome: Result<String, String>,
)
    requires
        evaluates(step, input, answer),
        flattened(answer, outcome),
        rejects(*step, input),
        *next_step == *final(step),
        evaluates(next_step, next_input, next_answer),
        flattened(next_answer, next_outcome),
        accepts(*next_step, next_input),
    ensures
        outcome matches Err(text) && answer matches Err(error) && renders(error, text),
        next_outcome matches Ok(text) && text@.len() > 0 && next_answer == Ok::<
            String,
            E::Error,
        >(text),
{
}

} // verus!
