//! The interpreter behind a session, as far as a session needs to know it.

use vstd::prelude::*;

verus! {

/// An interpreter that reads one statement at a time and keeps its bindings in between.
///
/// A session owns one evaluator and is the only caller it has. The language, the shape of a
/// configuration and the structure of an error are the implementation's business; a session asks
/// only for a configuration that has a default, for errors that can be shown as text, and for
/// the two operations below.
///
/// Neither operation carries a contract here, so nothing is taken on trust from an
/// implementation. What a session promises is stated over the contract that the implementation
/// itself gives them: see [`starts_from_default`] and [`evaluates`].
pub trait Evaluator: Sized {
    /// How an evaluator is set up. Its default must need nothing from the host: no file system,
    /// no environment, no working directory.
    type Config: Default;

    /// What may accompany a statement besides its text. A session never supplies any.
    type Context;

    /// What the evaluator reports for a statement that it cannot carry out.
    type Error: core::fmt::Display;

    /// Makes an evaluator without bindings, set up as `config` says.
    fn with_config(config: Self::Config) -> Self;

    /// Carries out one complete statement and gives back its rendered result, or the reason why
    /// it could not. Bindings that the statement makes stay for the statements after it.
    fn process(&mut self, input: &str, context: Option<Self::Context>) -> Result<
        String,
        Self::Error,
    >;
}

/// `evaluator` is what `with_config` may make of a default configuration.
pub open spec fn starts_from_default<E: Evaluator>(evaluator: E) -> bool {
    exists|config: E::Config|
        call_ensures(<E::Config as Default>::default, (), config) && #[trigger] call_ensures(
            E::with_config,
            (config,),
            evaluator,
        )
}

/// `step` is one run of `process` on the text `input`, as it stands and with no context, that
/// ends with `answer`. The evaluator is `*step` when the run begins and `*final(step)` when it
/// is over.
#[verifier::inline]
pub open spec fn evaluates<E: Evaluator>(
    step: &mut E,
    input: &str,
    answer: Result<String, E::Error>,
) -> bool {
    call_ensures(E::process, (step, input, None::<E::Context>), answer)
}

/// In `state` the evaluator can answer `input` only with a rendering, and never with an empty
/// one.
pub open spec fn accepts<E: Evaluator>(state: E, input: &str) -> bool {
    forall|step: &mut E, answer: Result<String, E::Error>|
        *step == state && #[trigger] evaluates(step, input, answer) ==> (answer matches Ok(text)
            && text@.len() > 0)
}

/// In `state` the evaluator can answer `input` only with an error.
pub open spec fn rejects<E: Evaluator>(state: E, input: &str) -> bool {
    forall|step: &mut E, answer: Result<String, E::Error>|
        *step == state && #[trigger] evaluates(step, input, answer) ==> answer is Err
}

} // verus!
