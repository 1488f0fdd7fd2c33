//! The session: one evaluator behind a boundary that speaks only text.

use crate::evaluator::{evaluates, starts_from_default, Evaluator};
use crate::fault::install_panic_hook;
use crate::outcome::{flatten, flattened};
use vstd::prelude::*;

verus! {

/// A shell session for a host that knows nothing of the evaluator's types.
///
/// The session owns exactly one evaluator, and nothing else reaches it. The host hands over one
/// complete statement at a time and gets one text back, marked as success or failure. Bindings
/// that a statement makes are there for the statements that follow on the same session, and on
/// no other. The session ends when the host drops it; there is nothing to close.
pub struct MorelShell<E: Evaluator>(E);

/// A session is modelled by the evaluator that it owns: `shell@`.
impl<E: Evaluator> View for MorelShell<E> {
    type V = E;

    closed spec fn view(&self) -> E {
        self.0
    }
}

impl<E: Evaluator> MorelShell<E> {
    /// Starts a session on an evaluator that is set up from the default configuration.
    ///
    /// Takes nothing from the host and cannot fail. Before the evaluator is made, the panic
    /// hook is installed for the process, unless an earlier session has done so already.
    pub fn new() -> (shell: Self)
        ensures
            starts_from_default(shell@),
    {
        install_panic_hook();
        let config = E::Config::default();
        MorelShell(E::with_config(config))
    }

    /// Hands one complete statement, which must end in a newline, to the evaluator and gives
    /// back its rendered result on success, or the text of its error on failure.
    ///
    /// The evaluator is run once, on `input` as it stands and without context. The session
    /// does not look into the statement, does not try again, and takes nothing back: whatever
    /// the run did to the evaluator is what the next statement finds.
    pub fn process_statement(&mut self, input: &str) -> (outcome: Result<String, String>)
        ensures
            exists|step: &mut E, answer: Result<String, E::Error>|
                *step == old(self)@ && *final(step) == final(self)@
                    && #[trigger] evaluates(step, input, answer) && flattened(answer, outcome),
    {
        flatten(self.0.process(input, None))
    }
}

} // verus!
