//! A shell session behind a boundary of plain text.
//!
//! A host that cannot see an interpreter's types still wants to drive it: hand over a
//! statement, get a text back, and know whether the text is a result or an error. This crate
//! is that boundary. [`MorelShell`] owns one [`Evaluator`], passes each statement to it
//! untouched, and reduces the answer to a success text or a failure text with [`flatten`].
//!
//! The evaluator is a parameter. Its methods have no contract in this crate; the session's
//! contracts say what the session adds to, and takes from, whatever the evaluator does:
//! nothing.

pub mod evaluator;
mod fault;
pub mod laws;
pub mod outcome;
pub mod shell;

pub use evaluator::Evaluator;
pub use outcome::flatten;
pub use shell::MorelShell;
