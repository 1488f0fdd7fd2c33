//! Faults that no error value can carry: a panic inside the evaluator or the session.

use vstd::prelude::*;

verus! {

/// Makes sure that a panic in this process is reported where the host can see it.
///
/// Calls `console_error_panic_hook::set_once`. That function registers the crate's hook with
/// `std::panic::set_hook` inside a `std::sync::Once`, so the first call in a process installs
/// the hook and every later call does nothing. The hook writes the panic's message to
/// `console.error` on `wasm32` and to standard error elsewhere.
///
/// Nothing is claimed of the call: it returns no value, and the hook is state of the process,
/// of which no contract here speaks. `std::panic::set_hook` panics on a thread that is already
/// panicking, so this is not for use while unwinding.
#[verifier::external_body]
pub(crate) fn install_panic_hook() {
    console_error_panic_hook::set_once();
}

} // verus!
