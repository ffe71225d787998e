//! The leak guard carried by every bound resource payload.
//!
//! A guard must be consumed through [`dispose_guard`], which is only done by
//! the manager's internal destroy path. A payload whose guard is instead
//! dropped (its resource never reached a destroy path) makes the guard emit
//! a fatal diagnostic at drop time: the safety net against forgetting to
//! route a resource through destruction.

use vstd::prelude::*;

verus! {

/// The disposal-tracking sentinel: a value of `relevant::Relevant` reports a
/// fatal diagnostic if it is dropped rather than explicitly disposed.
#[verifier::external_type_specification]
#[verifier::external_body]
pub struct ExRelevant(relevant::Relevant);

/// Relies on `relevant::Relevant` being a unit marker: constructs a fresh
/// guard that must later be consumed by [`dispose_guard`].
#[verifier::external_body]
pub fn new_guard() -> relevant::Relevant {
    relevant::Relevant
}

/// Relies on `relevant::Relevant::dispose`: consumes the guard and
/// acknowledges disposal, so that no diagnostic is emitted for it.
#[verifier::external_body]
pub fn dispose_guard(guard: relevant::Relevant) {
    guard.dispose()
}

} // verus!
