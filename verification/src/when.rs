//! The registration handle: a short-lived builder that binds one call-site
//! identifier, picks a call budget, and finally stores a behavior.

use crate::store::{Budget, Faux};
use vstd::prelude::*;

verus! {

/// A builder for one registration: it carries the call-site identifier and
/// the budget under which the behavior will be stored. Without a restriction
/// the behavior serves any number of calls.
pub struct WhenHolder {
    pub id: u64,
    pub budget: Budget,
}

impl WhenHolder {
    /// A handle for the call site named by `id`, with no budget restriction.
    pub fn new(id: u64) -> (r: WhenHolder)
        ensures
            r.id == id,
            r.budget == Budget::Always,
    {
        WhenHolder { id, budget: Budget::Always }
    }

    /// Restricts the registration to at most `n` served calls.
    pub fn times(self, n: u64) -> (r: WhenHolder)
        requires
            n >= 1,
        ensures
            r.id == self.id,
            r.budget == Budget::Times(n),
    {
        WhenHolder { id: self.id, budget: Budget::Times(n) }
    }

    /// The one-shot convenience: the same registration as `times(1)`.
    pub fn once(self) -> (r: WhenHolder)
        ensures
            r.id == self.id,
            r.budget == Budget::Times(1),
    {
        self.times(1)
    }

    /// Stores `mock` in the given store under the handle's identifier and
    /// budget, replacing whatever was pending under that identifier.
    pub fn safe_then<I: 'static, O: 'static, F: Fn(I) -> O + 'static>(
        self,
        faux: &mut Faux,
        mock: F,
    )
        requires
            old(faux).wf(),
            self.budget.valid(),
            forall|i: I| call_requires(mock, (i,)),
        ensures
            final(faux).wf(),
            final(faux).budgets() == old(faux).budgets().insert(self.id, self.budget),
    {
        faux.mock_safe(self.id, self.budget, mock)
    }
}

} // verus!
