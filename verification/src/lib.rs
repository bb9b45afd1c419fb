//! A runtime mock-call registry.
//!
//! Test code registers a substitute behavior for a call site named by an
//! identifier, optionally limited to a number of calls; code running in mock
//! mode presents the identifier and the real input, and receives the output
//! the registered behavior produced, or a report that nothing is registered.

use vstd::prelude::*;

pub mod erased;
pub mod laws;
pub mod store;
pub mod when;

pub use store::Budget;
pub use store::Faux;
pub use store::MockCall;
pub use when::WhenHolder;

verus! {

/// Either the real contents of a mockable structure, or the mock context
/// that stands in for them: a store of registered behaviors. The store is
/// mutated only through exclusive borrows, so two overlapping operations on
/// one context are ruled out when the code is built rather than detected
/// while it runs.
pub enum MaybeFaux<T> {
    Real(T),
    Faux(Faux),
}

impl<T> MaybeFaux<T> {
    /// A fresh mock context with nothing registered.
    pub fn faux() -> (r: MaybeFaux<T>)
        ensures
            r matches MaybeFaux::Faux(f) && f.wf() && f.budgets() == Map::<u64, Budget>::empty(),
    {
        MaybeFaux::Faux(Faux::new())
    }
}

} // verus!
