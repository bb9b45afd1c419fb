//! Laws of the registry, stated over the abstract store (`Faux::budgets`)
//! and the step function `consumed` that the contract of
//! `Faux::safe_call_mock` is written with. Registration inserts a budget
//! under an identifier (`mock_safe`, `mock_once_safe`,
//! `WhenHolder::safe_then`); each served call steps the store by `consumed`;
//! a lookup under an identifier the store does not contain reports no
//! behavior.

use crate::store::{consumed, Budget};
use vstd::map::*;
use vstd::prelude::*;

verus! {

/// The store after `n` consecutive served calls under `id`.
pub open spec fn consumed_n(m: Map<u64, Budget>, id: u64, n: nat) -> Map<u64, Budget>
    decreases n,
{
    if n == 0 {
        m
    } else {
        consumed(consumed_n(m, id, (n - 1) as nat), id)
    }
}

/// Consume-once: a behavior registered for exactly one call serves that one
/// call and is gone — afterwards the store holds nothing under the
/// identifier, so a second lookup with no intervening registration reports
/// no behavior.
pub proof fn lemma_consume_once(m: Map<u64, Budget>, id: u64)
    requires
        m.contains_key(id),
        m[id] == Budget::Times(1),
    ensures
        consumed(m, id) == m.remove(id),
        !consumed(m, id).contains_key(id),
{
}

/// Identifier isolation: registering under one identifier, or serving a
/// call under it, never changes what any other identifier holds.
pub proof fn lemma_identifier_isolation(m: Map<u64, Budget>, id1: u64, id2: u64, b: Budget)
    requires
        id1 != id2,
    ensures
        m.insert(id1, b).contains_key(id2) == m.contains_key(id2),
        m.contains_key(id2) ==> m.insert(id1, b)[id2] == m[id2],
        consumed(m, id1).contains_key(id2) == m.contains_key(id2),
        m.contains_key(id2) ==> consumed(m, id1)[id2] == m[id2],
{
}

/// Serving calls under one identifier leaves every other identifier alone,
/// however many calls are served.
pub proof fn lemma_consumed_n_frame(m: Map<u64, Budget>, id: u64, n: nat, k: u64)
    requires
        k != id,
    ensures
        consumed_n(m, id, n).contains_key(k) == m.contains_key(k),
        m.contains_key(k) ==> consumed_n(m, id, n)[k] == m[k],
    decreases n,
{
    if n > 0 {
        lemma_consumed_n_frame(m, id, (n - 1) as nat, k);
    }
}

/// Unbounded repeatability: with no budget restriction the entry survives
/// any number of served calls unchanged, so every one of them finds the
/// behavior pending.
pub proof fn lemma_unbounded_repeatability(m: Map<u64, Budget>, id: u64, n: nat)
    requires
        m.contains_key(id),
        m[id] == Budget::Always,
    ensures
        consumed_n(m, id, n) == m,
        consumed_n(m, id, n).contains_key(id),
    decreases n,
{
    if n > 0 {
        lemma_unbounded_repeatability(m, id, (n - 1) as nat);
        assert(consumed(m, id) =~= m);
    }
}

/// Bounded budget, counting down: after a registration for `n` calls, each
/// of the first `n` served calls finds the behavior pending, with exactly
/// `n - k` calls left before the `k`-th of them.
pub proof fn lemma_bounded_budget(m: Map<u64, Budget>, id: u64, n: u64, k: u64)
    requires
        m.contains_key(id),
        m[id] == Budget::Times(n),
        1 <= n,
        k < n,
    ensures
        consumed_n(m, id, k as nat).contains_key(id),
        consumed_n(m, id, k as nat)[id] == Budget::Times((n - k) as u64),
    decreases k,
{
    if k > 0 {
        lemma_bounded_budget(m, id, n, (k - 1) as u64);
    }
}

/// Bounded budget, exhaustion: after a registration for `n` calls, the
/// `n`-th served call removes the entry — the store is then exactly the
/// store without the identifier, and the next lookup reports no behavior.
pub proof fn lemma_bounded_exhaustion(m: Map<u64, Budget>, id: u64, n: u64)
    requires
        m.contains_key(id),
        m[id] == Budget::Times(n),
        1 <= n,
    ensures
        consumed_n(m, id, n as nat) == m.remove(id),
        !consumed_n(m, id, n as nat).contains_key(id),
{
    if n == 1 {
        assert(consumed_n(m, id, 1) == consumed(consumed_n(m, id, 0), id));
    } else {
        lemma_bounded_budget(m, id, n, (n - 1) as u64);
        let mprev = consumed_n(m, id, (n - 1) as nat);
        assert(consumed_n(m, id, n as nat) == consumed(mprev, id));
        assert(consumed(mprev, id) == mprev.remove(id));
        assert_maps_equal!(mprev.remove(id), m.remove(id), k => {
            if k != id {
                lemma_consumed_n_frame(m, id, (n - 1) as nat, k);
            }
        });
    }
}

/// Single-shot: registering with a bound of one call inserts the same entry
/// as the one-shot convenience does, and behaves as the bounded case with
/// `n = 1` — the first served call removes the entry, and the store is then
/// exactly the store without the identifier.
pub proof fn lemma_single_shot(m: Map<u64, Budget>, id: u64)
    ensures
        ({
            let m1 = m.insert(id, Budget::Times(1));
            &&& m1.contains_key(id)
            &&& m1[id] == Budget::Times(1)
            &&& consumed_n(m1, id, 1) == m.remove(id)
            &&& !consumed_n(m1, id, 1).contains_key(id)
        }),
{
    let m1 = m.insert(id, Budget::Times(1));
    lemma_bounded_exhaustion(m1, id, 1);
    assert_maps_equal!(m1.remove(id), m.remove(id));
}

} // verus!
