//! The erased behavior store: a table from call-site identifier to one
//! pending behavior and the budget of calls it may still serve.
//!
//! The store is exact about its bookkeeping — which identifiers hold a
//! pending behavior, with what remaining budget, and how an invocation steps
//! that state — while the behaviors themselves sit behind the type-erasure
//! boundary of `crate::erased` and stay opaque.

use crate::erased::{any_downcast, any_new, erase_fn, erase_fn_once, erased_call, ErasedMock};
use vstd::map::*;
use vstd::prelude::*;

verus! {

/// How many further invocations a registered behavior may serve.
#[derive(Clone, Copy, Debug, PartialEq, Eq, Structural)]
pub enum Budget {
    /// No restriction: the behavior is put back after every call.
    Always,
    /// At most this many further calls; a registration demands at least one.
    Times(u64),
}

impl Budget {
    /// A budget as registration accepts it: a bounded budget starts at one
    /// call or more.
    pub open spec fn valid(self) -> bool {
        match self {
            Budget::Always => true,
            Budget::Times(n) => n >= 1,
        }
    }

    /// The state machine of one registered behavior: the budget left after a
    /// call is served, or `None` when that call was the last one allowed and
    /// the behavior is exhausted.
    pub open spec fn spec_next(self) -> Option<Budget> {
        match self {
            Budget::Always => Some(Budget::Always),
            Budget::Times(n) => if n <= 1 {
                None
            } else {
                Some(Budget::Times((n - 1) as u64))
            },
        }
    }

    /// Steps the budget state machine by one served call.
    pub fn next(self) -> (r: Option<Budget>)
        ensures
            r == self.spec_next(),
    {
        match self {
            Budget::Always => Some(Budget::Always),
            Budget::Times(n) => if n <= 1 {
                None
            } else {
                Some(Budget::Times(n - 1))
            },
        }
    }
}

/// The store after one served call under `id`: the budget of the entry
/// steps once, and an exhausted entry is removed.
pub open spec fn consumed(m: Map<u64, Budget>, id: u64) -> Map<u64, Budget> {
    match m[id].spec_next() {
        Some(b2) => m.insert(id, b2),
        None => m.remove(id),
    }
}

/// The outcome of presenting an identifier and an input to the store.
pub enum MockCall<O> {
    /// A behavior pending under the identifier produced this output.
    Produced(O),
    /// Nothing is pending under the identifier: never registered, already
    /// consumed, or budget exhausted. Callers treat this as fatal.
    NoMock,
    /// A behavior is pending, but was registered under input or output types
    /// other than the ones this call presented: a logic error in the calling
    /// glue, reported apart from a missing behavior. The entry is dropped.
    TypeMismatch,
}

/// One pending registration.
struct Entry {
    id: u64,
    budget: Budget,
    behavior: ErasedMock,
}

/// The behavior store of one mock context. All behaviors live in one table
/// however their input and output types differ; the table is modeled by the
/// map `budgets` from identifier to remaining budget.
pub struct Faux {
    mocks: Vec<Entry>,
}

impl Faux {
    /// Whether some pending entry carries the identifier.
    spec fn has_id(self, k: u64) -> bool {
        exists|i: int| 0 <= i < self.mocks@.len() && self.mocks@[i].id == k
    }

    /// The position of the entry carrying the identifier.
    spec fn idx_of(self, k: u64) -> int {
        choose|i: int| 0 <= i < self.mocks@.len() && self.mocks@[i].id == k
    }

    /// The abstract store: the remaining budget of every pending behavior,
    /// keyed by call-site identifier.
    pub closed spec fn budgets(self) -> Map<u64, Budget> {
        Map::new(|k: u64| self.has_id(k), |k: u64| self.mocks@[self.idx_of(k)].budget)
    }

    /// A well-formed store holds at most one entry per identifier, each with
    /// a valid budget.
    pub closed spec fn wf(self) -> bool {
        &&& forall|i: int, j: int|
            0 <= i < self.mocks@.len() && 0 <= j < self.mocks@.len() && i != j ==> (
            #[trigger] self.mocks@[i]).id != (#[trigger] self.mocks@[j]).id
        &&& forall|i: int|
            0 <= i < self.mocks@.len() ==> (#[trigger] self.mocks@[i]).budget.valid()
    }

    /// An empty store.
    pub fn new() -> (r: Faux)
        ensures
            r.wf(),
            r.budgets() == Map::<u64, Budget>::empty(),
    {
        let r = Faux { mocks: Vec::new() };
        proof {
            assert_maps_equal!(r.budgets(), Map::<u64, Budget>::empty());
        }
        r
    }
}

impl Default for Faux {
    /// The same empty store as `Faux::new`.
    fn default() -> (r: Faux)
        ensures
            r.wf(),
            r.budgets() == Map::<u64, Budget>::empty(),
    {
        Faux::new()
    }
}

impl Faux {
    /// Removing the entry at `i` removes exactly its identifier from the
    /// abstract store.
    proof fn lemma_remove_entry(pre: Faux, post: Faux, i: int, id: u64)
        requires
            pre.wf(),
            0 <= i < pre.mocks@.len(),
            pre.mocks@[i].id == id,
            post.mocks@ == pre.mocks@.remove(i),
        ensures
            post.wf(),
            pre.budgets().contains_key(id),
            pre.budgets()[id] == pre.mocks@[i].budget,
            post.budgets() == pre.budgets().remove(id),
    {
        assert forall|j: int| 0 <= j < post.mocks@.len() implies #[trigger] post.mocks@[j] == (
        if j < i {
            pre.mocks@[j]
        } else {
            pre.mocks@[j + 1]
        }) by {}
        assert(pre.has_id(id));
        assert(pre.idx_of(id) == i) by {
            let i2 = pre.idx_of(id);
            assert(0 <= i2 < pre.mocks@.len() && pre.mocks@[i2].id == id);
        }
        assert_maps_equal!(post.budgets(), pre.budgets().remove(id), k => {
            if k == id {
                if post.has_id(k) {
                    let j = choose|j: int| 0 <= j < post.mocks@.len() && post.mocks@[j].id == k;
                    if j < i {
                        assert(pre.mocks@[j].id == k);
                    } else {
                        assert(pre.mocks@[j + 1].id == k);
                    }
                    assert(false);
                }
            } else {
                if pre.has_id(k) {
                    let mp = pre.idx_of(k);
                    assert(0 <= mp < pre.mocks@.len() && pre.mocks@[mp].id == k);
                    assert(mp != i);
                    if mp < i {
                        assert(post.mocks@[mp].id == k);
                    } else {
                        assert(post.mocks@[mp - 1].id == k);
                    }
                    assert(post.has_id(k));
                    let jp = post.idx_of(k);
                    assert(0 <= jp < post.mocks@.len() && post.mocks@[jp].id == k);
                    let m2: int = if jp < i { jp } else { jp + 1 };
                    assert(post.mocks@[jp] == pre.mocks@[m2]);
                    assert(m2 == mp);
                }
                if post.has_id(k) {
                    let j = choose|j: int| 0 <= j < post.mocks@.len() && post.mocks@[j].id == k;
                    if j < i {
                        assert(pre.mocks@[j].id == k);
                    } else {
                        assert(pre.mocks@[j + 1].id == k);
                    }
                    assert(pre.has_id(k));
                }
            }
        });
    }

    /// Appending an entry whose identifier is absent inserts exactly that
    /// identifier into the abstract store.
    proof fn lemma_push_entry(pre: Faux, post: Faux, e: Entry)
        requires
            pre.wf(),
            !pre.has_id(e.id),
            e.budget.valid(),
            post.mocks@ == pre.mocks@.push(e),
        ensures
            post.wf(),
            post.budgets() == pre.budgets().insert(e.id, e.budget),
    {
        let n = pre.mocks@.len() as int;
        assert forall|j: int| 0 <= j < post.mocks@.len() implies #[trigger] post.mocks@[j] == (
        if j < n {
            pre.mocks@[j]
        } else {
            e
        }) by {}
        assert(post.mocks@[n].id == e.id);
        assert(post.has_id(e.id));
        assert_maps_equal!(post.budgets(), pre.budgets().insert(e.id, e.budget), k => {
            if k == e.id {
                let jp = post.idx_of(k);
                assert(0 <= jp < post.mocks@.len() && post.mocks@[jp].id == k);
                if jp < n {
                    assert(pre.mocks@[jp].id == k);
                    assert(false);
                }
                assert(post.budgets()[k] == e.budget);
            } else {
                if pre.has_id(k) {
                    let mp = pre.idx_of(k);
                    assert(0 <= mp < pre.mocks@.len() && pre.mocks@[mp].id == k);
                    assert(post.mocks@[mp].id == k);
                    assert(post.has_id(k));
                }
                if post.has_id(k) {
                    let jp = post.idx_of(k);
                    assert(0 <= jp < post.mocks@.len() && post.mocks@[jp].id == k);
                    assert(jp != n);
                    assert(pre.mocks@[jp].id == k);
                    assert(pre.has_id(k));
                    let mp = pre.idx_of(k);
                    assert(0 <= mp < pre.mocks@.len() && pre.mocks@[mp].id == k);
                    assert(mp == jp);
                }
            }
        });
    }

    /// Removes and hands back the pending entry under `id`, if any.
    fn take_entry(&mut self, id: u64) -> (r: Option<Entry>)
        requires
            old(self).wf(),
        ensures
            final(self).wf(),
            (r is None) <==> !old(self).budgets().contains_key(id),
            r is None ==> final(self).budgets() == old(self).budgets(),
            r matches Some(e) ==> e.id == id && e.budget == old(self).budgets()[id]
                && e.budget.valid() && final(self).budgets() == old(self).budgets().remove(id),
    {
        let n = self.mocks.len();
        let mut i: usize = 0;
        while i < n
            invariant
                old(self).wf(),
                self.mocks@ == old(self).mocks@,
                n == self.mocks@.len(),
                0 <= i <= n,
                forall|j: int| 0 <= j < i ==> (#[trigger] self.mocks@[j]).id != id,
            decreases n - i,
        {
            if self.mocks[i].id == id {
                let e = self.mocks.remove(i);
                proof {
                    Self::lemma_remove_entry(*old(self), *self, i as int, id);
                }
                return Some(e);
            }
            i += 1;
        }
        proof {
            if self.has_id(id) {
                let j = self.idx_of(id);
                assert(0 <= j < self.mocks@.len() && self.mocks@[j].id == id);
            }
            assert(!old(self).budgets().contains_key(id));
        }
        None
    }

    /// Re-registers an entry under an identifier that holds nothing.
    fn put_entry(&mut self, e: Entry)
        requires
            old(self).wf(),
            !old(self).budgets().contains_key(e.id),
            e.budget.valid(),
        ensures
            final(self).wf(),
            final(self).budgets() == old(self).budgets().insert(e.id, e.budget),
    {
        let ghost ge = e;
        self.mocks.push(e);
        proof {
            Self::lemma_push_entry(*old(self), *self, ge);
        }
    }

    /// Registers `mock` under `id` with the given budget on the checked
    /// lane, replacing whatever was pending under `id` (the last
    /// registration wins).
    pub fn mock_safe<I: 'static, O: 'static, F: Fn(I) -> O + 'static>(
        &mut self,
        id: u64,
        budget: Budget,
        mock: F,
    )
        requires
            old(self).wf(),
            budget.valid(),
            forall|i: I| call_requires(mock, (i,)),
        ensures
            final(self).wf(),
            final(self).budgets() == old(self).budgets().insert(id, budget),
    {
        let behavior = erase_fn(mock);
        let _overwritten = self.take_entry(id);
        self.put_entry(Entry { id, budget, behavior });
        proof {
            assert_maps_equal!(self.budgets(), old(self).budgets().insert(id, budget));
        }
    }

    /// Registers `mock` under `id` for exactly one call on the checked lane,
    /// replacing whatever was pending under `id`.
    pub fn mock_once_safe<I: 'static, O: 'static, F: FnOnce(I) -> O + 'static>(
        &mut self,
        id: u64,
        mock: F,
    )
        requires
            old(self).wf(),
            forall|i: I| call_requires(mock, (i,)),
        ensures
            final(self).wf(),
            final(self).budgets() == old(self).budgets().insert(id, Budget::Times(1)),
    {
        let behavior = erase_fn_once(mock);
        let _overwritten = self.take_entry(id);
        self.put_entry(Entry { id, budget: Budget::Times(1), behavior });
        proof {
            assert_maps_equal!(self.budgets(), old(self).budgets().insert(id, Budget::Times(1)));
        }
    }

    /// Settles one invocation after the erased behavior ran: `outcome` is
    /// what the downcast of the behavior's answer gave, the entry having
    /// been taken out of the store. A recovered output is reported and the
    /// behavior is put back as long as its budget allows further calls; a
    /// failed downcast is reported as a type mismatch and the entry stays
    /// dropped.
    pub fn resolve_call<O>(
        &mut self,
        id: u64,
        budget: Budget,
        behavior: ErasedMock,
        outcome: Option<O>,
    ) -> (r: MockCall<O>)
        requires
            old(self).wf(),
            !old(self).budgets().contains_key(id),
            budget.valid(),
        ensures
            final(self).wf(),
            (r is Produced) <==> (outcome is Some),
            outcome matches Some(o) ==> r == MockCall::Produced(o),
            outcome is None ==> r is TypeMismatch && final(self).budgets() == old(
                self,
            ).budgets(),
            outcome is Some ==> final(self).budgets() == (match budget.spec_next() {
                Some(b2) => old(self).budgets().insert(id, b2),
                None => old(self).budgets(),
            }),
    {
        match outcome {
            None => MockCall::TypeMismatch,
            Some(o) => {
                match budget.next() {
                    Some(b2) => {
                        proof {
                            assert(b2.valid());
                        }
                        self.put_entry(Entry { id, budget: b2, behavior });
                    },
                    None => {},
                }
                MockCall::Produced(o)
            },
        }
    }

    /// Looks up `id` on the checked lane and serves one call: if nothing is
    /// pending the store is untouched and the miss is reported; otherwise
    /// the pending behavior runs on `input`, its budget steps once (an
    /// exhausted entry leaves the store), and the output is handed back —
    /// unless the entry was registered under other types than `I -> O`, in
    /// which case the mismatch is reported and the entry is dropped.
    pub fn safe_call_mock<I: 'static, O: 'static>(&mut self, id: u64, input: I) -> (r: MockCall<
        O,
    >)
        requires
            old(self).wf(),
        ensures
            final(self).wf(),
            (r is NoMock) <==> !old(self).budgets().contains_key(id),
            r is NoMock ==> final(self).budgets() == old(self).budgets(),
            r is TypeMismatch ==> final(self).budgets() == old(self).budgets().remove(id),
            r is Produced ==> old(self).budgets().contains_key(id) && final(self).budgets()
                == consumed(old(self).budgets(), id),
    {
        match self.take_entry(id) {
            None => MockCall::NoMock,
            Some(e) => {
                let budget = e.budget;
                let mut behavior = e.behavior;
                let outcome: Option<O> = match erased_call(&mut behavior, any_new::<I>(input)) {
                    Some(out) => any_downcast::<O>(out),
                    None => None,
                };
                let r = self.resolve_call(id, budget, behavior, outcome);
                proof {
                    if r is Produced {
                        match budget.spec_next() {
                            Some(b2) => {
                                assert_maps_equal!(
                                    old(self).budgets().remove(id).insert(id, b2),
                                    old(self).budgets().insert(id, b2)
                                );
                            },
                            None => {},
                        }
                    }
                }
                r
            },
        }
    }
}

} // verus!
