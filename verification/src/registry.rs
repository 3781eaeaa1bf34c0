//! The in-flight download registry: at most one upstream fetch per archive,
//! however many clients ask for it concurrently.

use vstd::prelude::*;

use crate::download::Download;
use crate::req::CrateReq;

verus! {

/// The registry key: the views of a request's name and version.
pub type ReqKey = (Seq<char>, Seq<char>);

/// The map described by a sequence of registry entries, later entries winning.
pub open spec fn entries_map(s: Seq<(CrateReq, Download)>) -> Map<ReqKey, Download>
    decreases s.len(),
{
    if s.len() == 0 {
        Map::empty()
    } else {
        entries_map(s.drop_last()).insert(s.last().0.key(), s.last().1)
    }
}

/// No two entries share a key.
pub open spec fn distinct_keys(s: Seq<(CrateReq, Download)>) -> bool {
    forall|i: int, j: int| 0 <= i < j < s.len() ==> s[i].0.key() != s[j].0.key()
}

proof fn lemma_entries_map_contains(s: Seq<(CrateReq, Download)>, k: ReqKey)
    ensures
        entries_map(s).contains_key(k) <==> exists|i: int| 0 <= i < s.len() && s[i].0.key() == k,
    decreases s.len(),
{
    if s.len() == 0 {
    } else {
        lemma_entries_map_contains(s.drop_last(), k);
        if k == s.last().0.key() {
            assert(s[s.len() - 1].0.key() == k);
        } else {
            if entries_map(s).contains_key(k) {
                let i = choose|i: int|
                    0 <= i < s.drop_last().len() && s.drop_last()[i].0.key() == k;
                assert(s[i].0.key() == k);
            }
            if exists|i: int| 0 <= i < s.len() && s[i].0.key() == k {
                let i = choose|i: int| 0 <= i < s.len() && s[i].0.key() == k;
                assert(i < s.len() - 1);
                assert(s.drop_last()[i].0.key() == k);
            }
        }
    }
}

proof fn lemma_entries_map_value(s: Seq<(CrateReq, Download)>, i: int)
    requires
        distinct_keys(s),
        0 <= i < s.len(),
    ensures
        entries_map(s).contains_key(s[i].0.key()),
        entries_map(s)[s[i].0.key()] == s[i].1,
    decreases s.len(),
{
    if i == s.len() - 1 {
    } else {
        assert(s.drop_last()[i] == s[i]);
        assert(distinct_keys(s.drop_last())) by {
            assert forall|a: int, b: int| 0 <= a < b < s.drop_last().len() implies s.drop_last()[a].0.key()
                != s.drop_last()[b].0.key() by {
                assert(s[a] == s.drop_last()[a]);
                assert(s[b] == s.drop_last()[b]);
            }
        }
        lemma_entries_map_value(s.drop_last(), i);
        assert(s[i].0.key() != s.last().0.key());
    }
}

proof fn lemma_entries_map_remove(s: Seq<(CrateReq, Download)>, i: int)
    requires
        distinct_keys(s),
        0 <= i < s.len(),
    ensures
        entries_map(s.remove(i)) == entries_map(s).remove(s[i].0.key()),
    decreases s.len(),
{
    let k = s[i].0.key();
    assert(distinct_keys(s.drop_last())) by {
        assert forall|a: int, b: int| 0 <= a < b < s.drop_last().len() implies s.drop_last()[a].0.key()
            != s.drop_last()[b].0.key() by {
            assert(s[a] == s.drop_last()[a]);
            assert(s[b] == s.drop_last()[b]);
        }
    }
    if i == s.len() - 1 {
        assert(s.remove(i) =~= s.drop_last());
        lemma_entries_map_contains(s.drop_last(), k);
        assert(!entries_map(s.drop_last()).contains_key(k)) by {
            if exists|j: int| 0 <= j < s.drop_last().len() && s.drop_last()[j].0.key() == k {
                let j = choose|j: int|
                    0 <= j < s.drop_last().len() && s.drop_last()[j].0.key() == k;
                assert(s[j].0.key() == s[i].0.key());
            }
        }
        assert(entries_map(s.drop_last()) =~= entries_map(s).remove(k));
    } else {
        lemma_entries_map_remove(s.drop_last(), i);
        assert(s.remove(i).drop_last() =~= s.drop_last().remove(i));
        assert(s.remove(i).last() == s.last());
        assert(entries_map(s.remove(i)) == entries_map(s.drop_last().remove(i)).insert(
            s.last().0.key(),
            s.last().1,
        ));
        assert(s.drop_last()[i] == s[i]);
        assert(k != s.last().0.key());
        assert(entries_map(s.drop_last()).remove(k).insert(s.last().0.key(), s.last().1)
            =~= entries_map(s.drop_last()).insert(s.last().0.key(), s.last().1).remove(k));
    }
}

/// Maps each in-flight request to its download. Insertions and removals go
/// through `get_or_create` and `remove`; the spec-level view is a `Map` from
/// request key to download.
pub struct InFlightRegistry {
    entries: Vec<(CrateReq, Download)>,
}

impl View for InFlightRegistry {
    type V = Map<ReqKey, Download>;

    closed spec fn view(&self) -> Map<ReqKey, Download> {
        entries_map(self.entries@)
    }
}

impl InFlightRegistry {
    /// Entry keys are pairwise distinct.
    pub closed spec fn inv(self) -> bool {
        distinct_keys(self.entries@)
    }

    /// An empty registry.
    pub fn new() -> (r: InFlightRegistry)
        ensures
            r.inv(),
            r@ == Map::<ReqKey, Download>::empty(),
    {
        InFlightRegistry { entries: Vec::new() }
    }

    fn index_of(&self, req: &CrateReq) -> (r: Option<usize>)
        ensures
            match r {
                Some(i) => i < self.entries@.len() && self.entries@[i as int].0.key() == req.key(),
                None => forall|j: int|
                    0 <= j < self.entries@.len() ==> self.entries@[j].0.key() != req.key(),
            },
    {
        let n = self.entries.len();
        for i in 0..n
            invariant
                n == self.entries@.len(),
                forall|j: int| 0 <= j < i ==> self.entries@[j].0.key() != req.key(),
        {
            if self.entries[i].0.same_key(req) {
                return Some(i);
            }
        }
        None
    }

    /// Whether an entry for `req` is in flight.
    pub fn contains(&self, req: &CrateReq) -> (r: bool)
        ensures
            r == self@.contains_key(req.key()),
    {
        proof {
            lemma_entries_map_contains(self.entries@, req.key());
        }
        self.index_of(req).is_some()
    }

    /// The download in flight for `req`, if any.
    pub fn find(&self, req: &CrateReq) -> (r: Option<&Download>)
        requires
            self.inv(),
        ensures
            r is Some <==> self@.contains_key(req.key()),
            r matches Some(d) ==> *d == self@[req.key()],
    {
        proof {
            lemma_entries_map_contains(self.entries@, req.key());
        }
        match self.index_of(req) {
            Some(i) => {
                proof {
                    lemma_entries_map_value(self.entries@, i as int);
                }
                Some(&self.entries[i].1)
            },
            None => None,
        }
    }

    /// The single-flight entry point: if `req` is already in flight nothing
    /// changes and `created` is false; otherwise `fresh` is inserted and
    /// `created` is true. Only the caller that observes `created` starts the
    /// upstream fetch, so each live entry is fetched exactly once.
    pub fn get_or_create(&mut self, req: &CrateReq, fresh: Download) -> (created: bool)
        requires
            old(self).inv(),
        ensures
            final(self).inv(),
            created == !old(self)@.contains_key(req.key()),
            created ==> final(self)@ == old(self)@.insert(req.key(), fresh),
            !created ==> final(self)@ == old(self)@,
            final(self)@.contains_key(req.key()),
    {
        proof {
            lemma_entries_map_contains(self.entries@, req.key());
        }
        match self.index_of(req) {
            Some(_) => false,
            None => {
                let ghost s0 = self.entries@;
                self.entries.push((req.duplicate(), fresh));
                proof {
                    assert(self.entries@.drop_last() =~= s0);
                    assert(self.entries@.last().0.key() == req.key());
                    assert(distinct_keys(self.entries@)) by {
                        assert forall|a: int, b: int|
                            0 <= a < b < self.entries@.len() implies self.entries@[a].0.key()
                            != self.entries@[b].0.key() by {
                            if b == self.entries@.len() - 1 {
                                assert(self.entries@[a] == s0[a]);
                            } else {
                                assert(self.entries@[a] == s0[a]);
                                assert(self.entries@[b] == s0[b]);
                            }
                        }
                    }
                }
                true
            },
        }
    }

    /// Removes the entry for `req` if present; idempotent, and the one way an
    /// entry's lifetime ends.
    pub fn remove(&mut self, req: &CrateReq)
        requires
            old(self).inv(),
        ensures
            final(self).inv(),
            final(self)@ == old(self)@.remove(req.key()),
    {
        proof {
            lemma_entries_map_contains(self.entries@, req.key());
        }
        match self.index_of(req) {
            Some(i) => {
                let ghost s0 = self.entries@;
                proof {
                    lemma_entries_map_remove(s0, i as int);
                }
                self.entries.remove(i);
                proof {
                    assert(distinct_keys(self.entries@)) by {
                        assert forall|a: int, b: int|
                            0 <= a < b < self.entries@.len() implies self.entries@[a].0.key()
                            != self.entries@[b].0.key() by {
                            if a < i as int {
                                assert(self.entries@[a] == s0[a]);
                            } else {
                                assert(self.entries@[a] == s0[a + 1]);
                            }
                            if b < i as int {
                                assert(self.entries@[b] == s0[b]);
                            } else {
                                assert(self.entries@[b] == s0[b + 1]);
                            }
                        }
                    }
                }
            },
            None => {
                proof {
                    assert(!self@.contains_key(req.key()));
                    assert(self@.remove(req.key()) =~= self@);
                }
            },
        }
    }
}

/// The registry transition a `get_or_create` call makes, at the map level.
pub open spec fn get_or_create_next(
    m: Map<ReqKey, Download>,
    k: ReqKey,
    v: Download,
) -> Map<ReqKey, Download> {
    if m.contains_key(k) {
        m
    } else {
        m.insert(k, v)
    }
}

/// Whether a `get_or_create` call on registry state `m` reports `created`.
pub open spec fn get_or_create_creates(m: Map<ReqKey, Download>, k: ReqKey) -> bool {
    !m.contains_key(k)
}

/// The registry state after a burst of `get_or_create` calls, in order.
pub open spec fn run_get_or_create(
    m: Map<ReqKey, Download>,
    ops: Seq<(ReqKey, Download)>,
) -> Map<ReqKey, Download>
    decreases ops.len(),
{
    if ops.len() == 0 {
        m
    } else {
        get_or_create_next(run_get_or_create(m, ops.drop_last()), ops.last().0, ops.last().1)
    }
}

/// How many calls in the burst report `created` for key `k`.
pub open spec fn creations_for(
    m: Map<ReqKey, Download>,
    ops: Seq<(ReqKey, Download)>,
    k: ReqKey,
) -> nat
    decreases ops.len(),
{
    if ops.len() == 0 {
        0
    } else {
        creations_for(m, ops.drop_last(), k) + if ops.last().0 == k && get_or_create_creates(
            run_get_or_create(m, ops.drop_last()),
            k,
        ) {
            1nat
        } else {
            0nat
        }
    }
}

/// An in-flight entry stays in flight across any burst of `get_or_create`
/// calls: only `remove` ends its lifetime.
pub proof fn lemma_entry_persists(
    m: Map<ReqKey, Download>,
    ops: Seq<(ReqKey, Download)>,
    k: ReqKey,
)
    requires
        m.contains_key(k),
    ensures
        run_get_or_create(m, ops).contains_key(k),
    decreases ops.len(),
{
    if ops.len() > 0 {
        lemma_entry_persists(m, ops.drop_last(), k);
    }
}

/// Single-flight: across any interleaving of `get_or_create` calls and for
/// any request, at most one call reports `created` — so at most one upstream
/// fetch is started per live registry entry, and exactly one once some call
/// creates it.
pub proof fn lemma_single_flight(
    m: Map<ReqKey, Download>,
    ops: Seq<(ReqKey, Download)>,
    k: ReqKey,
)
    ensures
        creations_for(m, ops, k) <= 1,
        m.contains_key(k) ==> creations_for(m, ops, k) == 0,
        creations_for(m, ops, k) >= 1 ==> run_get_or_create(m, ops).contains_key(k),
    decreases ops.len(),
{
    if ops.len() > 0 {
        lemma_single_flight(m, ops.drop_last(), k);
        if creations_for(m, ops.drop_last(), k) >= 1 {
            lemma_entry_persists(run_get_or_create(m, ops.drop_last()), seq![ops.last()], k);
            assert(run_get_or_create(m, ops) == get_or_create_next(
                run_get_or_create(m, ops.drop_last()),
                ops.last().0,
                ops.last().1,
            ));
        }
        if m.contains_key(k) {
            lemma_entry_persists(m, ops.drop_last(), k);
        }
        if ops.last().0 == k && get_or_create_creates(run_get_or_create(m, ops.drop_last()), k) {
            assert(run_get_or_create(m, ops).contains_key(k));
        }
    }
}

} // verus!
