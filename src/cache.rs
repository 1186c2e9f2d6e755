use vstd::prelude::*;

use crate::gc::GcHandle;
use crate::keyed::find;
use crate::keyed::holds;
use crate::keyed::keyed_map;
use crate::keyed::lemma_keyed_index;
use crate::keyed::lemma_keyed_push;
use crate::keyed::lemma_keyed_remove;
use crate::keyed::lemma_keyed_update;
use crate::keyed::unique;
use crate::keyed::Keyed;
use crate::query::Query;

verus! {

/// `type_id` falls under the filter `t`: every type for `None`, one for `Some`.
pub open spec fn type_matches(t: Option<u64>, type_id: u64) -> bool {
    match t {
        Some(x) => x == type_id,
        None => true,
    }
}

/// The entry forced stale, all else kept.
pub open spec fn invalidated<V>(q: Query<V>) -> Query<V> {
    Query { updated_at: None, ..q }
}

/// Every entry whose type falls under `t` forced stale.
pub open spec fn invalidated_map<V>(m: Map<(u64, u64), Query<V>>, t: Option<u64>) -> Map<(u64, u64), Query<V>> {
    Map::new(
        |p: (u64, u64)| m.contains_key(p),
        |p: (u64, u64)| if type_matches(t, p.0) { invalidated(m[p]) } else { m[p] },
    )
}

/// The change tokens of the stored entries whose type falls under `t`, in storage order.
pub open spec fn busters_of<V>(s: Seq<Keyed<Query<V>>>, t: Option<u64>) -> Seq<u64>
    decreases s.len(),
{
    if s.len() == 0 {
        Seq::<u64>::empty()
    } else {
        let rest = busters_of(s.drop_last(), t);
        if type_matches(t, s.last().type_id) {
            rest.push(s.last().item.buster)
        } else {
            rest
        }
    }
}

proof fn lemma_invalidated_pointwise<V>(s1: Seq<Keyed<Query<V>>>, s2: Seq<Keyed<Query<V>>>, t: Option<u64>)
    requires
        unique(s1),
        s1.len() == s2.len(),
        forall|j: int|
            0 <= j < s1.len() ==> (#[trigger] s2[j]).type_id == s1[j].type_id && s2[j].key == s1[j].key
                && s2[j].item == (if type_matches(t, s1[j].type_id) {
                invalidated(s1[j].item)
            } else {
                s1[j].item
            }),
    ensures
        unique(s2),
        keyed_map(s2) == invalidated_map(keyed_map(s1), t),
{
    assert(unique(s2)) by {
        assert forall|a: int, b: int|
            0 <= a < s2.len() && 0 <= b < s2.len() && #[trigger] s2[a].type_id == #[trigger] s2[b].type_id
                && s2[a].key == s2[b].key implies a == b by {
            assert(s1[a].type_id == s1[b].type_id);
        }
    }
    let m = invalidated_map(keyed_map(s1), t);
    assert forall|p: (u64, u64)| #[trigger] keyed_map(s2).contains_key(p) == m.contains_key(p) by {
        if m.contains_key(p) {
            let j = choose|j: int| holds(s1, j, p);
            assert(holds(s2, j, p));
        }
        if keyed_map(s2).contains_key(p) {
            let j = choose|j: int| holds(s2, j, p);
            assert(holds(s1, j, p));
        }
    }
    assert forall|p: (u64, u64)| #[trigger] keyed_map(s2).contains_key(p) implies keyed_map(s2)[p] == m[p] by {
        let j = choose|j: int| holds(s2, j, p);
        lemma_keyed_index(s2, j);
        lemma_keyed_index(s1, j);
    }
    assert(keyed_map(s2) =~= m);
}

/// The store of all entries, keyed by query type id and key, and of the
/// per-key fetch locks.
pub struct ScopeLookup<V> {
    pub slots: Vec<Keyed<Query<V>>>,
    pub locks: Vec<Keyed<u64>>,
}

impl<V> ScopeLookup<V> {
    /// Keys are unique, and each lock's id is its place in the order the
    /// locks were made, so that no two locks share an id.
    pub open spec fn wf(&self) -> bool {
        &&& unique(self.slots@)
        &&& unique(self.locks@)
        &&& forall|i: int| 0 <= i < self.locks@.len() ==> #[trigger] self.locks@[i].item == i
    }

    /// The stored entries.
    pub open spec fn entries(&self) -> Map<(u64, u64), Query<V>> {
        keyed_map(self.slots@)
    }

    /// The fetch lock handed out for each (type id, key).
    pub open spec fn lock_ids(&self) -> Map<(u64, u64), u64> {
        keyed_map(self.locks@)
    }

    pub fn new() -> (r: Self)
        ensures
            r.wf(),
            r.entries() == Map::<(u64, u64), Query<V>>::empty(),
            r.lock_ids() == Map::<(u64, u64), u64>::empty(),
    {
        let r = ScopeLookup { slots: Vec::new(), locks: Vec::new() };
        assert(r.entries() =~= Map::<(u64, u64), Query<V>>::empty());
        assert(r.lock_ids() =~= Map::<(u64, u64), u64>::empty());
        r
    }

    /// The fetch lock of `(type_id, key)`: created on the first request,
    /// the same one on every later request, and never that of another key.
    pub fn fetcher_mutex(&mut self, type_id: u64, key: u64) -> (r: u64)
        requires
            old(self).wf(),
        ensures
            final(self).wf(),
            final(self).entries() == old(self).entries(),
            final(self).lock_ids() == old(self).lock_ids().insert((type_id, key), r),
            old(self).lock_ids().contains_key((type_id, key)) ==> r == old(self).lock_ids()[(
                type_id,
                key,
            )],
            !old(self).lock_ids().contains_key((type_id, key)) ==> forall|p: (u64, u64)|
                #[trigger] old(self).lock_ids().contains_key(p) ==> old(self).lock_ids()[p] != r,
    {
        match find(&self.locks, type_id, key) {
            Some(i) => {
                proof {
                    lemma_keyed_index(self.locks@, i as int);
                }
                assert(self.lock_ids() =~= old(self).lock_ids().insert((type_id, key), self.locks@[i as int].item));
                self.locks[i].item
            },
            None => {
                let lock = self.locks.len() as u64;
                let entry = Keyed { type_id, key, item: lock };
                proof {
                    assert forall|p: (u64, u64)| #[trigger] old(self).lock_ids().contains_key(p) implies old(
                        self,
                    ).lock_ids()[p] != lock by {
                        let j = choose|j: int| holds(old(self).locks@, j, p);
                        lemma_keyed_index(old(self).locks@, j);
                    }
                    lemma_keyed_push(self.locks@, entry);
                }
                self.locks.push(entry);
                lock
            },
        }
    }

    /// The entry of `(type_id, key)`, if there is one.
    pub fn with_cached_query(&self, type_id: u64, key: u64) -> (r: Option<&Query<V>>)
        requires
            self.wf(),
        ensures
            match r {
                Some(q) => self.entries().contains_key((type_id, key)) && *q == self.entries()[(
                    type_id,
                    key,
                )],
                None => !self.entries().contains_key((type_id, key)),
            },
    {
        match find(&self.slots, type_id, key) {
            Some(i) => {
                proof {
                    lemma_keyed_index(self.slots@, i as int);
                }
                Some(&self.slots[i].item)
            },
            None => None,
        }
    }

    /// Takes the entry of `(type_id, key)` out of the store.
    pub fn remove_query(&mut self, type_id: u64, key: u64) -> (r: Option<Query<V>>)
        requires
            old(self).wf(),
        ensures
            final(self).wf(),
            final(self).entries() == old(self).entries().remove((type_id, key)),
            final(self).lock_ids() == old(self).lock_ids(),
            match r {
                Some(q) => old(self).entries().contains_key((type_id, key)) && q == old(self).entries()[(
                    type_id,
                    key,
                )],
                None => !old(self).entries().contains_key((type_id, key)),
            },
    {
        match find(&self.slots, type_id, key) {
            Some(i) => {
                proof {
                    lemma_keyed_index(self.slots@, i as int);
                    lemma_keyed_remove(self.slots@, i as int);
                }
                let slot = self.slots.remove(i);
                Some(slot.item)
            },
            None => {
                assert(old(self).entries().remove((type_id, key)) =~= old(self).entries());
                None
            },
        }
    }

    /// Stores `q` under `(type_id, key)`, in place of any entry there.
    pub fn insert_query(&mut self, type_id: u64, key: u64, q: Query<V>) -> (r: Option<Query<V>>)
        requires
            old(self).wf(),
        ensures
            final(self).wf(),
            final(self).entries() == old(self).entries().insert((type_id, key), q),
            final(self).lock_ids() == old(self).lock_ids(),
            match r {
                Some(o) => old(self).entries().contains_key((type_id, key)) && o == old(self).entries()[(
                    type_id,
                    key,
                )],
                None => !old(self).entries().contains_key((type_id, key)),
            },
    {
        let replaced = self.remove_query(type_id, key);
        let slot = Keyed { type_id, key, item: q };
        proof {
            lemma_keyed_push(self.slots@, slot);
        }
        self.slots.push(slot);
        assert(self.entries() =~= old(self).entries().insert((type_id, key), q));
        replaced
    }

    /// A gc timer fired: evicts the entry of `(type_id, key)` if the timer
    /// is still the one armed for it. Returns whether it evicted.
    pub fn gc_query(&mut self, type_id: u64, key: u64, handle: u64) -> (r: bool)
        requires
            old(self).wf(),
        ensures
            final(self).wf(),
            final(self).lock_ids() == old(self).lock_ids(),
            r == (old(self).entries().contains_key((type_id, key)) && old(self).entries()[(
                type_id,
                key,
            )].gc_handle() == GcHandle::Armed { handle }),
            r ==> final(self).entries() == old(self).entries().remove((type_id, key)),
            !r ==> final(self).entries() == old(self).entries(),
    {
        match find(&self.slots, type_id, key) {
            Some(i) => {
                proof {
                    lemma_keyed_index(self.slots@, i as int);
                }
                let fire = match self.slots[i].item.value_maybe_stale.gc_handle {
                    GcHandle::Armed { handle: h } => h == handle,
                    GcHandle::Inert => false,
                };
                if fire {
                    proof {
                        lemma_keyed_remove(self.slots@, i as int);
                    }
                    self.slots.remove(i);
                }
                fire
            },
            None => false,
        }
    }

    /// Forces the entry of `(type_id, key)` stale; returns its change token,
    /// or `None` where there is no such entry.
    pub fn invalidate_query(&mut self, type_id: u64, key: u64) -> (r: Option<u64>)
        requires
            old(self).wf(),
        ensures
            final(self).wf(),
            final(self).lock_ids() == old(self).lock_ids(),
            match r {
                Some(b) => {
                    &&& old(self).entries().contains_key((type_id, key))
                    &&& b == old(self).entries()[(type_id, key)].buster
                    &&& final(self).entries() == old(self).entries().insert(
                        (type_id, key),
                        invalidated(old(self).entries()[(type_id, key)]),
                    )
                },
                None => !old(self).entries().contains_key((type_id, key)) && final(self).entries()
                    == old(self).entries(),
            },
    {
        match find(&self.slots, type_id, key) {
            Some(i) => {
                proof {
                    lemma_keyed_index(self.slots@, i as int);
                }
                let ghost s0 = self.slots@;
                let mut slot = self.slots.remove(i);
                slot.item.invalidate();
                let b = slot.item.buster;
                self.slots.insert(i, slot);
                proof {
                    assert(self.slots@ =~= s0.update(i as int, slot));
                    lemma_keyed_update(s0, i as int, slot);
                }
                Some(b)
            },
            None => None,
        }
    }

    /// Forces every entry whose type falls under `t` stale; returns their
    /// change tokens.
    pub fn invalidate_matching(&mut self, t: Option<u64>) -> (r: Vec<u64>)
        requires
            old(self).wf(),
        ensures
            final(self).wf(),
            final(self).lock_ids() == old(self).lock_ids(),
            final(self).entries() == invalidated_map(old(self).entries(), t),
            r@ == busters_of(old(self).slots@, t),
    {
        let ghost s0 = self.slots@;
        let mut out: Vec<u64> = Vec::new();
        let n = self.slots.len();
        let mut i: usize = 0;
        while i < n
            invariant
                n == s0.len(),
                i <= n,
                self.slots@.len() == n,
                self.locks == old(self).locks,
                unique(s0),
                forall|j: int|
                    0 <= j < n ==> (#[trigger] self.slots@[j]).type_id == s0[j].type_id
                        && self.slots@[j].key == s0[j].key,
                forall|j: int|
                    0 <= j < i ==> (#[trigger] self.slots@[j]).item == (if type_matches(
                        t,
                        s0[j].type_id,
                    ) {
                        invalidated(s0[j].item)
                    } else {
                        s0[j].item
                    }),
                forall|j: int| i <= j < n ==> #[trigger] self.slots@[j] == s0[j],
                out@ == busters_of(s0.take(i as int), t),
            decreases n - i,
        {
            let matches = match t {
                Some(x) => x == self.slots[i].type_id,
                None => true,
            };
            if matches {
                let ghost before = self.slots@;
                let mut slot = self.slots.remove(i);
                slot.item.invalidate();
                out.push(slot.item.buster);
                self.slots.insert(i, slot);
                assert(self.slots@ =~= before.update(i as int, slot));
            }
            assert(s0.take(i as int + 1).drop_last() =~= s0.take(i as int));
            i = i + 1;
        }
        assert(s0.take(n as int) =~= s0);
        proof {
            lemma_invalidated_pointwise(s0, self.slots@, t);
        }
        out
    }
}

} // verus!
