use vstd::prelude::*;

use crate::cache::busters_of;
use crate::cache::ScopeLookup;
use crate::effects::Effect;
use crate::effects::EffectLog;
use crate::model::cached_value;
use crate::model::existing_keys;
use crate::model::fresh_value;
use crate::model::gc_state;
use crate::model::invalidate_keys_state;
use crate::model::invalidate_one_state;
use crate::model::invalidate_type_state;
use crate::model::minted;
use crate::model::notify;
use crate::model::notify_all;
use crate::model::put_new;
use crate::model::recheck_plan;
use crate::model::set_state;
use crate::model::store_state;
use crate::model::targets_consistent;
use crate::model::touch_state;
use crate::model::update_state;
use crate::model::ClientState;
use crate::model::FetchPlan;
use crate::query::Query;
use crate::query_options::QueryOptions;
use crate::query_scope::QueryScope;

verus! {

/// Holds every cached query and manages them: reads, writes, invalidation,
/// eviction and the decisions of fetching.
///
/// Work for the host (notifying change tokens, arming and cancelling gc
/// timers) collects in a log that `take_effects` hands out.
pub struct QueryClient<V> {
    pub scope_lookup: ScopeLookup<V>,
    pub log: EffectLog,
    pub options: QueryOptions,
    /// Whether the host can run deferred callbacks; without them nothing is evicted.
    pub timers: bool,
}

impl<V> View for QueryClient<V> {
    type V = ClientState<V>;

    open spec fn view(&self) -> ClientState<V> {
        ClientState {
            entries: self.scope_lookup.entries(),
            locks: self.scope_lookup.lock_ids(),
            next_id: self.log.next_id,
            pending: self.log.pending@,
        }
    }
}

impl<V> QueryClient<V> {
    pub open spec fn wf(&self) -> bool {
        self.scope_lookup.wf() && targets_consistent(self@, self.timers)
    }

    /// A client with default options, on a host with timers.
    pub fn new() -> (r: Self)
        ensures
            r.wf(),
            r.options.stale_time is None && r.options.gc_time is None,
            r.timers,
            r@.entries.is_empty(),
            r@.locks.is_empty(),
            r@.pending.len() == 0,
    {
        Self::new_with_options(QueryOptions::new())
    }

    /// A client with the given options, on a host with timers.
    pub fn new_with_options(options: QueryOptions) -> (r: Self)
        ensures
            r.wf(),
            r.options == options,
            r.timers,
            r@.entries.is_empty(),
            r@.locks.is_empty(),
            r@.pending.len() == 0,
    {
        QueryClient { scope_lookup: ScopeLookup::new(), log: EffectLog::new(), options, timers: true }
    }

    /// A client for a host without timers (such as a server render): no
    /// entry is ever evicted.
    pub fn new_without_timers(options: QueryOptions) -> (r: Self)
        ensures
            r.wf(),
            r.options == options,
            !r.timers,
            r@.entries.is_empty(),
            r@.locks.is_empty(),
            r@.pending.len() == 0,
    {
        QueryClient { scope_lookup: ScopeLookup::new(), log: EffectLog::new(), options, timers: false }
    }

    /// The client-wide options.
    pub fn options(&self) -> (r: QueryOptions)
        ensures
            r == self.options,
    {
        self.options
    }

    /// Hands out the effects that the host has not yet carried out, in order.
    pub fn take_effects(&mut self) -> (r: Vec<Effect>)
        requires
            old(self).wf(),
        ensures
            final(self).wf(),
            r@ == old(self)@.pending,
            final(self)@ == (ClientState { pending: Seq::<Effect>::empty(), ..old(self)@ }),
            final(self).options == old(self).options,
            final(self).timers == old(self).timers,
    {
        self.log.take()
    }

    /// A fresh change token, for a subscriber that watches a key before
    /// any entry exists; it can later be handed to `store_fetched_at`.
    pub fn new_buster(&mut self) -> (r: u64)
        requires
            old(self).wf(),
        ensures
            final(self).wf(),
            r == old(self)@.next_id,
            final(self)@ == minted(old(self)@),
            final(self).options == old(self).options,
            final(self).timers == old(self).timers,
    {
        self.log.mint()
    }

    fn notify_token(&mut self, token: u64)
        requires
            old(self).wf(),
        ensures
            final(self).wf(),
            final(self)@ == notify(old(self)@, token),
            final(self).options == old(self).options,
            final(self).timers == old(self).timers,
    {
        self.log.notify(token);
    }

    fn notify_each(&mut self, tokens: &Vec<u64>)
        requires
            old(self).wf(),
        ensures
            final(self).wf(),
            final(self)@ == notify_all(old(self)@, tokens@),
            final(self).options == old(self).options,
            final(self).timers == old(self).timers,
    {
        let mut i: usize = 0;
        while i < tokens.len()
            invariant
                self.wf(),
                i <= tokens.len(),
                self@ == notify_all(old(self)@, tokens@.take(i as int)),
                self.options == old(self).options,
                self.timers == old(self).timers,
            decreases tokens.len() - i,
        {
            self.notify_token(tokens[i]);
            assert(tokens@.take(i as int + 1).drop_last() =~= tokens@.take(i as int));
            i = i + 1;
        }
        assert(tokens@.take(tokens.len() as int) =~= tokens@);
    }

    fn put_new_entry(&mut self, scope: &QueryScope, key: u64, value: V, buster: u64, now: u64)
        requires
            old(self).wf(),
        ensures
            final(self).wf(),
            final(self)@ == put_new(
                old(self)@,
                old(self).options,
                scope.scope_options,
                old(self).timers,
                scope.query_type_id,
                key,
                value,
                buster,
                now,
            ),
            final(self).options == old(self).options,
            final(self).timers == old(self).timers,
    {
        let q = Query::new(
            self.options,
            scope.scope_options,
            self.timers,
            scope.query_type_id,
            key,
            value,
            buster,
            now,
            &mut self.log,
        );
        let replaced = self.scope_lookup.insert_query(scope.query_type_id, key, q);
        match replaced {
            Some(old_query) => {
                let mut h = old_query.value_maybe_stale.gc_handle;
                h.cancel(&mut self.log);
            },
            None => {},
        }
    }

    /// Restarts the eviction timer of the entry at `key`, if there is one.
    fn touch(&mut self, scope: &QueryScope, key: u64)
        requires
            old(self).wf(),
        ensures
            final(self).wf(),
            final(self)@ == touch_state(old(self)@, scope.query_type_id, key),
            final(self).options == old(self).options,
            final(self).timers == old(self).timers,
    {
        let tid = scope.query_type_id;
        match self.scope_lookup.remove_query(tid, key) {
            Some(mut q) => {
                let ghost s0 = old(self)@;
                q.rearm(&mut self.log);
                self.scope_lookup.insert_query(tid, key, q);
                assert(self.scope_lookup.entries() =~= s0.entries.insert((tid, key), q));
            },
            None => {
                assert(self.scope_lookup.entries() =~= old(self).scope_lookup.entries());
            },
        }
    }

    /// The cached value of `key`, fresh or stale, without subscribing. The
    /// read restarts the entry's eviction timer.
    pub fn get_cached_query(&mut self, scope: &QueryScope, key: u64) -> (r: Option<&V>)
        requires
            old(self).wf(),
        ensures
            final(self).wf(),
            final(self)@ == touch_state(old(self)@, scope.query_type_id, key),
            match r {
                Some(v) => cached_value(old(self)@, scope.query_type_id, key) == Some(*v),
                None => cached_value(old(self)@, scope.query_type_id, key) is None,
            },
            final(self).options == old(self).options,
            final(self).timers == old(self).timers,
    {
        self.touch(scope, key);
        match self.scope_lookup.with_cached_query(scope.query_type_id, key) {
            Some(q) => Some(q.value_maybe_stale.value()),
            None => None,
        }
    }

    /// Whether an entry exists for `key`.
    pub fn query_exists(&self, scope: &QueryScope, key: u64) -> (r: bool)
        requires
            self.wf(),
        ensures
            r == self@.entries.contains_key((scope.query_type_id, key)),
    {
        match self.scope_lookup.with_cached_query(scope.query_type_id, key) {
            Some(_) => true,
            None => false,
        }
    }

    /// Stores `value` under `key` as of `now`, whatever was there; an
    /// existing entry keeps its token, which is notified.
    pub fn set_query(&mut self, scope: &QueryScope, key: u64, value: V, now: u64)
        requires
            old(self).wf(),
        ensures
            final(self).wf(),
            final(self)@ == set_state(
                old(self)@,
                old(self).options,
                scope.scope_options,
                old(self).timers,
                scope.query_type_id,
                key,
                value,
                now,
            ),
            cached_value(final(self)@, scope.query_type_id, key) == Some(value),
            final(self).options == old(self).options,
            final(self).timers == old(self).timers,
    {
        let tid = scope.query_type_id;
        match self.scope_lookup.remove_query(tid, key) {
            Some(mut q) => {
                let ghost s0 = old(self)@;
                let buster = q.buster;
                q.set_value(value, now, &mut self.log);
                self.scope_lookup.insert_query(tid, key, q);
                assert(self.scope_lookup.entries() =~= s0.entries.insert((tid, key), q));
                self.notify_token(buster);
            },
            None => {
                assert(self.scope_lookup.entries() =~= old(self).scope_lookup.entries());
                let buster = self.log.mint();
                self.put_new_entry(scope, key, value, buster, now);
            },
        }
    }

    /// Runs `modifier` on the current value of `key` (`None` where there is
    /// no entry) and stores what it leaves as of `now`: `None` removes the
    /// entry, `Some` stores the value. The entry's token is notified where
    /// there was an entry. Returns the modifier's second result.
    pub fn update_query<T, F>(&mut self, scope: &QueryScope, key: u64, modifier: F, now: u64) -> (r: T) where
        F: FnOnce(Option<V>) -> (Option<V>, T),
        requires
            old(self).wf(),
            forall|o: Option<V>| #[trigger] modifier.requires((o,)),
        ensures
            final(self).wf(),
            exists|n: Option<V>|
                {
                    &&& modifier.ensures((cached_value(old(self)@, scope.query_type_id, key),), (n, r))
                    &&& final(self)@ == update_state(
                        old(self)@,
                        old(self).options,
                        scope.scope_options,
                        old(self).timers,
                        scope.query_type_id,
                        key,
                        n,
                        now,
                    )
                },
            final(self).options == old(self).options,
            final(self).timers == old(self).timers,
    {
        let tid = scope.query_type_id;
        match self.scope_lookup.remove_query(tid, key) {
            Some(q) => {
                let buster = q.buster;
                let old_value = q.value_maybe_stale.into_value(&mut self.log);
                let (n, r) = modifier(Some(old_value));
                let ghost gn = n;
                match n {
                    Some(v) => {
                        self.put_new_entry(scope, key, v, buster, now);
                    },
                    None => {},
                }
                self.notify_token(buster);
                assert(modifier.ensures((cached_value(old(self)@, tid, key),), (gn, r)));
                assert(self@ == update_state(old(self)@, self.options, scope.scope_options, self.timers, tid, key, gn, now));
                r
            },
            None => {
                assert(self.scope_lookup.entries() =~= old(self).scope_lookup.entries());
                let (n, r) = modifier(None);
                let ghost gn = n;
                match n {
                    Some(v) => {
                        self.set_query(scope, key, v, now);
                    },
                    None => {},
                }
                assert(modifier.ensures((cached_value(old(self)@, tid, key),), (gn, r)));
                assert(self@ == update_state(old(self)@, self.options, scope.scope_options, self.timers, tid, key, gn, now));
                r
            },
        }
    }

    /// Marks the entry of `key` stale and notifies its token; its value stays
    /// readable. Returns whether there was an entry.
    pub fn invalidate_query(&mut self, scope: &QueryScope, key: u64) -> (r: bool)
        requires
            old(self).wf(),
        ensures
            final(self).wf(),
            r == old(self)@.entries.contains_key((scope.query_type_id, key)),
            final(self)@ == invalidate_one_state(old(self)@, scope.query_type_id, key),
            final(self)@.entries.dom() == old(self)@.entries.dom(),
            final(self).options == old(self).options,
            final(self).timers == old(self).timers,
    {
        match self.scope_lookup.invalidate_query(scope.query_type_id, key) {
            Some(buster) => {
                assert(self@.entries.dom() =~= old(self)@.entries.dom());
                self.notify_token(buster);
                true
            },
            None => false,
        }
    }

    /// `invalidate_query` for each key in turn; returns the keys that had an
    /// entry, in the order given.
    pub fn invalidate_queries(&mut self, scope: &QueryScope, keys: &Vec<u64>) -> (r: Vec<u64>)
        requires
            old(self).wf(),
        ensures
            final(self).wf(),
            r@ == existing_keys(old(self)@, scope.query_type_id, keys@),
            final(self)@ == invalidate_keys_state(old(self)@, scope.query_type_id, keys@),
            final(self)@.entries.dom() == old(self)@.entries.dom(),
            final(self).options == old(self).options,
            final(self).timers == old(self).timers,
    {
        let tid = scope.query_type_id;
        let mut out: Vec<u64> = Vec::new();
        let mut i: usize = 0;
        while i < keys.len()
            invariant
                self.wf(),
                tid == scope.query_type_id,
                i <= keys.len(),
                self@ == invalidate_keys_state(old(self)@, tid, keys@.take(i as int)),
                out@ == existing_keys(old(self)@, tid, keys@.take(i as int)),
                self@.entries.dom() == old(self)@.entries.dom(),
                self.options == old(self).options,
                self.timers == old(self).timers,
            decreases keys.len() - i,
        {
            let k = keys[i];
            let ghost before = self@;
            let found = self.invalidate_query(scope, k);
            if found {
                out.push(k);
            }
            assert(keys@.take(i as int + 1).drop_last() =~= keys@.take(i as int));
            assert(keys@.take(i as int + 1).last() == k);
            i = i + 1;
        }
        assert(keys@.take(keys.len() as int) =~= keys@);
        out
    }

    /// Marks every entry of the scope's query type stale and notifies their tokens.
    pub fn invalidate_query_type(&mut self, scope: &QueryScope)
        requires
            old(self).wf(),
        ensures
            final(self).wf(),
            final(self)@ == invalidate_type_state(
                old(self)@,
                Some(scope.query_type_id),
                busters_of(old(self).scope_lookup.slots@, Some(scope.query_type_id)),
            ),
            final(self).options == old(self).options,
            final(self).timers == old(self).timers,
    {
        let busters = self.scope_lookup.invalidate_matching(Some(scope.query_type_id));
        self.notify_each(&busters);
    }

    /// Marks every entry stale and notifies every token.
    pub fn invalidate_all_queries(&mut self)
        requires
            old(self).wf(),
        ensures
            final(self).wf(),
            final(self)@ == invalidate_type_state(
                old(self)@,
                None,
                busters_of(old(self).scope_lookup.slots@, None),
            ),
            final(self).options == old(self).options,
            final(self).timers == old(self).timers,
    {
        let busters = self.scope_lookup.invalidate_matching(None);
        self.notify_each(&busters);
    }

    /// The gc timer armed under `handle` for `(type_id, key)` fired: evicts
    /// the entry if that timer is still its own. Returns whether it evicted.
    pub fn gc_query(&mut self, type_id: u64, key: u64, handle: u64) -> (r: bool)
        requires
            old(self).wf(),
        ensures
            final(self).wf(),
            final(self)@ == gc_state(old(self)@, type_id, key, handle),
            r == (final(self)@ != old(self)@),
            final(self).options == old(self).options,
            final(self).timers == old(self).timers,
    {
        let r = self.scope_lookup.gc_query(type_id, key, handle);
        if r {
            assert(!self@.entries.contains_key((type_id, key)));
        }
        r
    }

    /// The cached value of `key` if it is fresh at `now`: what a fetch
    /// returns without fetching. Serving it restarts the entry's eviction timer.
    pub fn fetch_cached(&mut self, scope: &QueryScope, key: u64, now: u64) -> (r: Option<&V>)
        requires
            old(self).wf(),
        ensures
            final(self).wf(),
            match r {
                Some(v) => {
                    &&& fresh_value(old(self)@, scope.query_type_id, key, now) == Some(*v)
                    &&& final(self)@ == touch_state(old(self)@, scope.query_type_id, key)
                },
                None => {
                    &&& fresh_value(old(self)@, scope.query_type_id, key, now) is None
                    &&& final(self)@ == old(self)@
                },
            },
            final(self).options == old(self).options,
            final(self).timers == old(self).timers,
    {
        let fresh = match self.scope_lookup.with_cached_query(scope.query_type_id, key) {
            Some(q) => !q.stale(now),
            None => false,
        };
        if fresh {
            self.touch(scope, key);
            match self.scope_lookup.with_cached_query(scope.query_type_id, key) {
                Some(q) => Some(q.value_maybe_stale.value()),
                None => None,
            }
        } else {
            None
        }
    }

    /// Whether a prefetch of `key` fetches: only where there is no entry; a
    /// stale entry is left as it is.
    pub fn needs_prefetch(&self, scope: &QueryScope, key: u64) -> (r: bool)
        requires
            self.wf(),
        ensures
            r == !self@.entries.contains_key((scope.query_type_id, key)),
    {
        !self.query_exists(scope, key)
    }

    /// The fetch lock of `key`: made on the first request, the same one
    /// ever after, and never the lock of another key.
    pub fn fetcher_mutex(&mut self, scope: &QueryScope, key: u64) -> (r: u64)
        requires
            old(self).wf(),
        ensures
            final(self).wf(),
            final(self)@ == (ClientState {
                locks: old(self)@.locks.insert((scope.query_type_id, key), r),
                ..old(self)@
            }),
            old(self)@.locks.contains_key((scope.query_type_id, key)) ==> r == old(self)@.locks[(
                scope.query_type_id,
                key,
            )],
            !old(self)@.locks.contains_key((scope.query_type_id, key)) ==> forall|p: (u64, u64)|
                #[trigger] old(self)@.locks.contains_key(p) ==> old(self)@.locks[p] != r,
            final(self).options == old(self).options,
            final(self).timers == old(self).timers,
    {
        self.scope_lookup.fetcher_mutex(scope.query_type_id, key)
    }

    /// What a fetcher that had to wait for the lock of `key` does at `now`:
    /// serve a fresh entry, replace a stale one under its token, or fetch.
    pub fn recheck_after_wait_at(&self, scope: &QueryScope, key: u64, now: u64) -> (r: FetchPlan)
        requires
            self.wf(),
        ensures
            r == recheck_plan(self@, scope.query_type_id, key, now),
    {
        match self.scope_lookup.with_cached_query(scope.query_type_id, key) {
            Some(q) => {
                if q.stale(now) {
                    FetchPlan::ReplaceStale { buster: q.buster }
                } else {
                    FetchPlan::UseCached
                }
            },
            None => FetchPlan::Fetch,
        }
    }

    /// Stores a fetched value under `key` as of `now`. Its token is
    /// `next_buster` if given, else `stale_buster`, else a fresh one; a
    /// `stale_buster` is notified after the value is stored.
    pub fn store_fetched_at(
        &mut self,
        scope: &QueryScope,
        key: u64,
        value: V,
        next_buster: Option<u64>,
        stale_buster: Option<u64>,
        now: u64,
    )
        requires
            old(self).wf(),
        ensures
            final(self).wf(),
            final(self)@ == store_state(
                old(self)@,
                old(self).options,
                scope.scope_options,
                old(self).timers,
                scope.query_type_id,
                key,
                value,
                next_buster,
                stale_buster,
                now,
            ),
            cached_value(final(self)@, scope.query_type_id, key) == Some(value),
            final(self).options == old(self).options,
            final(self).timers == old(self).timers,
    {
        let token = match next_buster {
            Some(b) => b,
            None => match stale_buster {
                Some(b) => b,
                None => self.log.mint(),
            },
        };
        self.put_new_entry(scope, key, value, token, now);
        match stale_buster {
            Some(b) => {
                self.notify_token(b);
            },
            None => {},
        }
    }
}

} // verus!
