use vstd::prelude::*;

use crate::cache::invalidated;
use crate::cache::invalidated_map;
use crate::effects::Effect;
use crate::gc::arm_effects;
use crate::gc::arm_next_id;
use crate::gc::armed_handle;
use crate::gc::cancel_effects;
use crate::gc::GcHandle;
use crate::gc::GcValue;
use crate::query::gc_target_for;
use crate::query::Query;
use crate::query_options::combined;
use crate::query_options::QueryOptions;
use crate::utils::rolled;

verus! {

/// What a client holds, seen as plain values.
pub struct ClientState<V> {
    /// The entries, by (query type id, key).
    pub entries: Map<(u64, u64), Query<V>>,
    /// The fetch locks handed out, by (query type id, key).
    pub locks: Map<(u64, u64), u64>,
    /// The counter that mints tokens, versions and timer handles.
    pub next_id: u64,
    /// Effects not yet handed to the host.
    pub pending: Seq<Effect>,
}

/// What a contended fetcher does once it holds the lock.
#[derive(Debug, Clone, Copy, PartialEq, Eq)]
pub enum FetchPlan {
    /// A fresh entry is there: serve it, fetch nothing.
    UseCached,
    /// A stale entry is there: fetch, store under its token, then notify the token.
    ReplaceStale { buster: u64 },
    /// No entry: fetch.
    Fetch,
}

/// The value cached under `(type_id, key)`, fresh or not.
pub open spec fn cached_value<V>(s: ClientState<V>, type_id: u64, key: u64) -> Option<V> {
    if s.entries.contains_key((type_id, key)) {
        Some(s.entries[(type_id, key)].value())
    } else {
        None
    }
}

/// The value cached under `(type_id, key)` if it is fresh at `now`.
pub open spec fn fresh_value<V>(s: ClientState<V>, type_id: u64, key: u64, now: u64) -> Option<V> {
    if s.entries.contains_key((type_id, key)) && !s.entries[(type_id, key)].is_stale_at(now) {
        Some(s.entries[(type_id, key)].value())
    } else {
        None
    }
}

/// The decision of a fetcher that had to wait for the lock.
pub open spec fn recheck_plan<V>(s: ClientState<V>, type_id: u64, key: u64, now: u64) -> FetchPlan {
    if !s.entries.contains_key((type_id, key)) {
        FetchPlan::Fetch
    } else if s.entries[(type_id, key)].is_stale_at(now) {
        FetchPlan::ReplaceStale { buster: s.entries[(type_id, key)].buster }
    } else {
        FetchPlan::UseCached
    }
}

/// Each entry's timers evict that entry, and are armed exactly where the
/// host has timers and the entry's gc time is under a year.
pub open spec fn targets_consistent<V>(s: ClientState<V>, timers: bool) -> bool {
    forall|p: (u64, u64)|
        #[trigger] s.entries.contains_key(p) ==> s.entries[p].gc_target == gc_target_for(
            s.entries[p].combined_options,
            timers,
            p.0,
            p.1,
        )
}

/// A read of the entry at `(type_id, key)`: its eviction timer restarts,
/// nothing else changes. Nothing happens where there is no entry.
pub open spec fn touch_state<V>(s: ClientState<V>, type_id: u64, key: u64) -> ClientState<V> {
    let p = (type_id, key);
    if s.entries.contains_key(p) {
        let q = s.entries[p];
        let q2 = Query {
            value_maybe_stale: GcValue {
                value: q.value(),
                gc_handle: armed_handle(s.next_id, q.gc_target),
            },
            ..q
        };
        ClientState {
            entries: s.entries.insert(p, q2),
            pending: arm_effects(
                cancel_effects(s.pending, q.gc_handle()),
                s.next_id,
                q.gc_target,
                q.combined_options.spec_gc_time(),
            ),
            next_id: arm_next_id(s.next_id, q.gc_target),
            ..s
        }
    } else {
        s
    }
}

/// Sets `token` to a fresh version.
pub open spec fn notify<V>(s: ClientState<V>, token: u64) -> ClientState<V> {
    ClientState {
        pending: s.pending.push(Effect::Notify { token, version: s.next_id }),
        next_id: rolled(s.next_id),
        ..s
    }
}

/// Notifies each token in turn.
pub open spec fn notify_all<V>(s: ClientState<V>, tokens: Seq<u64>) -> ClientState<V>
    decreases tokens.len(),
{
    if tokens.len() == 0 {
        s
    } else {
        notify(notify_all(s, tokens.drop_last()), tokens.last())
    }
}

/// Takes a fresh value from the counter; it becomes a token.
pub open spec fn minted<V>(s: ClientState<V>) -> ClientState<V> {
    ClientState { next_id: rolled(s.next_id), ..s }
}

/// The handle of the entry at `p`, inert where there is none.
pub open spec fn handle_at<V>(s: ClientState<V>, p: (u64, u64)) -> GcHandle {
    if s.entries.contains_key(p) {
        s.entries[p].gc_handle()
    } else {
        GcHandle::Inert
    }
}

/// The entry that `Query::new` builds when the counter stands at `next_id`.
pub open spec fn new_query<V>(
    options: QueryOptions,
    scope_options: Option<QueryOptions>,
    timers: bool,
    type_id: u64,
    key: u64,
    value: V,
    buster: u64,
    now: u64,
    next_id: u64,
) -> Query<V> {
    let opts = combined(options, scope_options);
    let target = gc_target_for(opts, timers, type_id, key);
    Query {
        value_maybe_stale: GcValue { value, gc_handle: armed_handle(next_id, target) },
        combined_options: opts,
        updated_at: Some(now),
        gc_target: target,
        buster,
    }
}

/// Stores a new entry under `(type_id, key)` with a timer armed; an entry
/// that it replaces has its timer cancelled.
pub open spec fn put_new<V>(
    s: ClientState<V>,
    options: QueryOptions,
    scope_options: Option<QueryOptions>,
    timers: bool,
    type_id: u64,
    key: u64,
    value: V,
    buster: u64,
    now: u64,
) -> ClientState<V> {
    let opts = combined(options, scope_options);
    let target = gc_target_for(opts, timers, type_id, key);
    let q = new_query(options, scope_options, timers, type_id, key, value, buster, now, s.next_id);
    ClientState {
        entries: s.entries.insert((type_id, key), q),
        pending: cancel_effects(
            arm_effects(s.pending, s.next_id, target, opts.spec_gc_time()),
            handle_at(s, (type_id, key)),
        ),
        next_id: arm_next_id(s.next_id, target),
        ..s
    }
}

/// Replaces the value of the existing entry at `p`, stamped `now`, and re-arms its timer.
pub open spec fn replace_value<V>(s: ClientState<V>, p: (u64, u64), value: V, now: u64) -> ClientState<V> {
    let q = s.entries[p];
    let q2 = Query {
        value_maybe_stale: GcValue { value, gc_handle: armed_handle(s.next_id, q.gc_target) },
        updated_at: Some(now),
        ..q
    };
    ClientState {
        entries: s.entries.insert(p, q2),
        pending: arm_effects(
            cancel_effects(s.pending, q.gc_handle()),
            s.next_id,
            q.gc_target,
            q.combined_options.spec_gc_time(),
        ),
        next_id: arm_next_id(s.next_id, q.gc_target),
        ..s
    }
}

/// `set`: an existing entry gets the value and its token is notified; else
/// a new entry is made under a fresh token.
pub open spec fn set_state<V>(
    s: ClientState<V>,
    options: QueryOptions,
    scope_options: Option<QueryOptions>,
    timers: bool,
    type_id: u64,
    key: u64,
    value: V,
    now: u64,
) -> ClientState<V> {
    let p = (type_id, key);
    if s.entries.contains_key(p) {
        notify(replace_value(s, p, value, now), s.entries[p].buster)
    } else {
        put_new(minted(s), options, scope_options, timers, type_id, key, value, s.next_id, now)
    }
}

/// Storing a fetched value: under the supplied token, else the stale
/// entry's token, else a fresh one; a reused stale token is notified after
/// the write.
pub open spec fn store_state<V>(
    s: ClientState<V>,
    options: QueryOptions,
    scope_options: Option<QueryOptions>,
    timers: bool,
    type_id: u64,
    key: u64,
    value: V,
    next_buster: Option<u64>,
    stale_buster: Option<u64>,
    now: u64,
) -> ClientState<V> {
    let s1 = if next_buster is Some || stale_buster is Some { s } else { minted(s) };
    let token = match next_buster {
        Some(b) => b,
        None => match stale_buster {
            Some(b) => b,
            None => s.next_id,
        },
    };
    let s2 = put_new(s1, options, scope_options, timers, type_id, key, value, token, now);
    match stale_buster {
        Some(b) => notify(s2, b),
        None => s2,
    }
}

/// `update` once the modifier has turned the current value into `new_value`.
pub open spec fn update_state<V>(
    s: ClientState<V>,
    options: QueryOptions,
    scope_options: Option<QueryOptions>,
    timers: bool,
    type_id: u64,
    key: u64,
    new_value: Option<V>,
    now: u64,
) -> ClientState<V> {
    let p = (type_id, key);
    if s.entries.contains_key(p) {
        let q = s.entries[p];
        let s1 = ClientState {
            entries: s.entries.remove(p),
            pending: cancel_effects(s.pending, q.gc_handle()),
            ..s
        };
        let s2 = match new_value {
            Some(v) => put_new(s1, options, scope_options, timers, type_id, key, v, q.buster, now),
            None => s1,
        };
        notify(s2, q.buster)
    } else {
        match new_value {
            Some(v) => set_state(s, options, scope_options, timers, type_id, key, v, now),
            None => s,
        }
    }
}

/// Forces one entry stale and notifies its token; nothing where there is no entry.
pub open spec fn invalidate_one_state<V>(s: ClientState<V>, type_id: u64, key: u64) -> ClientState<V> {
    let p = (type_id, key);
    if s.entries.contains_key(p) {
        notify(
            ClientState { entries: s.entries.insert(p, invalidated(s.entries[p])), ..s },
            s.entries[p].buster,
        )
    } else {
        s
    }
}

/// `invalidate_one_state` for each key in turn.
pub open spec fn invalidate_keys_state<V>(s: ClientState<V>, type_id: u64, keys: Seq<u64>) -> ClientState<V>
    decreases keys.len(),
{
    if keys.len() == 0 {
        s
    } else {
        invalidate_one_state(invalidate_keys_state(s, type_id, keys.drop_last()), type_id, keys.last())
    }
}

/// The keys, in order, that have an entry of `type_id`.
pub open spec fn existing_keys<V>(s: ClientState<V>, type_id: u64, keys: Seq<u64>) -> Seq<u64>
    decreases keys.len(),
{
    if keys.len() == 0 {
        Seq::<u64>::empty()
    } else {
        let rest = existing_keys(s, type_id, keys.drop_last());
        if s.entries.contains_key((type_id, keys.last())) {
            rest.push(keys.last())
        } else {
            rest
        }
    }
}

/// Every entry whose type falls under `t` forced stale, then the given tokens notified.
pub open spec fn invalidate_type_state<V>(s: ClientState<V>, t: Option<u64>, tokens: Seq<u64>) -> ClientState<V> {
    notify_all(ClientState { entries: invalidated_map(s.entries, t), ..s }, tokens)
}

/// A gc timer fired: the entry goes if the timer is still the one armed for it.
pub open spec fn gc_state<V>(s: ClientState<V>, type_id: u64, key: u64, handle: u64) -> ClientState<V> {
    let p = (type_id, key);
    if s.entries.contains_key(p) && s.entries[p].gc_handle() == (GcHandle::Armed { handle }) {
        ClientState { entries: s.entries.remove(p), ..s }
    } else {
        s
    }
}

} // verus!
