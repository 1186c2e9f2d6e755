use vstd::prelude::*;

use crate::effects::Effect;
use crate::gc::GcHandle;
use crate::model::cached_value;
use crate::model::fresh_value;
use crate::model::gc_state;
use crate::model::invalidate_one_state;
use crate::model::recheck_plan;
use crate::model::set_state;
use crate::model::store_state;
use crate::model::targets_consistent;
use crate::model::touch_state;
use crate::model::ClientState;
use crate::model::FetchPlan;
use crate::query::GC_NEVER_FROM;
use crate::query_options::combined;
use crate::query_options::QueryOptions;
use crate::utils::rolled;

verus! {

/// Callers that found the lock of a key taken while the first caller
/// fetched it do not fetch again: once the first has stored its value,
/// each of them, rechecking before that value goes stale, is served the very
/// same value. So a key with no entry sees one upstream call, whatever the
/// number of concurrent callers.
pub proof fn lemma_waiters_share_one_fetch<V>(
    s: ClientState<V>,
    options: QueryOptions,
    scope_options: Option<QueryOptions>,
    timers: bool,
    type_id: u64,
    key: u64,
    value: V,
    next_buster: Option<u64>,
    now: u64,
    later: u64,
)
    requires
        !s.entries.contains_key((type_id, key)),
        now <= later,
        later <= now + combined(options, scope_options).spec_stale_time(),
    ensures
        ({
            let s2 = store_state(
                s,
                options,
                scope_options,
                timers,
                type_id,
                key,
                value,
                next_buster,
                None,
                now,
            );
            &&& recheck_plan(s2, type_id, key, later) == FetchPlan::UseCached
            &&& cached_value(s2, type_id, key) == Some(value)
            &&& fresh_value(s2, type_id, key, later) == Some(value)
        }),
{
}

/// Invalidating a key keeps its value readable, but no fetch is served
/// from it any more: a fetch at any time goes upstream, and a waiting
/// fetcher replaces it under its old token.
pub proof fn lemma_invalidate_keeps_value_forces_refetch<V>(
    s: ClientState<V>,
    type_id: u64,
    key: u64,
    now: u64,
)
    ensures
        ({
            let s2 = invalidate_one_state(s, type_id, key);
            &&& cached_value(s2, type_id, key) == cached_value(s, type_id, key)
            &&& fresh_value(s2, type_id, key, now) is None
            &&& s.entries.contains_key((type_id, key)) ==> recheck_plan(s2, type_id, key, now)
                == (FetchPlan::ReplaceStale { buster: s.entries[(type_id, key)].buster })
        }),
{
}

/// After `set(key, value)` the cached value of `key` is `value`, whatever
/// was there before.
pub proof fn lemma_set_then_get<V>(
    s: ClientState<V>,
    options: QueryOptions,
    scope_options: Option<QueryOptions>,
    timers: bool,
    type_id: u64,
    key: u64,
    value: V,
    now: u64,
)
    ensures
        cached_value(
            set_state(s, options, scope_options, timers, type_id, key, value, now),
            type_id,
            key,
        ) == Some(value),
{
}

/// An entry set at `now` is stale at `later` exactly when more than its
/// stale time has passed since `now`.
pub proof fn lemma_stale_after_stale_time<V>(
    s: ClientState<V>,
    options: QueryOptions,
    scope_options: Option<QueryOptions>,
    timers: bool,
    type_id: u64,
    key: u64,
    value: V,
    now: u64,
    later: u64,
)
    ensures
        ({
            let q = set_state(s, options, scope_options, timers, type_id, key, value, now).entries[(
                type_id,
                key,
            )];
            &&& q.updated_at == Some(now)
            &&& q.is_stale_at(later) <==> later > now + q.combined_options.spec_stale_time()
        }),
{
}

/// Setting a key on a host with timers arms a timer for the entry's gc time
/// (an entry that already existed keeps its own gc time); if nothing reads
/// or replaces the entry before it fires, the entry is gone.
pub proof fn lemma_idle_entry_is_evicted<V>(
    s: ClientState<V>,
    options: QueryOptions,
    scope_options: Option<QueryOptions>,
    type_id: u64,
    key: u64,
    value: V,
    now: u64,
)
    requires
        targets_consistent(s, true),
        (if s.entries.contains_key((type_id, key)) {
            s.entries[(type_id, key)].combined_options
        } else {
            combined(options, scope_options)
        }).spec_gc_time() < GC_NEVER_FROM,
    ensures
        ({
            let s2 = set_state(s, options, scope_options, true, type_id, key, value, now);
            let q = s2.entries[(type_id, key)];
            exists|h: u64|
                {
                    &&& q.gc_handle() == (GcHandle::Armed { handle: h })
                    &&& s2.pending.contains(
                        Effect::ArmGc {
                            handle: h,
                            type_id: q.gc_target->Some_0.type_id,
                            key: q.gc_target->Some_0.key,
                            delay: q.combined_options.spec_gc_time(),
                        },
                    )
                    &&& cached_value(gc_state(s2, type_id, key, h), type_id, key) is None
                }
        }),
{
    let p = (type_id, key);
    let s2 = set_state(s, options, scope_options, true, type_id, key, value, now);
    let q = s2.entries[p];
    if s.entries.contains_key(p) {
        assert(s.entries[p].gc_target is Some);
        let h = s.next_id;
        let e = Effect::ArmGc {
            handle: h,
            type_id: q.gc_target->Some_0.type_id,
            key: q.gc_target->Some_0.key,
            delay: q.combined_options.spec_gc_time(),
        };
        let n = s2.pending.len();
        assert(s2.pending[n - 2] == e);
        assert(cached_value(gc_state(s2, type_id, key, h), type_id, key) is None);
    } else {
        let h = rolled(s.next_id);
        let e = Effect::ArmGc {
            handle: h,
            type_id: q.gc_target->Some_0.type_id,
            key: q.gc_target->Some_0.key,
            delay: q.combined_options.spec_gc_time(),
        };
        let n = s2.pending.len();
        assert(s2.pending[n - 1] == e);
        assert(cached_value(gc_state(s2, type_id, key, h), type_id, key) is None);
    }
}

/// Replacing a value cancels its eviction: the timer armed when the first
/// value was set, firing after the second set, leaves the second value in
/// place.
pub proof fn lemma_replace_prevents_eviction<V>(
    s: ClientState<V>,
    options: QueryOptions,
    scope_options: Option<QueryOptions>,
    timers: bool,
    type_id: u64,
    key: u64,
    first: V,
    second: V,
    now: u64,
    later: u64,
    handle: u64,
)
    requires
        set_state(s, options, scope_options, timers, type_id, key, first, now).entries[(
            type_id,
            key,
        )].gc_handle() == (GcHandle::Armed { handle }),
    ensures
        ({
            let s2 = set_state(s, options, scope_options, timers, type_id, key, first, now);
            let s3 = set_state(s2, options, scope_options, timers, type_id, key, second, later);
            &&& gc_state(s3, type_id, key, handle) == s3
            &&& cached_value(gc_state(s3, type_id, key, handle), type_id, key) == Some(second)
        }),
{
    let p = (type_id, key);
    let s2 = set_state(s, options, scope_options, timers, type_id, key, first, now);
    let s3 = set_state(s2, options, scope_options, timers, type_id, key, second, later);
    assert(s2.entries.contains_key(p));
    assert(handle != s2.next_id);
}

/// Reading an entry postpones its eviction: the timer armed when the value
/// was set, firing after the read, leaves the value in place, and the read
/// armed a new timer, which evicts the entry when it fires.
pub proof fn lemma_read_prevents_eviction<V>(
    s: ClientState<V>,
    options: QueryOptions,
    scope_options: Option<QueryOptions>,
    timers: bool,
    type_id: u64,
    key: u64,
    value: V,
    now: u64,
    handle: u64,
)
    requires
        set_state(s, options, scope_options, timers, type_id, key, value, now).entries[(
            type_id,
            key,
        )].gc_handle() == (GcHandle::Armed { handle }),
    ensures
        ({
            let s2 = set_state(s, options, scope_options, timers, type_id, key, value, now);
            let s3 = touch_state(s2, type_id, key);
            &&& gc_state(s3, type_id, key, handle) == s3
            &&& cached_value(s3, type_id, key) == Some(value)
            &&& s3.entries[(type_id, key)].gc_handle() == (GcHandle::Armed { handle: s2.next_id })
            &&& cached_value(gc_state(s3, type_id, key, s2.next_id), type_id, key) is None
        }),
{
    let p = (type_id, key);
    let s2 = set_state(s, options, scope_options, timers, type_id, key, value, now);
    assert(s2.entries.contains_key(p));
    assert(handle != s2.next_id);
}

} // verus!
