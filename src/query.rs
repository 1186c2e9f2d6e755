use vstd::prelude::*;

use crate::effects::EffectLog;
use crate::gc::arm_effects;
use crate::gc::arm_next_id;
use crate::gc::armed_handle;
use crate::gc::cancel_effects;
use crate::gc::GcHandle;
use crate::gc::GcTarget;
use crate::gc::GcValue;
use crate::query_options::combined;
use crate::query_options::options_combine;
use crate::query_options::QueryOptions;

verus! {

/// Gc times of a year (in milliseconds) or more never evict: no timer is armed.
pub const GC_NEVER_FROM: u64 = 31536000000;

/// The timer target of an entry at `(type_id, key)`: none where the host has
/// no timers or the gc time is effectively infinite.
pub open spec fn gc_target_for(options: QueryOptions, timers: bool, type_id: u64, key: u64) -> Option<GcTarget> {
    if timers && options.spec_gc_time() < GC_NEVER_FROM {
        Some(GcTarget { type_id, key })
    } else {
        None
    }
}

/// One cached value with its freshness stamp, options, eviction timer and
/// change token.
pub struct Query<V> {
    pub value_maybe_stale: GcValue<V>,
    pub combined_options: QueryOptions,
    /// When the value was last stored; `None` once invalidated.
    pub updated_at: Option<u64>,
    /// What this entry's timers evict; `None` where they never fire.
    pub gc_target: Option<GcTarget>,
    /// The change token that subscribers of this entry watch.
    pub buster: u64,
}

impl<V> Query<V> {
    pub open spec fn value(&self) -> V {
        self.value_maybe_stale.value
    }

    pub open spec fn gc_handle(&self) -> GcHandle {
        self.value_maybe_stale.gc_handle
    }

    /// Stale at `now`: invalidated, or more than the stale time has passed
    /// since the value was stored.
    pub open spec fn is_stale_at(&self, now: u64) -> bool {
        match self.updated_at {
            None => true,
            Some(t) => now > t + self.combined_options.spec_stale_time(),
        }
    }

    /// A new entry stored at `now`, with a timer armed for its gc time.
    pub fn new(
        client_options: QueryOptions,
        scope_options: Option<QueryOptions>,
        timers: bool,
        type_id: u64,
        key: u64,
        value: V,
        buster: u64,
        now: u64,
        log: &mut EffectLog,
    ) -> (r: Self)
        ensures
            ({
                let opts = combined(client_options, scope_options);
                let target = gc_target_for(opts, timers, type_id, key);
                &&& r.value() == value
                &&& r.combined_options == opts
                &&& r.updated_at == Some(now)
                &&& r.gc_target == target
                &&& r.buster == buster
                &&& r.gc_handle() == armed_handle(old(log).next_id, target)
                &&& final(log).next_id == arm_next_id(old(log).next_id, target)
                &&& final(log).pending@ == arm_effects(
                    old(log).pending@,
                    old(log).next_id,
                    target,
                    opts.spec_gc_time(),
                )
            }),
    {
        let combined_options = options_combine(client_options, scope_options);
        let gc_time = combined_options.gc_time();
        let gc_target = if timers && gc_time < GC_NEVER_FROM {
            Some(GcTarget { type_id, key })
        } else {
            None
        };
        let handle = GcHandle::new(gc_target, gc_time, log);
        Query {
            value_maybe_stale: GcValue::new(value, handle),
            combined_options,
            updated_at: Some(now),
            gc_target,
            buster,
        }
    }

    /// Forces the entry stale; its value stays readable.
    pub fn invalidate(&mut self)
        ensures
            final(self).updated_at is None,
            final(self).value_maybe_stale == old(self).value_maybe_stale,
            final(self).combined_options == old(self).combined_options,
            final(self).gc_target == old(self).gc_target,
            final(self).buster == old(self).buster,
    {
        self.updated_at = None;
    }

    /// Whether the entry is stale at `now`.
    pub fn stale(&self, now: u64) -> (r: bool)
        ensures
            r == self.is_stale_at(now),
    {
        match self.updated_at {
            None => true,
            Some(t) => {
                let stale_time = self.combined_options.stale_time();
                now > t && now - t > stale_time
            },
        }
    }

    /// Restarts the eviction timer: the old one is cancelled and a new one
    /// armed for the gc time. Value, stamp and token stay.
    pub fn rearm(&mut self, log: &mut EffectLog)
        ensures
            final(self).value() == old(self).value(),
            final(self).updated_at == old(self).updated_at,
            final(self).combined_options == old(self).combined_options,
            final(self).gc_target == old(self).gc_target,
            final(self).buster == old(self).buster,
            final(self).gc_handle() == armed_handle(old(log).next_id, old(self).gc_target),
            final(log).next_id == arm_next_id(old(log).next_id, old(self).gc_target),
            final(log).pending@ == arm_effects(
                cancel_effects(old(log).pending@, old(self).gc_handle()),
                old(log).next_id,
                old(self).gc_target,
                old(self).combined_options.spec_gc_time(),
            ),
    {
        self.value_maybe_stale.gc_handle.cancel(log);
        let gc_time = self.combined_options.gc_time();
        self.value_maybe_stale.gc_handle = GcHandle::new(self.gc_target, gc_time, log);
    }

    /// Replaces the value, stamps it `now`, cancels the old timer and arms a new one.
    pub fn set_value(&mut self, new_value: V, now: u64, log: &mut EffectLog)
        ensures
            final(self).value() == new_value,
            final(self).updated_at == Some(now),
            final(self).combined_options == old(self).combined_options,
            final(self).gc_target == old(self).gc_target,
            final(self).buster == old(self).buster,
            final(self).gc_handle() == armed_handle(old(log).next_id, old(self).gc_target),
            final(log).next_id == arm_next_id(old(log).next_id, old(self).gc_target),
            final(log).pending@ == arm_effects(
                cancel_effects(old(log).pending@, old(self).gc_handle()),
                old(log).next_id,
                old(self).gc_target,
                old(self).combined_options.spec_gc_time(),
            ),
    {
        self.value_maybe_stale.gc_handle.cancel(log);
        let gc_time = self.combined_options.gc_time();
        let handle = GcHandle::new(self.gc_target, gc_time, log);
        self.value_maybe_stale = GcValue::new(new_value, handle);
        self.updated_at = Some(now);
    }
}

} // verus!
