use vstd::prelude::*;

use crate::effects::Effect;
use crate::effects::EffectLog;
use crate::utils::rolled;

verus! {

/// The entry that a gc timer evicts when it fires.
#[derive(Debug, Clone, Copy, PartialEq, Eq)]
pub struct GcTarget {
    pub type_id: u64,
    pub key: u64,
}

/// An eviction timer: either armed under a handle, or inert (never fires).
#[derive(Debug, Clone, Copy, PartialEq, Eq)]
pub enum GcHandle {
    Inert,
    Armed { handle: u64 },
}

/// What arming a timer for `target` after `delay` leaves in the log.
pub open spec fn arm_effects(pending: Seq<Effect>, next_id: u64, target: Option<GcTarget>, delay: u64) -> Seq<Effect> {
    match target {
        Some(t) => pending.push(
            Effect::ArmGc { handle: next_id, type_id: t.type_id, key: t.key, delay },
        ),
        None => pending,
    }
}

/// The handle that arming for `target` gives.
pub open spec fn armed_handle(next_id: u64, target: Option<GcTarget>) -> GcHandle {
    match target {
        Some(_) => GcHandle::Armed { handle: next_id },
        None => GcHandle::Inert,
    }
}

/// The counter after arming for `target`.
pub open spec fn arm_next_id(next_id: u64, target: Option<GcTarget>) -> u64 {
    match target {
        Some(_) => rolled(next_id),
        None => next_id,
    }
}

/// What cancelling `h` leaves in the log.
pub open spec fn cancel_effects(pending: Seq<Effect>, h: GcHandle) -> Seq<Effect> {
    match h {
        GcHandle::Armed { handle } => pending.push(Effect::CancelGc { handle }),
        GcHandle::Inert => pending,
    }
}

impl GcHandle {
    /// Arms a timer that evicts `target` after `delay`; with no target the
    /// handle is inert.
    pub fn new(target: Option<GcTarget>, delay: u64, log: &mut EffectLog) -> (r: Self)
        ensures
            r == armed_handle(old(log).next_id, target),
            final(log).next_id == arm_next_id(old(log).next_id, target),
            final(log).pending@ == arm_effects(old(log).pending@, old(log).next_id, target, delay),
    {
        match target {
            Some(t) => {
                let handle = log.mint();
                log.push(Effect::ArmGc { handle, type_id: t.type_id, key: t.key, delay });
                GcHandle::Armed { handle }
            },
            None => GcHandle::Inert,
        }
    }

    /// Cancels the timer, if one is armed; the handle is inert afterwards.
    pub fn cancel(&mut self, log: &mut EffectLog)
        ensures
            *final(self) == GcHandle::Inert,
            final(log).next_id == old(log).next_id,
            final(log).pending@ == cancel_effects(old(log).pending@, *old(self)),
    {
        match *self {
            GcHandle::Armed { handle } => {
                log.push(Effect::CancelGc { handle });
            },
            GcHandle::Inert => {},
        }
        *self = GcHandle::Inert;
    }
}

/// A cached value together with the timer that evicts it.
pub struct GcValue<V> {
    pub value: V,
    pub gc_handle: GcHandle,
}

impl<V> GcValue<V> {
    pub fn new(value: V, gc_handle: GcHandle) -> (r: Self)
        ensures
            r.value == value,
            r.gc_handle == gc_handle,
    {
        GcValue { value, gc_handle }
    }

    /// Gives up the value, cancelling its timer.
    pub fn into_value(self, log: &mut EffectLog) -> (r: V)
        ensures
            r == self.value,
            final(log).next_id == old(log).next_id,
            final(log).pending@ == cancel_effects(old(log).pending@, self.gc_handle),
    {
        let mut h = self.gc_handle;
        h.cancel(log);
        self.value
    }

    pub fn value(&self) -> (r: &V)
        ensures
            *r == self.value,
    {
        &self.value
    }
}

} // verus!
