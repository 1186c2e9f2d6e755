use vstd::prelude::*;

use crate::utils::random_u64_rolling;
use crate::utils::rolled;

verus! {

/// Work that the cache hands to its host, in the order it must be done.
#[derive(Debug, Clone, Copy, PartialEq, Eq)]
pub enum Effect {
    /// Set the change token `token` to `version`: its subscribers recompute.
    Notify { token: u64, version: u64 },
    /// After `delay` milliseconds, call the cache's `gc_query` with these values.
    ArmGc { handle: u64, type_id: u64, key: u64, delay: u64 },
    /// Cancel the timer armed under `handle`, if it has not fired yet.
    CancelGc { handle: u64 },
}

/// The pending effects, and the counter from which token values, token
/// versions and timer handles are minted.
pub struct EffectLog {
    pub next_id: u64,
    pub pending: Vec<Effect>,
}

impl EffectLog {
    pub fn new() -> (r: Self)
        ensures
            r.next_id == 0,
            r.pending@ == Seq::<Effect>::empty(),
    {
        EffectLog { next_id: 0, pending: Vec::new() }
    }

    /// A fresh value from the counter.
    pub fn mint(&mut self) -> (r: u64)
        ensures
            r == old(self).next_id,
            final(self).next_id == rolled(old(self).next_id),
            final(self).pending@ == old(self).pending@,
    {
        random_u64_rolling(&mut self.next_id)
    }

    pub fn push(&mut self, e: Effect)
        ensures
            final(self).next_id == old(self).next_id,
            final(self).pending@ == old(self).pending@.push(e),
    {
        self.pending.push(e);
    }

    /// Notifies `token` with a freshly minted version.
    pub fn notify(&mut self, token: u64)
        ensures
            final(self).next_id == rolled(old(self).next_id),
            final(self).pending@ == old(self).pending@.push(
                Effect::Notify { token, version: old(self).next_id },
            ),
    {
        let version = self.mint();
        self.push(Effect::Notify { token, version });
    }

    /// Hands out the pending effects, leaving none.
    pub fn take(&mut self) -> (r: Vec<Effect>)
        ensures
            r@ == old(self).pending@,
            final(self).pending@ == Seq::<Effect>::empty(),
            final(self).next_id == old(self).next_id,
    {
        let mut out: Vec<Effect> = Vec::new();
        std::mem::swap(&mut out, &mut self.pending);
        out
    }
}

} // verus!
