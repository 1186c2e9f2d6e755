use vstd::prelude::*;

verus! {

/// The value that follows `n` on a rolling counter: after `u64::MAX` comes 0.
pub open spec fn rolled(n: u64) -> u64 {
    if n == u64::MAX {
        0
    } else {
        (n + 1) as u64
    }
}

/// Hands out the counter's current value and advances it, wrapping at the top.
///
/// The values are distinct until the counter has gone all the way round.
pub fn random_u64_rolling(counter: &mut u64) -> (r: u64)
    ensures
        r == *old(counter),
        *final(counter) == rolled(*old(counter)),
{
    let r = *counter;
    if r == u64::MAX {
        *counter = 0;
    } else {
        *counter = r + 1;
    }
    r
}

} // verus!
