//! The process-wide request counter: an unsigned 64-bit cell that starts at
//! zero and is mutated only by increment-and-fetch.

use vstd::prelude::*;

verus! {

/// The value that follows `v` on the counter: one more, wrapping at the top
/// of the 64-bit range (the same arithmetic as a hardware fetch-and-add).
pub open spec fn next_count(v: u64) -> u64 {
    if v == u64::MAX {
        0
    } else {
        (v + 1) as u64
    }
}

/// The counter value after `n` successive increments starting from `v`.
pub open spec fn count_after(v: u64, n: nat) -> u64
    decreases n,
{
    if n == 0 {
        v
    } else {
        next_count(count_after(v, (n - 1) as nat))
    }
}

/// A shared counter cell. It is initialized to zero at startup and mutated
/// only through `increment_and_fetch`; it is never reset.
pub struct Counter {
    pub value: u64,
}

impl Counter {
    /// A fresh counter, holding zero.
    pub fn new() -> (c: Counter)
        ensures
            c.value == 0,
    {
        Counter { value: 0 }
    }

    /// Increment the counter by one and return the new value.
    ///
    /// Wrapping at the top of the range mirrors a fetch-and-add on an
    /// unsigned 64-bit cell; the wrap is unreachable in practice.
    pub fn increment_and_fetch(&mut self) -> (r: u64)
        ensures
            final(self).value == next_count(old(self).value),
            r == final(self).value,
    {
        if self.value == u64::MAX {
            self.value = 0;
        } else {
            self.value = self.value + 1;
        }
        self.value
    }
}

proof fn lemma_count_after_no_wrap(v: u64, n: nat)
    requires
        v + n <= u64::MAX,
    ensures
        count_after(v, n) == v + n,
    decreases n,
{
    if n > 0 {
        lemma_count_after_no_wrap(v, (n - 1) as nat);
    }
}

/// As long as the counter stays within the 64-bit range, `n` successive
/// increments starting from `k` return exactly the values `k + 1` through
/// `k + n`: each call sees one more than the last, no two calls see the same
/// value, and every value in the window is seen by exactly one call.
pub proof fn lemma_counter_window(k: u64, n: u64)
    requires
        k + n <= u64::MAX,
    ensures
        forall|i: u64| i < n ==> #[trigger] count_after(k, (i + 1) as nat) == k + i + 1,
        forall|i: u64, j: u64|
            i < n && j < n && i != j ==> #[trigger] count_after(k, (i + 1) as nat)
                != #[trigger] count_after(k, (j + 1) as nat),
        forall|v: u64|
            k < v <= k + n ==> #[trigger] count_after(k, (v - k) as nat) == v,
{
    assert forall|i: u64| i < n implies #[trigger] count_after(k, (i + 1) as nat) == k + i
        + 1 by {
        lemma_count_after_no_wrap(k, (i + 1) as nat);
    }
    assert forall|v: u64| k < v <= k + n implies #[trigger] count_after(k, (v - k) as nat)
        == v by {
        lemma_count_after_no_wrap(k, (v - k) as nat);
    }
}

} // verus!
