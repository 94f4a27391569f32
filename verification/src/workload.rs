//! The synthetic per-frame workload.
//!
//! Every frame of every pacing algorithm runs the same computation: a
//! Fibonacci-style recurrence in wrapping 64-bit arithmetic, one step per
//! work unit, so a fixed workload size consumes a roughly fixed amount of
//! CPU time. The value itself is meaningless — the driver hands it to an
//! optimization barrier and measures only how long the steps took — but
//! pinning it down keeps the computation itself verified.

use vstd::prelude::*;

verus! {

/// The workload recurrence after `n` steps: the pair starts at `(0, 1)` and
/// each step replaces `(p, c)` by `(c, p + c)` in wrapping 64-bit
/// arithmetic.
pub open spec fn fib_pair(n: nat) -> (int, int)
    decreases n,
{
    if n == 0 {
        (0, 1)
    } else {
        let (p, c) = fib_pair((n - 1) as nat);
        (c, if p + c > u64::MAX {
            p + c - 0x1_0000_0000_0000_0000
        } else {
            p + c
        })
    }
}

/// Runs `iterations` steps of the workload recurrence and returns the final
/// accumulator value.
pub fn work_value(iterations: usize) -> (r: u64)
    ensures
        r == fib_pair(iterations as nat).1,
{
    let mut prev: u64 = 0;
    let mut current: u64 = 1;
    let mut i: usize = 0;
    while i < iterations
        invariant
            i <= iterations,
            prev == fib_pair(i as nat).0,
            current == fib_pair(i as nat).1,
        decreases iterations - i,
    {
        let next: u64 = prev.wrapping_add(current);
        prev = current;
        current = next;
        i = i + 1;
    }
    current
}

} // verus!
