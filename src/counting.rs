//! Counter-driven loops.
use vstd::prelude::*;

verus! {

/// The sum of the integers `0, 1, ..., n - 1` (zero when `n <= 0`).
pub open spec fn sum_below(n: int) -> int
    decreases n,
{
    if n <= 0 {
        0
    } else {
        sum_below(n - 1) + (n - 1)
    }
}

proof fn lemma_sum_below_monotonic(a: int, b: int)
    requires
        a <= b,
    ensures
        sum_below(a) <= sum_below(b),
    decreases b - a,
{
    if a < b {
        lemma_sum_below_monotonic(a, b - 1);
    }
}

/// Counts from zero to ten, one step at a time.
pub fn count() -> (r: i32)
    ensures
        r == 10,
{
    let mut x: i32 = 0;
    let mut i: i32 = 0;
    while i < 10
        invariant
            0 <= i <= 10,
            x == i,
        decreases 10 - i,
    {
        x = x + 1;
        i = i + 1;
    }
    x
}

/// The sum of `0, 1, ..., n - 1`; the sum must fit in an `i32`.
pub fn sum_range(n: i32) -> (r: i32)
    requires
        sum_below(n as int) <= i32::MAX,
    ensures
        r == sum_below(n as int),
{
    let mut total: i32 = 0;
    let mut i: i32 = 0;
    while i < n
        invariant
            0 <= i,
            n >= 0 ==> i <= n,
            n < 0 ==> i == 0,
            total == sum_below(i as int),
            sum_below(n as int) <= i32::MAX,
        decreases n - i,
    {
        proof {
            lemma_sum_below_monotonic(i + 1, n as int);
        }
        total = total + i;
        i = i + 1;
    }
    total
}

} // verus!
