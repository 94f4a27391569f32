//! The statistics aggregator: summary statistics over a per-frame duration
//! sequence.
//!
//! All statistics are computed over whole nanosecond counts. The mean is the
//! total divided by the frame count, truncated toward zero. The standard
//! deviation is the square root of the mean squared deviation from the mean,
//! rounded to the nearest whole nanosecond (ties upward); squared deviations
//! accumulate in a 128-bit integer so that no precision is lost, and any
//! value that would not fit is reported as an explicit overflow error rather
//! than silently wrapped.

use vstd::arithmetic::div_mod::lemma_div_is_ordered;
use vstd::arithmetic::div_mod::lemma_div_multiples_vanish;
use vstd::arithmetic::div_mod::lemma_fundamental_div_mod;
use vstd::arithmetic::div_mod::lemma_fundamental_div_mod_converse;
use vstd::prelude::*;

use crate::time::max_duration_nanos;
use crate::time::Duration;

verus! {

/// The nanosecond counts of a duration sequence, in order.
pub open spec fn nanos_seq(s: Seq<Duration>) -> Seq<int> {
    s.map_values(|d: Duration| d@)
}

/// The sum of a sequence of nanosecond counts.
pub open spec fn sum_of(s: Seq<int>) -> int
    decreases s.len(),
{
    if s.len() == 0 {
        0
    } else {
        sum_of(s.drop_last()) + s.last()
    }
}

/// The least element of a non-empty sequence.
pub open spec fn min_of(s: Seq<int>) -> int
    recommends
        s.len() > 0,
    decreases s.len(),
{
    if s.len() <= 1 {
        s[0]
    } else if s.last() < min_of(s.drop_last()) {
        s.last()
    } else {
        min_of(s.drop_last())
    }
}

/// The greatest element of a non-empty sequence.
pub open spec fn max_of(s: Seq<int>) -> int
    recommends
        s.len() > 0,
    decreases s.len(),
{
    if s.len() <= 1 {
        s[0]
    } else if s.last() > max_of(s.drop_last()) {
        s.last()
    } else {
        max_of(s.drop_last())
    }
}

/// The mean of a non-empty sequence, truncated toward zero.
pub open spec fn mean_of(s: Seq<int>) -> int
    recommends
        s.len() > 0,
{
    sum_of(s) / s.len() as int
}

/// How many elements are strictly greater than `bound`.
pub open spec fn count_gt(s: Seq<int>, bound: int) -> int
    decreases s.len(),
{
    if s.len() == 0 {
        0
    } else {
        count_gt(s.drop_last(), bound) + if s.last() > bound {
            1int
        } else {
            0int
        }
    }
}

/// The squared deviation of `x` from `m`.
pub open spec fn sq_dev(x: int, m: int) -> int {
    (x - m) * (x - m)
}

/// The sum of squared deviations of a sequence from `m`.
pub open spec fn sum_sq_dev(s: Seq<int>, m: int) -> int
    decreases s.len(),
{
    if s.len() == 0 {
        0
    } else {
        sum_sq_dev(s.drop_last(), m) + sq_dev(s.last(), m)
    }
}

/// `r` is the integer square root of `n`, truncated.
spec fn is_floor_sqrt(n: int, r: int) -> bool {
    r >= 0 && r * r <= n < (r + 1) * (r + 1)
}

/// `r` is the square root of the real quotient `ssd / n`, rounded to the
/// nearest integer with ties rounding up: `(r - 1/2)^2 <= ssd/n < (r + 1/2)^2`,
/// written over integers with both sides scaled by `4n`. The lower bound is
/// waived at `r == 0`, where it has nothing to say.
pub open spec fn is_rounded_sqrt(ssd: int, n: int, r: int) -> bool {
    &&& r >= 0
    &&& (r > 0 ==> (2 * r - 1) * (2 * r - 1) * n <= 4 * ssd)
    &&& 4 * ssd < (2 * r + 1) * (2 * r + 1) * n
}

/// Rounding the square root of `ssd / n` is reading off the truncated square
/// root of `4 * ssd / n`: if `d` is that truncated root, the rounded result
/// is `(d + 1) / 2`.
proof fn lemma_rounded_sqrt_from_floor(ssd: int, n: int, q4: int, d: int, r: int)
    requires
        n >= 1,
        ssd >= 0,
        q4 == 4 * ssd / n,
        is_floor_sqrt(q4, d),
        r == (d + 1) / 2,
    ensures
        is_rounded_sqrt(ssd, n, r),
{
    lemma_fundamental_div_mod(4 * ssd, n);
    vstd::arithmetic::div_mod::lemma_mod_bound(4 * ssd, n);
    lemma_fundamental_div_mod(d + 1, 2);
    vstd::arithmetic::div_mod::lemma_mod_bound(d + 1, 2);
    let rem = (4 * ssd) % n;
    assert(2 * r <= d + 1 <= 2 * r + 1);
    if r > 0 {
        assert((2 * r - 1) * (2 * r - 1) * n <= 4 * ssd) by (nonlinear_arith)
            requires
                0 <= 2 * r - 1 <= d,
                d * d <= q4,
                n >= 1,
                rem >= 0,
                4 * ssd == n * q4 + rem,
        ;
    }
    assert(4 * ssd < (2 * r + 1) * (2 * r + 1) * n) by (nonlinear_arith)
        requires
            0 <= d + 1 <= 2 * r + 1,
            q4 < (d + 1) * (d + 1),
            n >= 1,
            rem < n,
            4 * ssd == n * q4 + rem,
    ;
}

proof fn lemma_sq_nonneg(a: int)
    ensures
        a * a >= 0,
{
    assert(a * a >= 0) by (nonlinear_arith);
}

proof fn lemma_sum_take_succ(s: Seq<int>, i: int)
    requires
        0 <= i < s.len(),
    ensures
        sum_of(s.take(i + 1)) == sum_of(s.take(i)) + s[i],
{
    assert(s.take(i + 1).drop_last() =~= s.take(i));
    assert(s.take(i + 1).last() == s[i]);
}

proof fn lemma_min_take_succ(s: Seq<int>, i: int)
    requires
        1 <= i < s.len(),
    ensures
        min_of(s.take(i + 1)) == if s[i] < min_of(s.take(i)) {
            s[i]
        } else {
            min_of(s.take(i))
        },
{
    assert(s.take(i + 1).drop_last() =~= s.take(i));
    assert(s.take(i + 1).last() == s[i]);
}

proof fn lemma_max_take_succ(s: Seq<int>, i: int)
    requires
        1 <= i < s.len(),
    ensures
        max_of(s.take(i + 1)) == if s[i] > max_of(s.take(i)) {
            s[i]
        } else {
            max_of(s.take(i))
        },
{
    assert(s.take(i + 1).drop_last() =~= s.take(i));
    assert(s.take(i + 1).last() == s[i]);
}

proof fn lemma_count_take_succ(s: Seq<int>, bound: int, i: int)
    requires
        0 <= i < s.len(),
    ensures
        count_gt(s.take(i + 1), bound) == count_gt(s.take(i), bound) + if s[i] > bound {
            1int
        } else {
            0int
        },
{
    assert(s.take(i + 1).drop_last() =~= s.take(i));
    assert(s.take(i + 1).last() == s[i]);
}

proof fn lemma_ssd_take_succ(s: Seq<int>, m: int, i: int)
    requires
        0 <= i < s.len(),
    ensures
        sum_sq_dev(s.take(i + 1), m) == sum_sq_dev(s.take(i), m) + sq_dev(s[i], m),
{
    assert(s.take(i + 1).drop_last() =~= s.take(i));
    assert(s.take(i + 1).last() == s[i]);
}

proof fn lemma_count_le_len(s: Seq<int>, bound: int)
    ensures
        0 <= count_gt(s, bound) <= s.len(),
    decreases s.len(),
{
    if s.len() > 0 {
        lemma_count_le_len(s.drop_last(), bound);
    }
}

proof fn lemma_sum_take_le(s: Seq<int>, i: int)
    requires
        0 <= i <= s.len(),
        forall|j: int| 0 <= j < s.len() ==> #[trigger] s[j] >= 0,
    ensures
        sum_of(s.take(i)) <= sum_of(s),
    decreases s.len() - i,
{
    if i == s.len() {
        assert(s.take(i) =~= s);
    } else {
        lemma_sum_take_succ(s, i);
        lemma_sum_take_le(s, i + 1);
    }
}

proof fn lemma_ssd_take_le(s: Seq<int>, m: int, i: int)
    requires
        0 <= i <= s.len(),
    ensures
        sum_sq_dev(s.take(i), m) <= sum_sq_dev(s, m),
    decreases s.len() - i,
{
    if i == s.len() {
        assert(s.take(i) =~= s);
    } else {
        lemma_ssd_take_succ(s, m, i);
        lemma_sq_nonneg(s[i] - m);
        lemma_ssd_take_le(s, m, i + 1);
    }
}

proof fn lemma_ssd_nonneg(s: Seq<int>, m: int)
    ensures
        sum_sq_dev(s, m) >= 0,
    decreases s.len(),
{
    if s.len() > 0 {
        lemma_ssd_nonneg(s.drop_last(), m);
        lemma_sq_nonneg(s.last() - m);
    }
}

proof fn lemma_ssd_term_le(s: Seq<int>, m: int, i: int)
    requires
        0 <= i < s.len(),
    ensures
        sq_dev(s[i], m) <= sum_sq_dev(s, m),
{
    lemma_ssd_nonneg(s.take(i), m);
    lemma_ssd_take_succ(s, m, i);
    lemma_ssd_take_le(s, m, i + 1);
}

/// The sum of a non-empty sequence lies between the length times the least
/// element and the length times the greatest element.
proof fn lemma_sum_bounds(s: Seq<int>)
    requires
        s.len() > 0,
    ensures
        s.len() * min_of(s) <= sum_of(s) <= s.len() * max_of(s),
    decreases s.len(),
{
    if s.len() == 1 {
        assert(sum_of(s.drop_last()) == 0);
        assert(sum_of(s) == s[0]);
        assert(min_of(s) == s[0] && max_of(s) == s[0]);
        assert(s.len() * min_of(s) == min_of(s) && s.len() * max_of(s) == max_of(s))
            by (nonlinear_arith)
            requires
                s.len() == 1,
        ;
    } else {
        let d = s.drop_last();
        lemma_sum_bounds(d);
        assert(min_of(s) <= min_of(d) && min_of(s) <= s.last());
        assert(max_of(s) >= max_of(d) && max_of(s) >= s.last());
        assert(s.len() * min_of(s) <= sum_of(s)) by (nonlinear_arith)
            requires
                d.len() + 1 == s.len(),
                d.len() >= 0,
                d.len() * min_of(d) <= sum_of(d),
                sum_of(s) == sum_of(d) + s.last(),
                min_of(s) <= min_of(d),
                min_of(s) <= s.last(),
        ;
        assert(sum_of(s) <= s.len() * max_of(s)) by (nonlinear_arith)
            requires
                d.len() + 1 == s.len(),
                d.len() >= 0,
                sum_of(d) <= d.len() * max_of(d),
                sum_of(s) == sum_of(d) + s.last(),
                max_of(d) <= max_of(s),
                s.last() <= max_of(s),
        ;
    }
}

/// The least and greatest elements of a non-empty sequence stay within any
/// bounds that hold of every element.
proof fn lemma_min_max_in_bounds(s: Seq<int>, lo: int, hi: int)
    requires
        s.len() > 0,
        forall|j: int| 0 <= j < s.len() ==> lo <= #[trigger] s[j] <= hi,
    ensures
        lo <= min_of(s),
        max_of(s) <= hi,
    decreases s.len(),
{
    if s.len() > 1 {
        lemma_min_max_in_bounds(s.drop_last(), lo, hi);
    }
}

/// Why the aggregator rejected its input.
#[derive(Debug, Clone, Copy, PartialEq, Eq, Structural)]
pub enum StatsError {
    /// The duration sequence was empty; no statistics are defined for it.
    EmptySequence,
    /// The total or the sum of squared deviations exceeded the 128-bit
    /// accumulator; the statistics would be garbage, so none are returned.
    Overflow,
}

/// Summary statistics over one per-frame duration sequence, derived once and
/// then read-only.
#[derive(Debug, Clone, Copy, PartialEq, Eq, Structural)]
pub struct TestResults {
    /// The shortest frame.
    pub min: Duration,
    /// The longest frame.
    pub max: Duration,
    /// The mean frame duration, truncated toward zero.
    pub mean: Duration,
    /// The standard deviation: the square root of the mean squared deviation
    /// from the mean, rounded to the nearest whole nanosecond (ties upward).
    pub std: Duration,
    /// How many frames ran strictly longer than the target frame time.
    pub long_frames: usize,
}

/// A duration holding exactly `n` nanoseconds.
fn dur_from_u128(n: u128) -> (d: Duration)
    requires
        n <= max_duration_nanos(),
    ensures
        d@ == n,
{
    let secs: u128 = n / 1_000_000_000;
    let subsec: u32 = (n % 1_000_000_000) as u32;
    proof {
        lemma_fundamental_div_mod(n as int, 1_000_000_000);
        lemma_div_is_ordered(n as int, max_duration_nanos(), 1_000_000_000);
        lemma_fundamental_div_mod_converse(
            max_duration_nanos(),
            1_000_000_000,
            u64::MAX as int,
            999_999_999,
        );
    }
    Duration::new(secs as u64, subsec)
}

/// The integer square root of `n`, truncated.
fn isqrt_u128(n: u128) -> (r: u64)
    ensures
        is_floor_sqrt(n as int, r as int),
{
    let mut lo: u128 = 0;
    let mut hi: u128 = u64::MAX as u128;
    proof {
        assert((hi + 1) * (hi + 1) > n) by (nonlinear_arith)
            requires
                hi == u64::MAX,
                n <= u128::MAX,
        ;
    }
    while lo < hi
        invariant
            lo <= hi <= u64::MAX,
            lo * lo <= n,
            (hi + 1) * (hi + 1) > n,
        decreases hi - lo,
    {
        let mid: u128 = lo + (hi - lo + 1) / 2;
        proof {
            assert(lo < mid <= hi);
            assert(mid * mid <= u128::MAX) by (nonlinear_arith)
                requires
                    mid <= u64::MAX,
            ;
        }
        if mid * mid <= n {
            lo = mid;
        } else {
            hi = mid - 1;
        }
    }
    lo as u64
}

/// Aggregates one per-frame duration sequence into summary statistics.
///
/// An empty sequence has no statistics and is rejected explicitly. The mean
/// is the total divided by the frame count, truncated toward zero, and
/// therefore always lies between the least and the greatest frame duration.
/// `long_frames` counts the frames strictly longer than the target frame
/// time. The standard deviation is the square root of the mean squared
/// deviation from the mean, rounded to the nearest whole nanosecond with
/// ties rounding up; if the total or four times the squared-deviation sum
/// exceeds the 128-bit accumulator, the run is rejected as an overflow
/// instead of returning a wrapped value.
pub fn run_test(times: &Vec<Duration>, target_frame_time: &Duration) -> (r: Result<
    TestResults,
    StatsError,
>)
    ensures
        times@.len() == 0 <==> r == Err::<TestResults, StatsError>(StatsError::EmptySequence),
        ({
            let s = nanos_seq(times@);
            times@.len() > 0 ==> (r == Err::<TestResults, StatsError>(StatsError::Overflow) <==> (sum_of(s) > u128::MAX
                || 4 * sum_sq_dev(s, mean_of(s)) > u128::MAX))
        }),
        ({
            let s = nanos_seq(times@);
            r matches Ok(res) ==> {
                &&& res.min@ == min_of(s)
                &&& res.max@ == max_of(s)
                &&& res.mean@ == mean_of(s)
                &&& res.long_frames == count_gt(s, target_frame_time@)
                &&& is_rounded_sqrt(sum_sq_dev(s, mean_of(s)), s.len() as int, res.std@)
                &&& min_of(s) <= res.mean@ <= max_of(s)
                &&& res.std@ >= 0
            }
        }),
{
    let ghost s: Seq<int> = nanos_seq(times@);
    proof {
        assert forall|j: int| 0 <= j < s.len() implies #[trigger] s[j] >= 0 by {
            crate::time::lemma_duration_nonneg(times@[j]);
        }
    }
    let n: usize = times.len();
    if n == 0 {
        return Err(StatsError::EmptySequence);
    }
    let mut mn: Duration = times[0];
    let mut mx: Duration = times[0];
    let mut total: u128 = mn.as_nanos_u128();
    let mut long: usize = if target_frame_time.lt(&mn) {
        1
    } else {
        0
    };
    crate::time::duration_bounds(&mn);
    proof {
        assert(s.take(1)[0] == s[0]);
        assert(s.take(1).drop_last() =~= s.take(0));
        assert(sum_of(s.take(0)) == 0 && count_gt(s.take(0), target_frame_time@) == 0);
        assert(sum_of(s.take(1)) == s[0]);
        assert(min_of(s.take(1)) == s[0] && max_of(s.take(1)) == s[0]);
    }
    let mut i: usize = 1;
    while i < n
        invariant
            1 <= i <= n,
            n == times@.len(),
            s == nanos_seq(times@),
            forall|j: int| 0 <= j < s.len() ==> #[trigger] s[j] >= 0,
            forall|j: int| 0 <= j < i ==> 0 <= #[trigger] s[j] <= max_duration_nanos(),
            mn@ == min_of(s.take(i as int)),
            mx@ == max_of(s.take(i as int)),
            total == sum_of(s.take(i as int)),
            long == count_gt(s.take(i as int), target_frame_time@),
        decreases n - i,
    {
        let t = times[i];
        crate::time::duration_bounds(&t);
        if t.lt(&mn) {
            mn = t;
        }
        if mx.lt(&t) {
            mx = t;
        }
        if target_frame_time.lt(&t) {
            proof {
                lemma_count_le_len(s.take(i as int), target_frame_time@);
            }
            long = long + 1;
        }
        let x: u128 = t.as_nanos_u128();
        if x > u128::MAX - total {
            proof {
                lemma_sum_take_succ(s, i as int);
                lemma_sum_take_le(s, i as int + 1);
            }
            return Err(StatsError::Overflow);
        }
        total = total + x;
        proof {
            lemma_sum_take_succ(s, i as int);
            lemma_min_take_succ(s, i as int);
            lemma_max_take_succ(s, i as int);
            lemma_count_take_succ(s, target_frame_time@, i as int);
        }
        i = i + 1;
    }
    proof {
        assert(s.take(n as int) =~= s);
        lemma_sum_bounds(s);
        lemma_min_max_in_bounds(s, 0, max_duration_nanos());
        lemma_div_is_ordered(s.len() * min_of(s), sum_of(s), s.len() as int);
        lemma_div_is_ordered(sum_of(s), s.len() * max_of(s), s.len() as int);
        lemma_div_multiples_vanish(min_of(s), s.len() as int);
        lemma_div_multiples_vanish(max_of(s), s.len() as int);
    }
    let mean_u: u128 = total / (n as u128);
    let mean_dur = dur_from_u128(mean_u);
    let ghost m: int = mean_of(s);
    let mut ssd: u128 = 0;
    let mut k: usize = 0;
    while k < n
        invariant
            0 <= k <= n,
            n == times@.len(),
            n >= 1,
            s == nanos_seq(times@),
            m == mean_of(s),
            mean_u == m,
            ssd == sum_sq_dev(s.take(k as int), m),
            ssd <= u128::MAX / 4,
        decreases n - k,
    {
        let t = times[k];
        let x: u128 = t.as_nanos_u128();
        let diff: u128 = if x < mean_u {
            mean_u - x
        } else {
            x - mean_u
        };
        if diff > u64::MAX as u128 {
            proof {
                assert(sq_dev(s[k as int], m) > u128::MAX) by (nonlinear_arith)
                    requires
                        sq_dev(s[k as int], m) == (s[k as int] - m) * (s[k as int] - m),
                        s[k as int] - m == diff || m - s[k as int] == diff,
                        diff > u64::MAX,
                ;
                lemma_ssd_term_le(s, m, k as int);
                lemma_ssd_nonneg(s, m);
            }
            return Err(StatsError::Overflow);
        }
        proof {
            assert(diff * diff <= u128::MAX && diff * diff == sq_dev(s[k as int], m))
                by (nonlinear_arith)
                requires
                    sq_dev(s[k as int], m) == (s[k as int] - m) * (s[k as int] - m),
                    s[k as int] - m == diff || m - s[k as int] == diff,
                    diff <= u64::MAX,
            ;
        }
        let sq: u128 = diff * diff;
        if sq > u128::MAX / 4 - ssd {
            proof {
                lemma_ssd_take_succ(s, m, k as int);
                lemma_ssd_take_le(s, m, k as int + 1);
                assert(4 * (u128::MAX / 4) == u128::MAX - 3);
            }
            return Err(StatsError::Overflow);
        }
        ssd = ssd + sq;
        proof {
            lemma_ssd_take_succ(s, m, k as int);
        }
        k = k + 1;
    }
    proof {
        assert(s.take(n as int) =~= s);
        assert(4 * (u128::MAX / 4) == u128::MAX - 3);
    }
    let m4: u128 = 4 * ssd;
    let q4: u128 = m4 / (n as u128);
    let d: u64 = isqrt_u128(q4);
    let r_std: u128 = (d as u128 + 1) / 2;
    proof {
        lemma_ssd_nonneg(s, m);
        lemma_rounded_sqrt_from_floor(
            sum_sq_dev(s, m),
            s.len() as int,
            q4 as int,
            d as int,
            r_std as int,
        );
    }
    let std_dur = dur_from_u128(r_std);
    Ok(
        TestResults {
            min: mn,
            max: mx,
            mean: mean_dur,
            std: std_dur,
            long_frames: long,
        },
    )
}

} // verus!
