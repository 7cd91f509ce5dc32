//! Bin counting and prefix-sum offsets for the uniform spatial grid.
//!
//! Each simulation step assigns every particle a bin (a cell of the uniform
//! grid), counts how many particles fall into each bin, and turns the counts
//! into start offsets by a prefix sum, so that a scatter pass can sort the
//! particles by bin.  The sequential offset computation here is the
//! reference; [`prefix_scan`] computes the same sums the way the GPU
//! pipeline does, by `ceil(log2)` doubling passes over a ping-pong buffer
//! pair, and its contract pins down which buffer holds the result: the
//! starting one exactly when the pass count is even.

use vstd::prelude::*;

verus! {

use vstd::arithmetic::power2::{pow2, lemma_pow2_unfold, lemma_pow2_strictly_increases, lemma2_to64,
    lemma2_to64_rest};
use vstd::std_specs::bits::{u32_leading_zeros, axiom_u32_leading_zeros};
use vstd::bits::{lemma_u32_shr_is_div};

/// Number of entries among the first `k` of `bins` that equal `b`.
pub open spec fn count_in_prefix(bins: Seq<usize>, b: int, k: int) -> int
    decreases k,
{
    if k <= 0 {
        0
    } else {
        count_in_prefix(bins, b, k - 1) + if bins[k - 1] == b {
            1int
        } else {
            0int
        }
    }
}

proof fn lemma_count_in_prefix_le(bins: Seq<usize>, b: int, k: int)
    requires
        0 <= k,
    ensures
        0 <= count_in_prefix(bins, b, k) <= k,
    decreases k,
{
    if k > 0 {
        lemma_count_in_prefix_le(bins, b, k - 1);
    }
}

/// Sum of the entries of `s` over the index window `[lo, hi)`.
pub open spec fn range_sum(s: Seq<usize>, lo: int, hi: int) -> int
    decreases hi - lo,
{
    if hi <= lo {
        0
    } else {
        range_sum(s, lo, hi - 1) + s[hi - 1]
    }
}

/// Adjacent windows add up: the sum over `[lo, hi)` splits at any `mid`.
pub proof fn lemma_range_sum_split(s: Seq<usize>, lo: int, mid: int, hi: int)
    requires
        lo <= mid <= hi,
    ensures
        range_sum(s, lo, hi) == range_sum(s, lo, mid) + range_sum(s, mid, hi),
    decreases hi - mid,
{
    if mid < hi {
        lemma_range_sum_split(s, lo, mid, hi - 1);
    }
}

/// A window sum of in-range unsigned entries is non-negative.
pub proof fn lemma_range_sum_nonneg(s: Seq<usize>, lo: int, hi: int)
    requires
        0 <= lo,
        hi <= s.len(),
    ensures
        range_sum(s, lo, hi) >= 0,
    decreases hi - lo,
{
    if lo < hi {
        lemma_range_sum_nonneg(s, lo, hi - 1);
    }
}

/// A window sum never exceeds the sum of the whole sequence.
pub proof fn lemma_range_sum_le_total(s: Seq<usize>, lo: int, hi: int)
    requires
        0 <= lo <= hi <= s.len(),
    ensures
        range_sum(s, lo, hi) <= range_sum(s, 0, s.len() as int),
{
    lemma_range_sum_split(s, 0, lo, hi);
    lemma_range_sum_split(s, 0, hi, s.len() as int);
    lemma_range_sum_nonneg(s, 0, lo);
    lemma_range_sum_nonneg(s, hi, s.len() as int);
}

/// Updating one entry moves the total sum by the difference.
proof fn lemma_range_sum_update(s: Seq<usize>, idx: int, v: usize, hi: int)
    requires
        0 <= idx < s.len(),
        hi <= s.len(),
    ensures
        range_sum(s.update(idx, v), 0, hi) == range_sum(s, 0, hi) + if idx < hi {
            v - s[idx]
        } else {
            0int
        },
    decreases hi,
{
    if hi > 0 {
        lemma_range_sum_update(s, idx, v, hi - 1);
    }
}

/// Law: prefix-sum offsets are non-decreasing in the bin index.
pub proof fn lemma_offsets_monotone(counts: Seq<usize>, i: int, j: int)
    requires
        0 <= i <= j <= counts.len(),
    ensures
        range_sum(counts, 0, i) <= range_sum(counts, 0, j),
{
    lemma_range_sum_split(counts, 0, i, j);
    lemma_range_sum_nonneg(counts, i, j);
}

/// Count how many of the given bin indices fall into each of `total_bins`
/// bins.  The counts sum to the number of binned particles.
pub fn count_bins(bins: &Vec<usize>, total_bins: usize) -> (counts: Vec<usize>)
    requires
        forall|i: int| 0 <= i < bins@.len() ==> bins@[i] < total_bins,
    ensures
        counts@.len() == total_bins,
        forall|b: int|
            0 <= b < total_bins ==> counts@[b] == count_in_prefix(bins@, b, bins@.len() as int),
        range_sum(counts@, 0, total_bins as int) == bins@.len(),
{
    let mut counts = vec![0usize; total_bins];
    proof {
        lemma_range_sum_zero(counts@, total_bins as int);
    }
    let n = bins.len();
    let mut i: usize = 0;
    while i < n
        invariant
            n == bins@.len(),
            i <= n,
            counts@.len() == total_bins,
            forall|b: int| 0 <= b < bins@.len() ==> bins@[b] < total_bins,
            forall|b: int| 0 <= b < total_bins ==> counts@[b] == count_in_prefix(bins@, b, i as int),
            range_sum(counts@, 0, total_bins as int) == i,
        decreases n - i,
    {
        let b = bins[i];
        proof {
            lemma_count_in_prefix_le(bins@, b as int, i as int);
            lemma_range_sum_update(counts@, b as int, (counts@[b as int] + 1) as usize, total_bins as int);
        }
        let c = counts[b];
        counts.set(b, c + 1);
        proof {
            assert forall|b2: int| 0 <= b2 < total_bins implies counts@[b2] == count_in_prefix(
                bins@,
                b2,
                i + 1,
            ) by {}
        }
        i = i + 1;
    }
    counts
}

/// The sum of a window of zeros is zero.
proof fn lemma_range_sum_zero(s: Seq<usize>, hi: int)
    requires
        hi <= s.len(),
        forall|i: int| 0 <= i < hi ==> s[i] == 0,
    ensures
        range_sum(s, 0, hi) == 0,
    decreases hi,
{
    if hi > 0 {
        lemma_range_sum_zero(s, hi - 1);
    }
}

/// Turn per-bin counts into start offsets: `offsets[b]` is the number of
/// particles in bins before `b`, so `offsets[0] == 0`, the offsets are
/// non-decreasing, and `offsets[counts.len()]` is the total particle count.
pub fn bin_offsets(counts: &Vec<usize>) -> (offsets: Vec<usize>)
    requires
        range_sum(counts@, 0, counts@.len() as int) <= usize::MAX,
    ensures
        offsets@.len() == counts@.len() + 1,
        forall|b: int| 0 <= b <= counts@.len() ==> offsets@[b] == range_sum(counts@, 0, b),
{
    let len = counts.len();
    let mut offsets: Vec<usize> = Vec::new();
    let mut total: usize = 0;
    offsets.push(0);
    let mut b: usize = 0;
    while b < len
        invariant
            len == counts@.len(),
            b <= len,
            range_sum(counts@, 0, len as int) <= usize::MAX,
            offsets@.len() == b + 1,
            total == range_sum(counts@, 0, b as int),
            forall|k: int| 0 <= k <= b ==> offsets@[k] == range_sum(counts@, 0, k),
        decreases len - b,
    {
        proof {
            lemma_range_sum_le_total(counts@, 0, b + 1);
            lemma_range_sum_nonneg(counts@, 0, b as int);
        }
        total = total + counts[b];
        offsets.push(total);
        b = b + 1;
    }
    offsets
}

/// The lower edge of the window that `i` has accumulated after passes of
/// total width `p`: `i + 1 - p`, clipped at the start of the array.
pub open spec fn window_lo(i: int, p: int) -> int {
    if i + 1 - p >= 0 {
        i + 1 - p
    } else {
        0
    }
}

/// One doubling pass of the scan: each entry gains the entry `step` places
/// below it, if there is one.
pub fn scan_pass(src: &Vec<usize>, step: usize) -> (dst: Vec<usize>)
    requires
        1 <= step,
        forall|i: int| #![trigger src@[i]] step <= i < src@.len() ==> src@[i] + src@[i - step] <= usize::MAX,
    ensures
        dst@.len() == src@.len(),
        forall|i: int|
            #![trigger dst@[i]]
            0 <= i < src@.len() ==> dst@[i] == src@[i] + if i >= step {
                src@[i - step] as int
            } else {
                0int
            },
{
    let n = src.len();
    let mut dst: Vec<usize> = Vec::new();
    let mut i: usize = 0;
    while i < n
        invariant
            n == src@.len(),
            i <= n,
            1 <= step,
            forall|k: int| #![trigger src@[k]] step <= k < src@.len() ==> src@[k] + src@[k - step] <= usize::MAX,
            dst@.len() == i,
            forall|k: int|
                #![trigger dst@[k]]
                0 <= k < i ==> dst@[k] == src@[k] + if k >= step {
                    src@[k - step] as int
                } else {
                    0int
                },
        decreases n - i,
    {
        if i >= step {
            dst.push(src[i] + src[i - step]);
        } else {
            dst.push(src[i]);
        }
        i = i + 1;
    }
    dst
}

/// Inclusive prefix sums computed as the GPU pipeline computes them: by
/// doubling passes with steps 1, 2, 4, ... until the step reaches the
/// array length.  Returns the sums, the number of passes made, and whether
/// the result lives in the buffer the scan started in — which is the case
/// exactly when the pass count is even, the parity every later phase of the
/// pipeline must respect when it picks a bin buffer.
pub fn prefix_scan(counts: Vec<usize>) -> (r: (Vec<usize>, u32, bool))
    requires
        range_sum(counts@, 0, counts@.len() as int) <= usize::MAX,
        counts@.len() <= usize::MAX / 2,
    ensures
        r.0@.len() == counts@.len(),
        forall|i: int| 0 <= i < counts@.len() ==> r.0@[i] == range_sum(counts@, 0, i + 1),
        r.2 == (r.1 % 2 == 0),
        counts@.len() <= pow2(r.1 as nat),
        r.1 > 0 ==> pow2((r.1 - 1) as nat) < counts@.len(),
{
    let ghost orig = counts@;
    let len = counts.len();
    let mut a = counts;
    let mut passes: u32 = 0;
    let mut in_start = true;
    let mut step: usize = 1;
    proof {
        lemma2_to64();
        assert forall|i: int| 0 <= i < len implies a@[i] == range_sum(orig, window_lo(i, 1), i + 1) by {
            assert(range_sum(orig, i, i + 1) == range_sum(orig, i, i) + orig[i]);
        }
    }
    while step < len
        invariant
            a@.len() == len,
            len == orig.len(),
            range_sum(orig, 0, len as int) <= usize::MAX,
            len <= usize::MAX / 2,
            1 <= step,
            step == pow2(passes as nat),
            in_start == (passes % 2 == 0),
            passes > 0 ==> pow2((passes - 1) as nat) < len,
            forall|i: int| 0 <= i < len ==> a@[i] == range_sum(orig, window_lo(i, step as int), i + 1),
        decreases 2 * len - step,
    {
        proof {
            // Window sums are bounded by the total, so a pass cannot overflow.
            assert forall|i: int| #![trigger a@[i]] step <= i < a@.len() implies a@[i] + a@[i - step]
                <= usize::MAX by {
                lemma_scan_windows_bounded(orig, i, step as int);
            }
        }
        let next = scan_pass(&a, step);
        proof {
            assert forall|i: int|
                0 <= i < len implies next@[i] == range_sum(orig, window_lo(i, 2 * step), i + 1) by {
                if i >= step {
                    lemma_range_sum_split(
                        orig,
                        window_lo(i - step as int, step as int),
                        i + 1 - step as int,
                        i + 1,
                    );
                }
            }
            // The pass count stays small because its power of two fits in usize.
            if passes >= 64 {
                lemma2_to64_rest();
                if passes > 64 {
                    lemma_pow2_strictly_increases(64, passes as nat);
                }
                assert(false);
            }
            lemma_pow2_unfold((passes + 1) as nat);
        }
        a = next;
        passes = passes + 1;
        in_start = !in_start;
        step = step * 2;
    }
    proof {
        assert forall|i: int| 0 <= i < len implies a@[i] == range_sum(orig, 0, i + 1) by {
            assert(window_lo(i, step as int) == 0);
        }
    }
    (a, passes, in_start)
}

/// Two adjacent scan windows together stay within the total sum.
proof fn lemma_scan_windows_bounded(orig: Seq<usize>, i: int, step: int)
    requires
        1 <= step <= i < orig.len(),
        range_sum(orig, 0, orig.len() as int) <= usize::MAX,
    ensures
        range_sum(orig, window_lo(i, step), i + 1) + range_sum(
            orig,
            window_lo(i - step, step),
            i + 1 - step,
        ) <= usize::MAX,
{
    lemma_range_sum_split(orig, window_lo(i - step, step), i + 1 - step, i + 1);
    lemma_range_sum_le_total(orig, window_lo(i - step, step), i + 1);
    lemma_range_sum_nonneg(orig, window_lo(i - step, step), i + 1 - step);
    lemma_range_sum_nonneg(orig, window_lo(i, step), i + 1);
    if window_lo(i, step) != i + 1 - step {
        // i + 1 - step < 0 cannot happen here since step <= i.
        assert(false);
    }
}

/// The number of prefix-sum doubling passes the pipeline schedules for
/// `total` bin counters: `ceil(log2(total))`, the smallest pass count whose
/// final window covers the whole array.  This is exactly the number of
/// passes the verified reference scan [`prefix_scan`] makes, so both sides
/// agree on the offsets-buffer parity.
pub fn prefix_sum_passes(total: u32) -> (r: u32)
    ensures
        r <= 32,
        total <= pow2(r as nat),
        r > 0 ==> pow2((r - 1) as nat) < total,
{
    if total <= 1 {
        proof {
            lemma2_to64();
        }
        0
    } else {
        let m = total - 1;
        proof {
            axiom_u32_leading_zeros(m);
            let lz = u32_leading_zeros(m);
            // m >= 1, so at most 31 leading zeros.
            assert(lz <= 31);
            // The bits above position 31 - lz are clear: m < 2^(32 - lz).
            if lz == 0 {
                lemma2_to64();
                lemma2_to64_rest();
            } else {
                let sh = (32 - lz) as u32;
                lemma_u32_shr_is_div(m, sh);
                vstd::arithmetic::power2::lemma_pow2_pos(sh as nat);
                assert(m as nat / pow2(sh as nat) == 0);
                vstd::arithmetic::div_mod::lemma_fundamental_div_mod(
                    m as int,
                    pow2(sh as nat) as int,
                );
                vstd::arithmetic::div_mod::lemma_mod_bound(m as int, pow2(sh as nat) as int);
            }
            assert(m < pow2((32 - lz) as nat));
            // The bit at position 31 - lz is set: m >= 2^(31 - lz).
            let sl = (31 - lz) as u32;
            assert((m >> sl) & 1u32 != 0u32);
            assert(m >> sl != 0u32) by (bit_vector)
                requires
                    (m >> sl) & 1u32 != 0u32,
            ;
            lemma_u32_shr_is_div(m, sl);
            vstd::arithmetic::power2::lemma_pow2_pos(sl as nat);
            assert(m as nat / pow2(sl as nat) >= 1);
            vstd::arithmetic::div_mod::lemma_fundamental_div_mod(
                m as int,
                pow2(sl as nat) as int,
            );
            vstd::arithmetic::div_mod::lemma_mod_bound(m as int, pow2(sl as nat) as int);
            vstd::arithmetic::mul::lemma_mul_inequality(
                1,
                m as int / pow2(sl as nat) as int,
                pow2(sl as nat) as int,
            );
            assert(pow2(sl as nat) <= m);
        }
        32 - m.leading_zeros()
    }
}

} // verus!
