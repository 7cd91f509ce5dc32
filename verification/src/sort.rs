//! The scatter phase of the bin sort, and the binned gather it enables.
//!
//! After counting and the prefix sum, every bin owns the index range
//! `[offsets[b], offsets[b+1])` of the sorted buffer.  The scatter walks the
//! particles, hands each one the next free slot of its bin, and writes it
//! there.  Its contract is the sort's correctness: the destinations are a
//! bijection — every input particle index appears exactly once in the sorted
//! output — and every particle lands inside its own bin's range.  On top of
//! the sorted layout, [`neighborhood_candidates`] enumerates the 3x3 bin
//! neighborhood of a cell, which is all the force pass ever reads.

use vstd::prelude::*;

verus! {

use crate::bins::{bin_offsets, count_bins, count_in_prefix, lemma_offsets_monotone, range_sum};

/// The start offset of bin `b`: how many particles fall in bins before it.
pub open spec fn bin_start(bins: Seq<usize>, b: int) -> int
    decreases b,
{
    if b <= 0 {
        0
    } else {
        bin_start(bins, b - 1) + count_in_prefix(bins, b - 1, bins.len() as int)
    }
}

proof fn lemma_count_in_prefix_mono(bins: Seq<usize>, b: int, k1: int, k2: int)
    requires
        0 <= k1 <= k2,
    ensures
        count_in_prefix(bins, b, k1) <= count_in_prefix(bins, b, k2),
    decreases k2 - k1,
{
    if k1 < k2 {
        lemma_count_in_prefix_mono(bins, b, k1, k2 - 1);
    }
}

/// A particle at position `j` with bin `b` makes the count of `b` beyond `j`
/// strictly larger than the count before `j`.
proof fn lemma_count_in_prefix_lt(bins: Seq<usize>, b: int, j: int)
    requires
        0 <= j < bins.len(),
        bins[j] == b,
    ensures
        count_in_prefix(bins, b, j) < count_in_prefix(bins, b, bins.len() as int),
{
    lemma_count_in_prefix_mono(bins, b, j + 1, bins.len() as int);
}

/// Bin starts are non-decreasing in the bin index.
pub proof fn lemma_bin_start_mono(bins: Seq<usize>, b1: int, b2: int)
    requires
        0 <= b1 <= b2,
    ensures
        bin_start(bins, b1) <= bin_start(bins, b2),
    decreases b2 - b1,
{
    if b1 < b2 {
        lemma_bin_start_mono(bins, b1, b2 - 1);
        lemma_count_in_prefix_nonneg(bins, b2 - 1);
    }
}

proof fn lemma_count_in_prefix_nonneg(bins: Seq<usize>, b: int)
    ensures
        count_in_prefix(bins, b, bins.len() as int) >= 0,
{
    lemma_count_in_prefix_mono(bins, b, 0, bins.len() as int);
}

/// Every sorted index below `bin_start(bins, cap)` lies in the range of some
/// bin below `cap`.
proof fn lemma_bin_start_cover(bins: Seq<usize>, cap: int, d: int)
    requires
        0 < cap,
        0 <= d < bin_start(bins, cap),
    ensures
        exists|b: int|
            0 <= b < cap && #[trigger] bin_start(bins, b) <= d < bin_start(bins, b + 1),
    decreases cap,
{
    if d >= bin_start(bins, cap - 1) {
        assert(bin_start(bins, cap - 1) <= d < bin_start(bins, cap));
    } else {
        lemma_bin_start_cover(bins, cap - 1, d);
    }
}

/// The offsets the prefix sum produces from the counts of `bins` are the
/// bin starts.
pub proof fn lemma_offsets_are_bin_starts(bins: Seq<usize>, counts: Seq<usize>, b: int)
    requires
        0 <= b <= counts.len(),
        forall|b2: int|
            0 <= b2 < counts.len() ==> counts[b2] == count_in_prefix(bins, b2, bins.len() as int),
    ensures
        range_sum(counts, 0, b) == bin_start(bins, b),
    decreases b,
{
    if b > 0 {
        lemma_offsets_are_bin_starts(bins, counts, b - 1);
    }
}

/// Scatter the particles into bin order.  `bins[j]` is the bin of particle
/// `j` and `offsets` are the bin starts.  Returns `(sorted, dest)` where
/// `sorted[d]` is the particle written at slot `d` and `dest[j]` is the slot
/// particle `j` was written to.  The two are inverse permutations — every
/// input particle appears exactly once in the sorted output — every
/// particle's slot lies within its own bin's range, and particles sharing a
/// bin keep their input order, which pins the output down completely.
pub fn scatter(bins: &Vec<usize>, offsets: &Vec<usize>, total_bins: usize) -> (r: (
    Vec<usize>,
    Vec<usize>,
))
    requires
        total_bins >= 1,
        forall|i: int| 0 <= i < bins@.len() ==> bins@[i] < total_bins,
        offsets@.len() == total_bins + 1,
        forall|b: int| 0 <= b <= total_bins ==> offsets@[b] == bin_start(bins@, b),
        offsets@[total_bins as int] == bins@.len(),
    ensures
        r.0@.len() == bins@.len(),
        r.1@.len() == bins@.len(),
        forall|j: int|
            0 <= j < bins@.len() ==> 0 <= #[trigger] r.1@[j] < bins@.len() && r.0@[r.1@[j] as int]
                == j,
        forall|d: int|
            0 <= d < bins@.len() ==> 0 <= #[trigger] r.0@[d] < bins@.len() && r.1@[r.0@[d] as int]
                == d,
        forall|d: int|
            0 <= d < bins@.len() ==> offsets@[bins@[#[trigger] r.0@[d] as int] as int] <= d
                < offsets@[bins@[r.0@[d] as int] + 1],
        forall|j1: int, j2: int|
            #![trigger r.1@[j1], r.1@[j2]]
            0 <= j1 < j2 < bins@.len() && bins@[j1] == bins@[j2] ==> r.1@[j1] < r.1@[j2],
{
    let n = bins.len();
    let mut slots: Vec<usize> = Vec::new();
    let mut b: usize = 0;
    while b < total_bins
        invariant
            b <= total_bins,
            slots@.len() == b,
            offsets@.len() == total_bins + 1,
            forall|k: int| 0 <= k < b ==> slots@[k] == offsets@[k],
        decreases total_bins - b,
    {
        slots.push(offsets[b]);
        b = b + 1;
    }
    let mut sorted = vec![0usize; n];
    let mut dest = vec![0usize; n];
    let mut j: usize = 0;
    while j < n
        invariant
            n == bins@.len(),
            j <= n,
            total_bins >= 1,
            sorted@.len() == n,
            dest@.len() == n,
            slots@.len() == total_bins,
            offsets@.len() == total_bins + 1,
            forall|i: int| 0 <= i < bins@.len() ==> bins@[i] < total_bins,
            forall|k: int| 0 <= k <= total_bins ==> offsets@[k] == bin_start(bins@, k),
            offsets@[total_bins as int] == n,
            forall|k: int|
                0 <= k < total_bins ==> #[trigger] slots@[k] == offsets@[k] + count_in_prefix(
                    bins@,
                    k,
                    j as int,
                ),
            forall|jj: int|
                0 <= jj < j ==> offsets@[bins@[jj] as int] <= #[trigger] dest@[jj]
                    < slots@[bins@[jj] as int],
            forall|jj: int| 0 <= jj < j ==> sorted@[#[trigger] dest@[jj] as int] == jj,
            forall|j1: int, j2: int|
                #![trigger dest@[j1], dest@[j2]]
                0 <= j1 < j2 < j && bins@[j1] == bins@[j2] ==> dest@[j1] < dest@[j2],
            forall|k: int, d: int|
                #![trigger offsets@[k], sorted@[d]]
                0 <= k < total_bins && offsets@[k] <= d < slots@[k] ==> 0 <= sorted@[d] < j
                    && bins@[sorted@[d] as int] == k && dest@[sorted@[d] as int] == d,
        decreases n - j,
    {
        let bj = bins[j];
        proof {
            lemma_count_in_prefix_lt(bins@, bj as int, j as int);
            lemma_count_in_prefix_mono(bins@, bj as int, 0, j as int);
            // The next free slot is still inside this bin's range, which in
            // turn is inside the sorted buffer.
            assert(slots@[bj as int] < offsets@[bj as int + 1]);
            lemma_bin_start_mono(bins@, bj as int + 1, total_bins as int);
            assert(slots@[bj as int] < n);
        }
        let d = slots[bj];
        let ghost old_sorted = sorted@;
        let ghost old_dest = dest@;
        let ghost old_slots = slots@;
        sorted.set(d, j);
        dest.set(j, d);
        slots.set(bj, d + 1);
        proof {
            assert forall|k: int, dd: int|
                #![trigger offsets@[k], sorted@[dd]]
                0 <= k < total_bins && offsets@[k] <= dd < slots@[k] implies 0 <= sorted@[dd] < j + 1
                && bins@[sorted@[dd] as int] == k && dest@[sorted@[dd] as int] == dd by {
                if k == bj && dd == d {
                } else {
                    // dd lies in a region filled before this iteration, and
                    // that region cannot contain the fresh slot d.
                    assert(offsets@[k] <= dd < old_slots[k]);
                    if k < bj {
                        lemma_count_in_prefix_mono(bins@, k, j as int, bins@.len() as int);
                        assert(old_slots[k] <= offsets@[k + 1]);
                        lemma_bin_start_mono(bins@, k + 1, bj as int);
                        lemma_count_in_prefix_mono(bins@, bj as int, 0, j as int);
                        assert(dd < d);
                    } else if k > bj {
                        lemma_bin_start_mono(bins@, bj as int + 1, k);
                        assert(d < offsets@[bj as int + 1]);
                        assert(d < dd);
                        lemma_count_in_prefix_mono(bins@, k, j as int, bins@.len() as int);
                        assert(old_slots[k] <= offsets@[k + 1]);
                        lemma_bin_start_mono(bins@, k + 1, total_bins as int);
                    } else {
                        assert(dd < d);
                    }
                    assert(0 <= dd < n);
                    assert(sorted@[dd] == old_sorted[dd]);
                    assert(dest@[old_sorted[dd] as int] == old_dest[old_sorted[dd] as int]);
                }
            }
            assert forall|k: int|
                0 <= k < total_bins implies #[trigger] slots@[k] == offsets@[k] + count_in_prefix(
                bins@,
                k,
                j + 1,
            ) by {}
        }
        j = j + 1;
    }
    proof {
        // At the end every bin's region is full, so its upper edge is the
        // next bin's start; the regions tile [0, n) exactly.
        assert forall|jj: int| 0 <= jj < n implies 0 <= #[trigger] dest@[jj] < n && sorted@[dest@[jj] as int]
            == jj by {
            let b = bins@[jj] as int;
            assert(slots@[b] == offsets@[b] + count_in_prefix(bins@, b, n as int));
            lemma_bin_start_mono(bins@, b + 1, total_bins as int);
            assert(slots@[b] <= n);
        }
        assert forall|d: int| 0 <= d < n implies 0 <= #[trigger] sorted@[d] < n && dest@[sorted@[d] as int]
            == d && offsets@[bins@[sorted@[d] as int] as int] <= d
            < offsets@[bins@[sorted@[d] as int] + 1] by {
            lemma_bin_start_cover(bins@, total_bins as int, d);
            let k = choose|k: int|
                0 <= k < total_bins && #[trigger] bin_start(bins@, k) <= d < bin_start(
                    bins@,
                    k + 1,
                );
            assert(slots@[k] == offsets@[k] + count_in_prefix(bins@, k, n as int));
            assert(slots@[k] == bin_start(bins@, k + 1));
            assert(offsets@[k] <= d < slots@[k]);
        }
    }
    (sorted, dest)
}

/// The whole CPU-side bin sort: count the bins, turn the counts into
/// offsets, and scatter.  Returns `(sorted, dest, offsets)`: the sorted
/// particle order, the inverse slot map, and the bin start offsets, which
/// are non-decreasing and end at the particle count.
pub fn sort_by_bins(bins: &Vec<usize>, total_bins: usize) -> (r: (
    Vec<usize>,
    Vec<usize>,
    Vec<usize>,
))
    requires
        total_bins >= 1,
        forall|i: int| 0 <= i < bins@.len() ==> bins@[i] < total_bins,
    ensures
        r.0@.len() == bins@.len(),
        r.1@.len() == bins@.len(),
        forall|j: int|
            0 <= j < bins@.len() ==> 0 <= #[trigger] r.1@[j] < bins@.len() && r.0@[r.1@[j] as int]
                == j,
        forall|d: int|
            0 <= d < bins@.len() ==> 0 <= #[trigger] r.0@[d] < bins@.len() && r.1@[r.0@[d] as int]
                == d,
        forall|d: int|
            0 <= d < bins@.len() ==> r.2@[bins@[#[trigger] r.0@[d] as int] as int] <= d
                < r.2@[bins@[r.0@[d] as int] + 1],
        r.2@.len() == total_bins + 1,
        r.2@[0] == 0,
        r.2@[total_bins as int] == bins@.len(),
        forall|b1: int, b2: int|
            #![trigger r.2@[b1], r.2@[b2]]
            0 <= b1 <= b2 <= total_bins ==> r.2@[b1] <= r.2@[b2],
        forall|j1: int, j2: int|
            #![trigger r.1@[j1], r.1@[j2]]
            0 <= j1 < j2 < bins@.len() && bins@[j1] == bins@[j2] ==> r.1@[j1] < r.1@[j2],
{
    let n = bins.len();
    let counts = count_bins(bins, total_bins);
    proof {
        assert(range_sum(counts@, 0, counts@.len() as int) == n);
    }
    let offsets = bin_offsets(&counts);
    proof {
        assert forall|b: int| 0 <= b <= total_bins implies offsets@[b] == bin_start(bins@, b) by {
            lemma_offsets_are_bin_starts(bins@, counts@, b);
        }
        assert forall|b1: int, b2: int|
            #![trigger offsets@[b1], offsets@[b2]]
            0 <= b1 <= b2 <= total_bins implies offsets@[b1] <= offsets@[b2] by {
            lemma_offsets_monotone(counts@, b1, b2);
        }
    }
    let (sorted, dest) = scatter(bins, &offsets, total_bins);
    (sorted, dest, offsets)
}

/// A cell coordinate moved by one step, wrapped around a grid axis of the
/// given size.
pub open spec fn wrap_coord(c: int, delta: int, size: int) -> int {
    let n = c + delta;
    if n < 0 {
        n + size
    } else if n >= size {
        n - size
    } else {
        n
    }
}

/// The bin of the neighbor cell at offset `(dx, dy)` from `(cx, cy)`.
pub open spec fn neighbor_cell_bin(
    cx: int,
    cy: int,
    dx: int,
    dy: int,
    w: int,
    h: int,
    wrap: bool,
) -> int {
    if wrap {
        wrap_coord(cy, dy, h) * w + wrap_coord(cx, dx, w)
    } else {
        (cy + dy) * w + (cx + dx)
    }
}

/// Whether the neighbor cell at offset `(dx, dy)` exists: always under
/// wrapping, inside the grid otherwise.
pub open spec fn neighbor_in_grid(
    cx: int,
    cy: int,
    dx: int,
    dy: int,
    w: int,
    h: int,
    wrap: bool,
) -> bool {
    wrap || (0 <= cx + dx < w && 0 <= cy + dy < h)
}

/// The X offset of the q-th cell of the 3x3 neighborhood scan.
pub open spec fn off_dx(q: int) -> int {
    q % 3 - 1
}

/// The Y offset of the q-th cell of the 3x3 neighborhood scan.
pub open spec fn off_dy(q: int) -> int {
    q / 3 - 1
}

/// Whether slot `d` of the sorted layout belongs to the q-th neighbor bin
/// of cell `(cx, cy)`.
pub open spec fn hit_slot(
    offsets: Seq<usize>,
    cx: int,
    cy: int,
    w: int,
    h: int,
    wrap: bool,
    d: int,
    q: int,
) -> bool {
    &&& neighbor_in_grid(cx, cy, off_dx(q), off_dy(q), w, h, wrap)
    &&& offsets[neighbor_cell_bin(cx, cy, off_dx(q), off_dy(q), w, h, wrap)] <= d
    &&& d < offsets[neighbor_cell_bin(cx, cy, off_dx(q), off_dy(q), w, h, wrap) + 1]
}

/// Whether slot `d` belongs to one of the first `t` neighbor bins visited
/// by the scan.
pub open spec fn gathered_upto(
    offsets: Seq<usize>,
    cx: int,
    cy: int,
    w: int,
    h: int,
    wrap: bool,
    d: int,
    t: int,
) -> bool {
    exists|q: int| 0 <= q < t && #[trigger] hit_slot(offsets, cx, cy, w, h, wrap, d, q)
}

/// Whether `x` is read from one of the nine neighbor-bin slot ranges of
/// cell `(cx, cy)` in the sorted layout: there are an offset `(dx, dy)` and
/// a slot `d` of that neighbor bin with `x == sorted[d]`.
pub open spec fn drawn_from_neighborhood(
    sorted: Seq<usize>,
    offsets: Seq<usize>,
    cx: int,
    cy: int,
    w: int,
    h: int,
    wrap: bool,
    x: usize,
) -> bool {
    exists|dx: int, dy: int, d: int|
        #![trigger neighbor_cell_bin(cx, cy, dx, dy, w, h, wrap), sorted[d]]
        -1 <= dx <= 1 && -1 <= dy <= 1 && neighbor_in_grid(cx, cy, dx, dy, w, h, wrap)
            && offsets[neighbor_cell_bin(cx, cy, dx, dy, w, h, wrap)] <= d < offsets[
            neighbor_cell_bin(cx, cy, dx, dy, w, h, wrap) + 1] && x == sorted[d]
}

/// Resolve one axis of a neighbor cell: the coordinate moved by `t - 1`
/// (so `t` runs over 0, 1, 2), wrapped around the axis or clipped off it.
fn resolve_axis(c: usize, t: usize, size: usize, wrap: bool) -> (r: Option<usize>)
    requires
        c < size,
        1 <= size,
        t <= 2,
    ensures
        wrap ==> (r matches Some(v) && v == wrap_coord(c as int, t - 1, size as int)),
        !wrap ==> (r is Some <==> 0 <= c + t - 1 < size),
        !wrap ==> (r matches Some(v) ==> v == c + t - 1),
        r matches Some(v) ==> v < size,
{
    if t == 0 {
        if c > 0 {
            Some(c - 1)
        } else if wrap {
            Some(size - 1)
        } else {
            None
        }
    } else if t == 2 {
        if c + 1 < size {
            Some(c + 1)
        } else if wrap {
            Some(0)
        } else {
            None
        }
    } else {
        Some(c)
    }
}

/// Append `sorted[lo..hi]` to `r`, keeping everything already there.
fn append_range(r: &mut Vec<usize>, sorted: &Vec<usize>, lo: usize, hi: usize)
    requires
        lo <= hi <= sorted@.len(),
    ensures
        final(r)@ == old(r)@ + sorted@.subrange(lo as int, hi as int),
        forall|x: usize| old(r)@.contains(x) ==> final(r)@.contains(x),
        forall|d: int| lo <= d < hi ==> final(r)@.contains(#[trigger] sorted@[d]),
{
    let ghost snap = r@;
    let mut d = lo;
    while d < hi
        invariant
            lo <= d <= hi,
            hi <= sorted@.len(),
            r@ == snap + sorted@.subrange(lo as int, d as int),
        decreases hi - d,
    {
        r.push(sorted[d]);
        proof {
            assert(r@ =~= snap + sorted@.subrange(lo as int, d + 1));
        }
        d = d + 1;
    }
    proof {
        assert forall|x: usize| snap.contains(x) implies r@.contains(x) by {
            let j2 = choose|j2: int| 0 <= j2 < snap.len() && snap[j2] == x;
            assert(r@[j2] == x);
        }
        assert forall|d2: int| lo <= d2 < hi implies r@.contains(sorted@[d2]) by {
            assert(r@[snap.len() + (d2 - lo)] == sorted@[d2]);
        }
    }
}

/// Enumerate the force-gather candidates of the cell `(cx, cy)` in the
/// bin-sorted particle layout: the contents of all bins in the 3x3 cell
/// neighborhood, read through the offsets table.  Every particle stored in a
/// neighbor bin's slot range is returned — and nothing else: every entry of
/// the result is read from a neighbor bin's slot range, so the binned force
/// pass examines a superset of the particles in interaction range and only
/// the 3x3 neighborhood.
pub fn neighborhood_candidates(
    sorted: &Vec<usize>,
    offsets: &Vec<usize>,
    cx: usize,
    cy: usize,
    grid_width: usize,
    grid_height: usize,
    wrap: bool,
) -> (r: Vec<usize>)
    requires
        1 <= grid_width,
        1 <= grid_height,
        cx < grid_width,
        cy < grid_height,
        offsets@.len() == grid_width * grid_height + 1,
        forall|b1: int, b2: int|
            #![trigger offsets@[b1], offsets@[b2]]
            0 <= b1 <= b2 < offsets@.len() ==> offsets@[b1] <= offsets@[b2],
        offsets@[grid_width * grid_height] == sorted@.len(),
    ensures
        forall|dx: int, dy: int, d: int|
            #![trigger neighbor_cell_bin(cx as int, cy as int, dx, dy, grid_width as int, grid_height as int, wrap), sorted@[d]]
            -1 <= dx <= 1 && -1 <= dy <= 1 && neighbor_in_grid(
                cx as int,
                cy as int,
                dx,
                dy,
                grid_width as int,
                grid_height as int,
                wrap,
            ) && offsets@[neighbor_cell_bin(
                cx as int,
                cy as int,
                dx,
                dy,
                grid_width as int,
                grid_height as int,
                wrap,
            )] <= d < offsets@[neighbor_cell_bin(
                cx as int,
                cy as int,
                dx,
                dy,
                grid_width as int,
                grid_height as int,
                wrap,
            ) + 1] ==> r@.contains(sorted@[d]),
        forall|k: int|
            #![trigger r@[k]]
            0 <= k < r@.len() ==> drawn_from_neighborhood(
                sorted@,
                offsets@,
                cx as int,
                cy as int,
                grid_width as int,
                grid_height as int,
                wrap,
                r@[k],
            ),
{
    let w = grid_width;
    let h = grid_height;
    let ghost ww = w as int;
    let ghost hh = h as int;
    let olen = offsets.len();
    proof {
        assert forall|b: int| 0 <= b < olen implies #[trigger] offsets@[b] <= sorted@.len() by {
            assert(offsets@[b] <= offsets@[(w * h) as int]);
        }
        assert forall|b: int| 0 <= b < olen - 1 implies #[trigger] offsets@[b] <= offsets@[b + 1] by {}
    }
    let mut r: Vec<usize> = Vec::new();
    // For each result entry, the scan offset and slot it was read from.
    let ghost mut srcs: Seq<(int, int)> = Seq::empty();
    let mut q: usize = 0;
    while q < 9
        invariant
            1 <= w,
            1 <= h,
            cx < w,
            cy < h,
            ww == w as int,
            hh == h as int,
            q <= 9,
            offsets@.len() == w * h + 1,
            olen == w * h + 1,
            forall|b: int| 0 <= b < olen ==> #[trigger] offsets@[b] <= sorted@.len(),
            forall|b: int| 0 <= b < olen - 1 ==> #[trigger] offsets@[b] <= offsets@[b + 1],
            forall|d: int|
                #![trigger sorted@[d]]
                gathered_upto(offsets@, cx as int, cy as int, ww, hh, wrap, d, q as int)
                    ==> r@.contains(sorted@[d]),
            srcs.len() == r@.len(),
            forall|k: int|
                #![trigger srcs[k]]
                0 <= k < r@.len() ==> 0 <= srcs[k].0 < q && hit_slot(
                    offsets@,
                    cx as int,
                    cy as int,
                    ww,
                    hh,
                    wrap,
                    srcs[k].1,
                    srcs[k].0,
                ) && r@[k] == sorted@[srcs[k].1],
        decreases 9 - q,
    {
        let tx = q % 3;
        let ty = q / 3;
        let ghost dx0 = tx as int - 1;
        let ghost dy0 = ty as int - 1;
        let nbx = resolve_axis(cx, tx, w, wrap);
        let nby = resolve_axis(cy, ty, h, wrap);
        let ghost snap = r@;
        if let (Some(bx), Some(by)) = (nbx, nby) {
            proof {
                lemma_neighbor_bin_bound(bx as int, by as int, ww, hh);
                assert(by * ww + bx == neighbor_cell_bin(cx as int, cy as int, dx0, dy0, ww, hh, wrap));
            }
            let nb = by * w + bx;
            let lo = offsets[nb];
            let hi = offsets[nb + 1];
            append_range(&mut r, sorted, lo, hi);
            proof {
                // Record where the appended entries were read from; older
                // entries keep their recorded source.
                srcs = srcs + Seq::new((hi - lo) as nat, |t: int| (q as int, lo + t));
                assert forall|k: int| #![trigger r@[k]] 0 <= k < r@.len() implies 0 <= srcs[k].0 < q
                    + 1 && hit_slot(
                    offsets@,
                    cx as int,
                    cy as int,
                    ww,
                    hh,
                    wrap,
                    srcs[k].1,
                    srcs[k].0,
                ) && r@[k] == sorted@[srcs[k].1] by {
                    if k < snap.len() {
                        assert(r@[k] == snap[k]);
                    } else {
                        let d = lo + (k - snap.len());
                        assert(srcs[k] == (q as int, d));
                        assert(r@[k] == sorted@[d]);
                        assert(hit_slot(offsets@, cx as int, cy as int, ww, hh, wrap, d, q as int));
                    }
                }
            }
        }
        proof {
            assert forall|d: int|
                #![trigger sorted@[d]]
                gathered_upto(offsets@, cx as int, cy as int, ww, hh, wrap, d, q + 1) implies r@
                .contains(sorted@[d]) by {
                let q2 = choose|q2: int|
                    0 <= q2 < q + 1 && #[trigger] hit_slot(
                        offsets@,
                        cx as int,
                        cy as int,
                        ww,
                        hh,
                        wrap,
                        d,
                        q2,
                    );
                if q2 < q {
                    assert(gathered_upto(offsets@, cx as int, cy as int, ww, hh, wrap, d, q as int));
                } else {
                    assert(off_dx(q2) == dx0 && off_dy(q2) == dy0);
                    assert(nbx is Some && nby is Some);
                }
            }
        }
        q = q + 1;
    }
    proof {
        assert forall|dx: int, dy: int, d: int|
            #![trigger neighbor_cell_bin(cx as int, cy as int, dx, dy, ww, hh, wrap), sorted@[d]]
            -1 <= dx <= 1 && -1 <= dy <= 1 && neighbor_in_grid(cx as int, cy as int, dx, dy, ww, hh, wrap)
                && offsets@[neighbor_cell_bin(cx as int, cy as int, dx, dy, ww, hh, wrap)] <= d
                < offsets@[neighbor_cell_bin(cx as int, cy as int, dx, dy, ww, hh, wrap)
                + 1] implies r@.contains(sorted@[d]) by {
            let q2 = (dy + 1) * 3 + (dx + 1);
            assert(off_dx(q2) == dx && off_dy(q2) == dy);
            assert(hit_slot(offsets@, cx as int, cy as int, ww, hh, wrap, d, q2));
            assert(gathered_upto(offsets@, cx as int, cy as int, ww, hh, wrap, d, 9));
        }
        assert forall|k: int| #![trigger r@[k]] 0 <= k < r@.len() implies drawn_from_neighborhood(
            sorted@,
            offsets@,
            cx as int,
            cy as int,
            ww,
            hh,
            wrap,
            r@[k],
        ) by {
            let q2 = srcs[k].0;
            let d = srcs[k].1;
            let dx = off_dx(q2);
            let dy = off_dy(q2);
            assert(-1 <= dx <= 1 && -1 <= dy <= 1);
            assert(neighbor_in_grid(cx as int, cy as int, dx, dy, ww, hh, wrap)
                && offsets@[neighbor_cell_bin(cx as int, cy as int, dx, dy, ww, hh, wrap)] <= d
                < offsets@[neighbor_cell_bin(cx as int, cy as int, dx, dy, ww, hh, wrap) + 1]
                && r@[k] == sorted@[d]);
        }
    }
    r
}

/// A wrapped or clipped neighbor coordinate stays inside the grid.
proof fn lemma_neighbor_bin_bound(x: int, y: int, w: int, h: int)
    requires
        0 <= x < w,
        0 <= y < h,
    ensures
        0 <= y * w + x < w * h,
        y * w + x + 1 <= w * h,
{
    assert(y * w + x < w * h) by (nonlinear_arith)
        requires
            0 <= x < w,
            0 <= y < h,
    ;
    assert(y * w >= 0) by (nonlinear_arith)
        requires
            y >= 0,
            w > 0,
    ;
}

} // verus!
