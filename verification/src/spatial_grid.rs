//! The uniform grid behind the CPU spatial hash.
//!
//! The grid buckets particle indices by cell coordinate and answers ring
//! queries: all indices whose cell lies within a given Chebyshev distance of
//! a center cell, with the cell coordinates either wrapped toroidally or
//! clipped at the edge.  Its promise is a superset guarantee — every particle
//! whose cell is in range is returned — and the force evaluator applies the
//! exact distance test to each candidate.  Mapping a floating-point position
//! to its cell coordinate is the application shell's one step.

use vstd::prelude::*;

verus! {

use crate::math::euclidean_mod;

/// The mathematical model of a [`SpatialGrid`]: its dimensions, the indices
/// bucketed per cell, and the cell coordinate of each indexed particle.
pub struct SpatialGridView {
    /// Number of cells in X direction.
    pub width: int,
    /// Number of cells in Y direction.
    pub height: int,
    /// Particle indices stored per cell, row-major.
    pub cells: Seq<Seq<usize>>,
    /// The cell coordinate each particle index was bucketed by.
    pub coords: Seq<(usize, usize)>,
}

impl SpatialGridView {
    /// The row-major cell index of particle `i`'s coordinate.
    pub open spec fn cell_of(self, i: int) -> int {
        self.coords[i].1 * self.width + self.coords[i].0
    }

    /// Whether particle `i`'s cell is hit by the query offset `(dx, dy)`
    /// from center `(cx, cy)`: wrapped around the grid when `wrap` is set,
    /// taken literally otherwise (an offset outside the grid then hits
    /// nothing, because every stored coordinate is inside it).
    pub open spec fn hit_by_offset(
        self,
        cx: int,
        cy: int,
        dx: int,
        dy: int,
        wrap: bool,
    ) -> spec_fn(int) -> bool {
        |i: int|
            if wrap {
                self.coords[i].0 == (cx + dx) % self.width && self.coords[i].1 == (cy + dy)
                    % self.height
            } else {
                self.coords[i].0 == cx + dx && self.coords[i].1 == cy + dy
            }
    }

    /// Whether particle `i`'s cell lies within `reach` rings of the center
    /// cell `(cx, cy)`.
    pub open spec fn in_reach(self, cx: int, cy: int, reach: int, wrap: bool, i: int) -> bool {
        exists|dx: int, dy: int|
            #![trigger self.hit_by_offset(cx, cy, dx, dy, wrap)]
            -reach <= dx <= reach && -reach <= dy <= reach && self.hit_by_offset(
                cx,
                cy,
                dx,
                dy,
                wrap,
            )(i)
    }
}

/// A spatial hash grid over cell coordinates for efficient neighbor queries.
pub struct SpatialGrid {
    /// Number of cells in X direction.
    grid_width: usize,
    /// Number of cells in Y direction.
    grid_height: usize,
    /// Particle indices stored per cell.
    cells: Vec<Vec<usize>>,
    /// The coordinate each particle was bucketed by.
    coords: Ghost<Seq<(usize, usize)>>,
}

impl View for SpatialGrid {
    type V = SpatialGridView;

    closed spec fn view(&self) -> SpatialGridView {
        SpatialGridView {
            width: self.grid_width as int,
            height: self.grid_height as int,
            cells: Seq::new(self.cells@.len(), |c: int| self.cells@[c]@),
            coords: self.coords@,
        }
    }
}

impl SpatialGrid {
    /// The grid covers its dimensions, every stored index is a particle
    /// whose coordinate maps to exactly the cell storing it, every particle
    /// is stored in its own cell, and the indices within a cell strictly
    /// increase — so every particle appears exactly once in the structure.
    pub open spec fn wf(self) -> bool {
        &&& 1 <= self@.width <= i32::MAX
        &&& 1 <= self@.height <= i32::MAX
        &&& self@.width * self@.height <= usize::MAX
        &&& self@.cells.len() == self@.width * self@.height
        &&& forall|i: int|
            0 <= i < self@.coords.len() ==> (#[trigger] self@.coords[i]).0 < self@.width
                && self@.coords[i].1 < self@.height
        &&& forall|i: int|
            0 <= i < self@.coords.len() ==> self@.cells[#[trigger] self@.cell_of(i)].contains(
                i as usize,
            )
        &&& forall|c: int, k: int|
            0 <= c < self@.cells.len() && 0 <= k < self@.cells[c].len() ==> {
                let e = #[trigger] self@.cells[c][k];
                e < self@.coords.len() && self@.cell_of(e as int) == c
            }
        &&& forall|c: int, k1: int, k2: int|
            #![trigger self@.cells[c][k1], self@.cells[c][k2]]
            0 <= c < self@.cells.len() && 0 <= k1 < k2 < self@.cells[c].len()
                ==> self@.cells[c][k1] < self@.cells[c][k2]
    }

    /// Build a spatial grid from the cell coordinate of each particle.
    pub fn build(coords: &Vec<(usize, usize)>, grid_width: usize, grid_height: usize) -> (r: Self)
        requires
            1 <= grid_width <= i32::MAX,
            1 <= grid_height <= i32::MAX,
            grid_width * grid_height <= usize::MAX,
            forall|i: int|
                0 <= i < coords@.len() ==> (#[trigger] coords@[i]).0 < grid_width
                    && coords@[i].1 < grid_height,
        ensures
            r.wf(),
            r@.width == grid_width,
            r@.height == grid_height,
            r@.coords == coords@,
    {
        let total = grid_width * grid_height;
        let mut cells: Vec<Vec<usize>> = Vec::new();
        let mut c: usize = 0;
        while c < total
            invariant
                c <= total,
                cells@.len() == c,
                forall|k: int| 0 <= k < c ==> (#[trigger] cells@[k])@.len() == 0,
            decreases total - c,
        {
            cells.push(Vec::new());
            c = c + 1;
        }
        let n = coords.len();
        let mut i: usize = 0;
        while i < n
            invariant
                n == coords@.len(),
                i <= n,
                1 <= grid_width <= i32::MAX,
                1 <= grid_height <= i32::MAX,
                grid_width * grid_height <= usize::MAX,
                total == grid_width * grid_height,
                cells@.len() == total,
                forall|k: int|
                    0 <= k < n ==> (#[trigger] coords@[k]).0 < grid_width && coords@[k].1
                        < grid_height,
                forall|k: int|
                    0 <= k < i ==> cells@[coords@[k].1 * grid_width + coords@[k].0]@.contains(
                        k as usize,
                    ),
                forall|c2: int, k: int|
                    0 <= c2 < cells@.len() && 0 <= k < cells@[c2]@.len() ==> {
                        let e = #[trigger] cells@[c2]@[k];
                        e < i && coords@[e as int].1 * grid_width + coords@[e as int].0 == c2
                    },
                forall|c2: int, k1: int, k2: int|
                    #![trigger cells@[c2]@[k1], cells@[c2]@[k2]]
                    0 <= c2 < cells@.len() && 0 <= k1 < k2 < cells@[c2]@.len()
                        ==> cells@[c2]@[k1] < cells@[c2]@[k2],
            decreases n - i,
        {
            let (x, y) = coords[i];
            proof {
                lemma_cell_index_bound(x as int, y as int, grid_width as int, grid_height as int);
            }
            let idx = y * grid_width + x;
            let ghost before = cells@;
            cells[idx].push(i);
            proof {
                assert(cells@[idx as int]@ == before[idx as int]@.push(i));
                assert forall|k: int|
                    0 <= k < i + 1 implies cells@[coords@[k].1 * grid_width + coords@[k].0]@
                    .contains(k as usize) by {
                    let ck = coords@[k].1 * grid_width + coords@[k].0;
                    lemma_cell_index_bound(
                        coords@[k].0 as int,
                        coords@[k].1 as int,
                        grid_width as int,
                        grid_height as int,
                    );
                    if k < i {
                        let w = choose|w: int| 0 <= w < before[ck]@.len() && before[ck]@[w] == k;
                        if ck == idx {
                            assert(cells@[ck]@[w] == k);
                        } else {
                            assert(cells@[ck]@ == before[ck]@);
                        }
                    } else {
                        assert(cells@[idx as int]@[before[idx as int]@.len() as int] == i);
                    }
                }
            }
            i = i + 1;
        }
        let r = SpatialGrid {
            grid_width,
            grid_height,
            cells,
            coords: Ghost(coords@),
        };
        proof {
            assert forall|i2: int|
                0 <= i2 < r@.coords.len() implies r@.cells[#[trigger] r@.cell_of(i2)].contains(
                i2 as usize,
            ) by {
                lemma_cell_index_bound(
                    r@.coords[i2].0 as int,
                    r@.coords[i2].1 as int,
                    grid_width as int,
                    grid_height as int,
                );
                assert(r@.cells[r@.cell_of(i2)] == r.cells@[r@.cell_of(i2)]@);
            }
        }
        r
    }

    /// Get the number of cells in the grid.
    pub fn num_cells(&self) -> (r: usize)
        ensures
            r == self@.cells.len(),
    {
        self.cells.len()
    }

    /// Get grid dimensions.
    pub fn dimensions(&self) -> (r: (usize, usize))
        ensures
            r.0 == self@.width,
            r.1 == self@.height,
    {
        (self.grid_width, self.grid_height)
    }

    /// The size of the GPU bin-count buffers for this grid: one counter per
    /// cell plus the extra end-offset slot.
    pub fn total_bins_with_end(&self) -> (r: usize)
        requires
            self@.cells.len() < usize::MAX,
        ensures
            r == self@.cells.len() + 1,
    {
        self.cells.len() + 1
    }

    /// Get the particle indices in a specific cell.
    pub fn get_cell(&self, cell_idx: usize) -> (r: &Vec<usize>)
        requires
            cell_idx < self@.cells.len(),
        ensures
            r@ == self@.cells[cell_idx as int],
    {
        &self.cells[cell_idx]
    }

    /// Query all particle indices whose cell lies within `reach` rings of
    /// the center cell.  The result is a superset of the particles within
    /// the corresponding radius: callers still apply the exact distance
    /// test.  With `wrap`, ring cells wrap around the grid; without it,
    /// ring cells outside the grid are skipped.
    pub fn query_radius(&self, center_x: usize, center_y: usize, reach: usize, wrap: bool) -> (r:
        Vec<usize>)
        requires
            self.wf(),
            center_x < self@.width,
            center_y < self@.height,
            reach <= 0x3fffffff,
            center_x + reach <= i32::MAX,
            center_y + reach <= i32::MAX,
        ensures
            forall|i: usize|
                i < self@.coords.len() && self@.in_reach(
                    center_x as int,
                    center_y as int,
                    reach as int,
                    wrap,
                    i as int,
                ) ==> r@.contains(i),
            forall|k: int|
                0 <= k < r@.len() ==> #[trigger] r@[k] < self@.coords.len() && self@.in_reach(
                    center_x as int,
                    center_y as int,
                    reach as int,
                    wrap,
                    r@[k] as int,
                ),
    {
        let ghost v = self@;
        let w = self.grid_width;
        let h = self.grid_height;
        let span = 2 * reach + 1;
        let mut result: Vec<usize> = Vec::new();
        let mut sy: usize = 0;
        while sy < span
            invariant
                self.wf(),
                v == self@,
                w == self.grid_width,
                h == self.grid_height,
                span == 2 * reach + 1,
                reach <= 0x3fffffff,
                center_x < w,
                center_y < h,
                center_x + reach <= i32::MAX,
                center_y + reach <= i32::MAX,
                sy <= span,
                forall|i: usize|
                    i < v.coords.len() && covered_before(
                        v,
                        center_x as int,
                        center_y as int,
                        reach as int,
                        wrap,
                        i as int,
                        sy as int,
                        0,
                    ) ==> result@.contains(i),
                forall|k: int|
                    0 <= k < result@.len() ==> #[trigger] result@[k] < v.coords.len()
                        && v.in_reach(
                        center_x as int,
                        center_y as int,
                        reach as int,
                        wrap,
                        result@[k] as int,
                    ),
            decreases span - sy,
        {
            let mut sx: usize = 0;
            while sx < span
                invariant
                    self.wf(),
                    v == self@,
                    w == self.grid_width,
                    h == self.grid_height,
                    span == 2 * reach + 1,
                    reach <= 0x3fffffff,
                    center_x < w,
                    center_y < h,
                    center_x + reach <= i32::MAX,
                    center_y + reach <= i32::MAX,
                    sy < span,
                    sx <= span,
                    forall|i: usize|
                        i < v.coords.len() && covered_before(
                            v,
                            center_x as int,
                            center_y as int,
                            reach as int,
                            wrap,
                            i as int,
                            sy as int,
                            sx as int,
                        ) ==> result@.contains(i),
                    forall|k: int|
                        0 <= k < result@.len() ==> #[trigger] result@[k] < v.coords.len()
                            && v.in_reach(
                            center_x as int,
                            center_y as int,
                            reach as int,
                            wrap,
                            result@[k] as int,
                        ),
                decreases span - sx,
            {
                let dx = sx as i32 - reach as i32;
                let dy = sy as i32 - reach as i32;
                let nx = center_x as i32 + dx;
                let ny = center_y as i32 + dy;
                // Resolve the ring cell on each axis: wrapped, in range, or
                // absent.
                let cell_x: Option<usize> = if wrap {
                    Some(euclidean_mod(nx, w as i32) as usize)
                } else if 0 <= nx && nx < w as i32 {
                    Some(nx as usize)
                } else {
                    None
                };
                let cell_y: Option<usize> = if wrap {
                    Some(euclidean_mod(ny, h as i32) as usize)
                } else if 0 <= ny && ny < h as i32 {
                    Some(ny as usize)
                } else {
                    None
                };
                let ghost snap = result@;
                if let (Some(cx2), Some(cy2)) = (cell_x, cell_y) {
                    proof {
                        lemma_cell_index_bound(cx2 as int, cy2 as int, w as int, h as int);
                    }
                    let idx = cy2 * w + cx2;
                    let cell = &self.cells[idx];
                    let clen = cell.len();
                    let mut k: usize = 0;
                    while k < clen
                        invariant
                            clen == cell@.len(),
                            k <= clen,
                            result@ == snap + cell@.subrange(0, k as int),
                        decreases clen - k,
                    {
                        result.push(cell[k]);
                        proof {
                            assert(result@ =~= snap + cell@.subrange(0, k + 1));
                        }
                        k = k + 1;
                    }
                    proof {
                        assert(cell@.subrange(0, clen as int) =~= cell@);
                        assert(result@ == snap + cell@);
                        assert(v.cells[idx as int] == cell@);
                        assert forall|x: usize| v.cells[idx as int].contains(x) implies result@
                            .contains(x) by {
                            let k2 = choose|k2: int| 0 <= k2 < cell@.len() && cell@[k2] == x;
                            assert(result@[snap.len() + k2] == x);
                        }
                        // Every appended index comes from the visited cell,
                        // so its coordinate is hit by the current offset.
                        let dx0 = sx as int - reach as int;
                        let dy0 = sy as int - reach as int;
                        assert forall|k2: int|
                            0 <= k2 < result@.len() implies #[trigger] result@[k2] < v.coords.len()
                            && v.in_reach(
                            center_x as int,
                            center_y as int,
                            reach as int,
                            wrap,
                            result@[k2] as int,
                        ) by {
                            if k2 < snap.len() {
                                assert(result@[k2] == snap[k2]);
                            } else {
                                let e = result@[k2];
                                assert(v.cells[idx as int][k2 - snap.len()] == e);
                                assert(e < v.coords.len() && v.cell_of(e as int) == idx);
                                lemma_row_major_unique(
                                    v.coords[e as int].0 as int,
                                    v.coords[e as int].1 as int,
                                    cx2 as int,
                                    cy2 as int,
                                    w as int,
                                );
                                assert(v.hit_by_offset(
                                    center_x as int,
                                    center_y as int,
                                    dx0,
                                    dy0,
                                    wrap,
                                )(e as int));
                            }
                        }
                    }
                }
                proof {
                    assert forall|x: usize| snap.contains(x) implies result@.contains(x) by {
                        let j2 = choose|j2: int| 0 <= j2 < snap.len() && snap[j2] == x;
                        assert(result@[j2] == x);
                    }
                    lemma_query_step(
                        v,
                        center_x as int,
                        center_y as int,
                        reach as int,
                        wrap,
                        sy as int,
                        sx as int,
                        snap,
                        result@,
                        cell_x,
                        cell_y,
                        w as int,
                        h as int,
                    );
                }
                sx = sx + 1;
            }
            proof {
                assert forall|i: usize|
                    i < v.coords.len() && covered_before(
                        v,
                        center_x as int,
                        center_y as int,
                        reach as int,
                        wrap,
                        i as int,
                        sy + 1,
                        0,
                    ) implies result@.contains(i) by {
                    assert(covered_before(
                        v,
                        center_x as int,
                        center_y as int,
                        reach as int,
                        wrap,
                        i as int,
                        sy as int,
                        span as int,
                    ));
                }
            }
            sy = sy + 1;
        }
        proof {
            assert forall|i: usize|
                i < v.coords.len() && v.in_reach(
                    center_x as int,
                    center_y as int,
                    reach as int,
                    wrap,
                    i as int,
                ) implies result@.contains(i) by {
                let (dx, dy) = choose|dx: int, dy: int|
                    #![trigger v.hit_by_offset(center_x as int, center_y as int, dx, dy, wrap)]
                    -(reach as int) <= dx <= reach as int && -(reach as int) <= dy <= reach as int
                        && v.hit_by_offset(center_x as int, center_y as int, dx, dy, wrap)(i as int);
                assert(covered_before(
                    v,
                    center_x as int,
                    center_y as int,
                    reach as int,
                    wrap,
                    i as int,
                    span as int,
                    0,
                ));
            }
        }
        result
    }
}

/// Whether particle `i` is hit by some query offset strictly before row
/// `ty`, column `tx` of the ring scan (offsets are visited row by row).
pub open spec fn covered_before(
    v: SpatialGridView,
    cx: int,
    cy: int,
    reach: int,
    wrap: bool,
    i: int,
    ty: int,
    tx: int,
) -> bool {
    exists|dx: int, dy: int|
        #![trigger v.hit_by_offset(cx, cy, dx, dy, wrap)]
        -reach <= dx <= reach && -reach <= dy <= reach && (dy + reach < ty || (dy + reach == ty
            && dx + reach < tx)) && v.hit_by_offset(cx, cy, dx, dy, wrap)(i)
}

/// After the scan has processed the offset at row `sy`, column `sx`, every
/// particle covered up to and including that offset is in the result.
proof fn lemma_query_step(
    v: SpatialGridView,
    cx: int,
    cy: int,
    reach: int,
    wrap: bool,
    sy: int,
    sx: int,
    snap: Seq<usize>,
    result: Seq<usize>,
    cell_x: Option<usize>,
    cell_y: Option<usize>,
    w: int,
    h: int,
)
    requires
        w == v.width,
        h == v.height,
        1 <= w,
        1 <= h,
        v.cells.len() == w * h,
        0 <= cx < w,
        0 <= cy < h,
        0 <= sy <= 2 * reach,
        0 <= sx <= 2 * reach,
        forall|i: int|
            0 <= i < v.coords.len() ==> (#[trigger] v.coords[i]).0 < w && v.coords[i].1 < h,
        forall|i: int|
            0 <= i < v.coords.len() ==> v.cells[#[trigger] v.cell_of(i)].contains(i as usize),
        forall|i: usize|
            i < v.coords.len() && covered_before(v, cx, cy, reach, wrap, i as int, sy, sx)
                ==> snap.contains(i),
        forall|x: usize| snap.contains(x) ==> result.contains(x),
        cell_x matches Some(cxv) ==> (if wrap {
            cxv == (cx + (sx - reach)) % w
        } else {
            cxv == cx + (sx - reach)
        } && cxv < w),
        cell_y matches Some(cyv) ==> (if wrap {
            cyv == (cy + (sy - reach)) % h
        } else {
            cyv == cy + (sy - reach)
        } && cyv < h),
        wrap ==> cell_x is Some && cell_y is Some,
        !wrap ==> (cell_x is Some <==> 0 <= cx + (sx - reach) < w),
        !wrap ==> (cell_y is Some <==> 0 <= cy + (sy - reach) < h),
        (cell_x is Some && cell_y is Some) ==> {
            let c = cell_y->0 * w + cell_x->0;
            0 <= c < v.cells.len() && forall|x: usize| v.cells[c].contains(x) ==> result.contains(x)
        },
    ensures
        forall|i: usize|
            i < v.coords.len() && covered_before(v, cx, cy, reach, wrap, i as int, sy, sx + 1)
                ==> result.contains(i),
{
    let dx0 = sx - reach;
    let dy0 = sy - reach;
    assert forall|i: usize|
        i < v.coords.len() && covered_before(v, cx, cy, reach, wrap, i as int, sy, sx
            + 1) implies result.contains(i) by {
        let (dx, dy) = choose|dx: int, dy: int|
            #![trigger v.hit_by_offset(cx, cy, dx, dy, wrap)]
            -reach <= dx <= reach && -reach <= dy <= reach && (dy + reach < sy || (dy + reach == sy
                && dx + reach < sx + 1)) && v.hit_by_offset(cx, cy, dx, dy, wrap)(i as int);
        if dy + reach < sy || (dy + reach == sy && dx + reach < sx) {
            assert(covered_before(v, cx, cy, reach, wrap, i as int, sy, sx));
        } else {
            // Hit exactly by the offset just processed.
            assert(dx == dx0 && dy == dy0);
            if wrap {
                let cxv = cell_x->0;
                let cyv = cell_y->0;
                assert(v.coords[i as int].0 == cxv && v.coords[i as int].1 == cyv);
                assert(v.cell_of(i as int) == cyv * w + cxv);
                assert(v.cells[cyv * w + cxv].contains(i));
            } else {
                assert(v.coords[i as int].0 == cx + dx0 && v.coords[i as int].1 == cy + dy0);
                assert(0 <= cx + dx0 < w && 0 <= cy + dy0 < h);
                let cxv = cell_x->0;
                let cyv = cell_y->0;
                assert(cxv == cx + dx0 && cyv == cy + dy0);
                assert(v.cell_of(i as int) == cyv * w + cxv);
                assert(v.cells[cyv * w + cxv].contains(i));
            }
        }
    }
}

/// Row-major cell indices decompose uniquely.
proof fn lemma_row_major_unique(x1: int, y1: int, x2: int, y2: int, w: int)
    requires
        0 <= x1 < w,
        0 <= x2 < w,
        y1 * w + x1 == y2 * w + x2,
    ensures
        x1 == x2,
        y1 == y2,
{
    assert(x1 == x2 && y1 == y2) by (nonlinear_arith)
        requires
            0 <= x1 < w,
            0 <= x2 < w,
            y1 * w + x1 == y2 * w + x2,
    ;
}

/// A row-major cell index is within the grid.
proof fn lemma_cell_index_bound(x: int, y: int, w: int, h: int)
    requires
        0 <= x < w,
        0 <= y < h,
    ensures
        0 <= y * w + x < w * h,
{
    assert(y * w + x < w * h) by (nonlinear_arith)
        requires
            0 <= x < w,
            0 <= y < h,
    ;
    assert(y * w >= 0) by (nonlinear_arith)
        requires
            y >= 0,
            w > 0,
    ;
}

} // verus!
