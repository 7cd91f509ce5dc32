use particle_life::bins::{bin_offsets, count_bins, prefix_scan, prefix_sum_passes, scan_pass};
use particle_life::sort::{neighborhood_candidates, scatter, sort_by_bins};
use particle_life::spatial_grid::SpatialGrid;

#[test]
fn test_count_bins_exact() {
    let bins: Vec<usize> = vec![2, 0, 2, 3, 0, 0];
    let counts = count_bins(&bins, 4);
    assert_eq!(counts, vec![3, 0, 2, 1]);
}

#[test]
fn test_bin_offsets_monotone_and_total() {
    let bins: Vec<usize> = vec![2, 0, 2, 3, 0, 0];
    let counts = count_bins(&bins, 4);
    let offsets = bin_offsets(&counts);
    assert_eq!(offsets, vec![0, 3, 3, 5, 6]);
    for w in offsets.windows(2) {
        assert!(w[0] <= w[1]);
    }
    assert_eq!(offsets[4], bins.len());
}

#[test]
fn test_bin_offsets_empty_bins() {
    let counts: Vec<usize> = vec![0, 0, 0];
    let offsets = bin_offsets(&counts);
    assert_eq!(offsets, vec![0, 0, 0, 0]);
}

#[test]
fn test_scan_pass_shape() {
    let src: Vec<usize> = vec![1, 2, 3, 4];
    let dst = scan_pass(&src, 1);
    assert_eq!(dst, vec![1, 3, 5, 7]);
    let dst2 = scan_pass(&dst, 2);
    assert_eq!(dst2, vec![1, 3, 6, 10]);
}

#[test]
fn test_prefix_scan_matches_sequential_offsets() {
    let counts: Vec<usize> = vec![3, 0, 2, 1, 5, 0, 7];
    let offsets = bin_offsets(&counts);
    let (sums, passes, in_start) = prefix_scan(counts.clone());
    // The inclusive scan shifted by one is the exclusive offsets.
    for b in 0..counts.len() {
        assert_eq!(sums[b], offsets[b + 1]);
    }
    // 7 entries need 3 doubling passes; an odd count ends in the other
    // buffer of the ping-pong pair.
    assert_eq!(passes, 3);
    assert_eq!(passes, prefix_sum_passes(7));
    assert_eq!(in_start, false);
}

#[test]
fn test_prefix_scan_parity_even() {
    let counts: Vec<usize> = vec![1, 1, 1, 1, 1];
    let (sums, passes, in_start) = prefix_scan(counts);
    assert_eq!(sums, vec![1, 2, 3, 4, 5]);
    assert_eq!(passes, 3);
    assert_eq!(in_start, false);
    let (sums2, passes2, in_start2) = prefix_scan(vec![4, 4, 4]);
    assert_eq!(sums2, vec![4, 8, 12]);
    assert_eq!(passes2, 2);
    assert_eq!(in_start2, true);
}

#[test]
fn test_prefix_sum_passes_values() {
    // ceil(log2): the smallest pass count whose doubling windows cover the
    // whole array, matching what prefix_scan runs.
    assert_eq!(prefix_sum_passes(0), 0);
    assert_eq!(prefix_sum_passes(1), 0);
    assert_eq!(prefix_sum_passes(2), 1);
    assert_eq!(prefix_sum_passes(7), 3);
    assert_eq!(prefix_sum_passes(8), 3);
    assert_eq!(prefix_sum_passes(9), 4);
    assert_eq!(prefix_sum_passes(1 << 31), 31);
    assert_eq!(prefix_sum_passes(u32::MAX), 32);
}

#[test]
fn test_scatter_bijection() {
    // Particles 0..6 with bins out of order.
    let bins: Vec<usize> = vec![2, 0, 2, 3, 0, 0];
    let counts = count_bins(&bins, 4);
    let offsets = bin_offsets(&counts);
    let (sorted, dest) = scatter(&bins, &offsets, 4);

    // Every input index appears exactly once in the sorted output.
    let mut seen = vec![false; bins.len()];
    for &p in &sorted {
        assert!(!seen[p]);
        seen[p] = true;
    }
    assert!(seen.iter().all(|&s| s));

    // dest and sorted are inverse permutations.
    for j in 0..bins.len() {
        assert_eq!(sorted[dest[j]], j);
        assert_eq!(dest[sorted[j]], j);
    }

    // Every particle's slot lies within its bin's range, so the output is
    // grouped by bin.
    for d in 0..sorted.len() {
        let b = bins[sorted[d]];
        assert!(offsets[b] <= d && d < offsets[b + 1]);
    }
    // Ties keep input order within a bin, so the result is determined.
    assert_eq!(sorted, vec![1, 4, 5, 0, 2, 3]);
}

#[test]
fn test_spatial_grid_build() {
    // Three particles: two in the top-left cell region, one far away,
    // with 20-unit cells over a 100x100 world (5x5 grid).
    let coords: Vec<(usize, usize)> = vec![(0, 0), (0, 0), (4, 4)];
    let grid = SpatialGrid::build(&coords, 5, 5);
    assert_eq!(grid.num_cells(), 25);
    assert_eq!(grid.dimensions(), (5, 5));
    assert_eq!(grid.get_cell(0), &vec![0, 1]);
    assert_eq!(grid.get_cell(24), &vec![2]);
    assert!(grid.get_cell(7).is_empty());
}

#[test]
fn test_query_radius_finds_neighbors() {
    let coords: Vec<(usize, usize)> = vec![(0, 0), (0, 0), (4, 4)];
    let grid = SpatialGrid::build(&coords, 5, 5);
    let nearby = grid.query_radius(0, 0, 1, false);
    assert!(nearby.contains(&0));
    assert!(nearby.contains(&1));
    assert!(!nearby.contains(&2));
}

#[test]
fn test_wrapping_query() {
    // One particle near the left edge, one near the right: reachable from
    // each other only through the wrap.
    let coords: Vec<(usize, usize)> = vec![(0, 2), (4, 2)];
    let grid = SpatialGrid::build(&coords, 5, 5);
    let wrapped = grid.query_radius(0, 2, 1, true);
    assert!(wrapped.contains(&0));
    assert!(wrapped.contains(&1));
    let clipped = grid.query_radius(0, 2, 1, false);
    assert!(clipped.contains(&0));
    assert!(!clipped.contains(&1));
}

#[test]
fn test_query_duplicates_possible_on_tiny_wrapped_grids() {
    // On a grid smaller than the ring, wrapped cell visits overlap and a
    // candidate may be reported more than once; the caller's exact distance
    // test makes this harmless.
    let coords: Vec<(usize, usize)> = vec![(0, 0)];
    let grid = SpatialGrid::build(&coords, 1, 1);
    let hits = grid.query_radius(0, 0, 1, true);
    assert_eq!(hits.len(), 9);
    assert!(hits.iter().all(|&i| i == 0));
}

#[test]
fn test_sort_by_bins_end_to_end() {
    let bins: Vec<usize> = vec![1, 1, 1, 0];
    let (sorted, dest, offsets) = sort_by_bins(&bins, 2);
    assert_eq!(offsets, vec![0, 1, 4]);
    assert_eq!(sorted, vec![3, 0, 1, 2]);
    assert_eq!(dest, vec![1, 2, 3, 0]);
}

#[test]
fn test_sort_by_bins_single_bin() {
    let bins: Vec<usize> = vec![0, 0, 0];
    let (sorted, dest, offsets) = sort_by_bins(&bins, 1);
    assert_eq!(offsets, vec![0, 3]);
    assert_eq!(sorted, vec![0, 1, 2]);
    assert_eq!(dest, vec![0, 1, 2]);
}

#[test]
fn test_sort_by_bins_empty() {
    let bins: Vec<usize> = Vec::new();
    let (sorted, dest, offsets) = sort_by_bins(&bins, 3);
    assert!(sorted.is_empty());
    assert!(dest.is_empty());
    assert_eq!(offsets, vec![0, 0, 0, 0]);
}

#[test]
fn test_neighborhood_candidates_gather() {
    // A 3x3 grid of cells; particle i sits in cell i (bins row-major).
    let bins: Vec<usize> = vec![0, 1, 2, 3, 4, 5, 6, 7, 8];
    let (sorted, _dest, offsets) = sort_by_bins(&bins, 9);
    // Around the center cell (1, 1) the whole grid is in the neighborhood.
    let center = neighborhood_candidates(&sorted, &offsets, 1, 1, 3, 3, false);
    assert_eq!(center, vec![0, 1, 2, 3, 4, 5, 6, 7, 8]);
    // Around the corner without wrapping only the 2x2 block remains.
    let corner = neighborhood_candidates(&sorted, &offsets, 0, 0, 3, 3, false);
    assert_eq!(corner, vec![0, 1, 3, 4]);
    // With wrapping the corner sees every cell once.
    let wrapped = neighborhood_candidates(&sorted, &offsets, 0, 0, 3, 3, true);
    assert_eq!(wrapped.len(), 9);
    let mut sorted_hits = wrapped.clone();
    sorted_hits.sort();
    assert_eq!(sorted_hits, vec![0, 1, 2, 3, 4, 5, 6, 7, 8]);
}
