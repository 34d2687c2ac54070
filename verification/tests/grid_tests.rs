use shrinkers::grid::{
    auto_tiled_block_size, block_ranges, fft_grid_points, next_pow2, parallel_span_len,
    stencil_cells, stencil_offset0, Order, MAX_AUTO_GRID,
};
use shrinkers::inverse::InverseShrinkageMethod;
use shrinkers::pipeline::permute_eigenvectors;

#[test]
fn next_pow2_values() {
    assert_eq!(next_pow2(0), 1);
    assert_eq!(next_pow2(1), 1);
    assert_eq!(next_pow2(2), 2);
    assert_eq!(next_pow2(3), 4);
    assert_eq!(next_pow2(1000), 1024);
    assert_eq!(next_pow2(1024), 1024);
    assert_eq!(next_pow2(1025), 2048);
    assert_eq!(next_pow2(usize::MAX / 2 + 1), usize::MAX / 2 + 1);
}

#[test]
fn fft_grid_points_values() {
    assert_eq!(fft_grid_points(100, 8 * 512, None), 4096);
    assert_eq!(fft_grid_points(5000, 8 * 512, None), 8192);
    assert_eq!(fft_grid_points(usize::MAX, 0, None), MAX_AUTO_GRID);
    assert_eq!(fft_grid_points(3, 1, Some(7)), 7);
}

#[test]
fn stencil_orders() {
    assert_eq!(Order::Linear.nodes(), 2);
    assert_eq!(Order::Cubic.nodes(), 4);
    assert_eq!(Order::Quintic.nodes(), 6);
    assert_eq!(Order::Heptic.nodes(), 8);
    assert_eq!(stencil_offset0::<2>(), 0);
    assert_eq!(stencil_offset0::<4>(), -1);
    assert_eq!(stencil_offset0::<6>(), -2);
    assert_eq!(stencil_offset0::<8>(), -3);
}

#[test]
fn tiled_block_sizes() {
    assert_eq!(auto_tiled_block_size(100), 32);
    assert_eq!(auto_tiled_block_size(256), 32);
    assert_eq!(auto_tiled_block_size(257), 8);
    assert_eq!(auto_tiled_block_size(100_000), 8);
}

#[test]
fn inverse_method_names() {
    assert_eq!(InverseShrinkageMethod::Qis.as_str(), "qis");
    assert_eq!(InverseShrinkageMethod::Lis.as_str(), "lis");
    assert_eq!(InverseShrinkageMethod::Gis.as_str(), "gis");
    assert_eq!(InverseShrinkageMethod::default(), InverseShrinkageMethod::Qis);
    for m in [
        InverseShrinkageMethod::Qis,
        InverseShrinkageMethod::Lis,
        InverseShrinkageMethod::Gis,
    ] {
        assert_eq!(InverseShrinkageMethod::parse(m.as_str()), Some(m));
    }
}

#[test]
fn inverse_method_parse_ignores_case() {
    assert_eq!(
        InverseShrinkageMethod::parse("QIS"),
        Some(InverseShrinkageMethod::Qis)
    );
    assert_eq!(
        InverseShrinkageMethod::parse("Linear_Inverse"),
        Some(InverseShrinkageMethod::Lis)
    );
    assert_eq!(
        InverseShrinkageMethod::parse("GEOMETRIC"),
        Some(InverseShrinkageMethod::Gis)
    );
    assert_eq!(
        InverseShrinkageMethod::parse("quadratic"),
        Some(InverseShrinkageMethod::Qis)
    );
    assert_eq!(InverseShrinkageMethod::parse("qis "), None);
    assert_eq!(InverseShrinkageMethod::parse("stein"), None);
    assert_eq!(InverseShrinkageMethod::parse(""), None);
}

#[test]
fn test_permute_eigenvectors() {
    let v = vec![1.0, 0.0, 0.0, 0.0, 1.0, 0.0, 0.0, 0.0, 1.0];
    let idx = vec![2, 1, 0];
    let result = permute_eigenvectors(&v, 3, 3, &idx, 0.0);
    // column 0, row 2
    assert_eq!(result[2 * 3 + 0], 1.0);
    // column 2, row 0
    assert_eq!(result[0 * 3 + 2], 1.0);
}

#[test]
fn permute_roundtrip_and_fill() {
    let m: Vec<i32> = (0..12).collect(); // 3 x 4
    let idx = vec![3, 0, 2, 1];
    let once = permute_eigenvectors(&m, 3, 4, &idx, -1);
    assert_eq!(once, vec![3, 0, 2, 1, 7, 4, 6, 5, 11, 8, 10, 9]);
    let inv = vec![1, 3, 2, 0];
    assert_eq!(permute_eigenvectors(&once, 3, 4, &inv, -1), m);
    let short = permute_eigenvectors(&m, 3, 4, &vec![1], -1);
    assert_eq!(short, vec![1, -1, -1, -1, 5, -1, -1, -1, 9, -1, -1, -1]);
}

#[test]
fn stencil_cells_clamp_to_grid() {
    assert_eq!(stencil_cells(5, 4, 100), vec![4, 5, 6, 7]);
    assert_eq!(stencil_cells(0, 8, 100), vec![0, 0, 0, 0, 1, 2, 3, 4]);
    assert_eq!(stencil_cells(98, 4, 100), vec![97, 98, 99, 99]);
    assert_eq!(stencil_cells(3, 2, 1), vec![0, 0]);
    assert_eq!(stencil_cells(-7, 2, 10), vec![0, 0]);
}

#[test]
fn block_ranges_tile_the_span() {
    assert_eq!(block_ranges(10, 4), vec![(0, 4), (4, 8), (8, 10)]);
    assert_eq!(block_ranges(8, 8), vec![(0, 8)]);
    assert_eq!(block_ranges(0, 3), vec![]);
    assert_eq!(block_ranges(3, 32), vec![(0, 3)]);
}

#[test]
fn parallel_span_len_values() {
    assert_eq!(parallel_span_len(1000, 8, 4), 64);
    assert_eq!(parallel_span_len(10, 8, 4), 8);
    assert_eq!(parallel_span_len(0, 8, 0), 8);
    assert_eq!(parallel_span_len(1024, 32, 1), 256);
}
