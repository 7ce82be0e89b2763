use rapier_wasm::{benchmark_grid_cell, BENCHMARK_GRID_COLUMNS};

#[test]
fn grid_cells_fill_rows_of_ten() {
    assert_eq!(BENCHMARK_GRID_COLUMNS, 10);
    assert_eq!(benchmark_grid_cell(0), (0, 0));
    assert_eq!(benchmark_grid_cell(9), (9, 0));
    assert_eq!(benchmark_grid_cell(10), (0, 1));
    assert_eq!(benchmark_grid_cell(23), (3, 2));
    assert_eq!(benchmark_grid_cell(u32::MAX), (5, 429496729));
}

#[test]
fn grid_cells_are_distinct() {
    let mut seen = std::collections::HashSet::new();
    for i in 0..250u32 {
        let (col, row) = benchmark_grid_cell(i);
        assert!(col < 10);
        assert_eq!(row * 10 + col, i);
        assert!(seen.insert((col, row)));
    }
}
