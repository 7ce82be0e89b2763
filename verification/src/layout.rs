//! Where the benchmark places its test bodies: a grid ten columns wide,
//! filled row by row.
use vstd::prelude::*;

verus! {

/// Number of columns of the benchmark grid.
pub const BENCHMARK_GRID_COLUMNS: u32 = 10;

/// Column and row of the `i`-th benchmark body.
pub open spec fn grid_cell(i: u32) -> (u32, u32) {
    ((i % BENCHMARK_GRID_COLUMNS) as u32, (i / BENCHMARK_GRID_COLUMNS) as u32)
}

/// Column and row of the `i`-th benchmark body: `i % 10` and `i / 10`.
pub fn benchmark_grid_cell(i: u32) -> (cell: (u32, u32))
    ensures
        cell == grid_cell(i),
        cell.0 == i % 10,
        cell.1 == i / 10,
{
    (i % BENCHMARK_GRID_COLUMNS, i / BENCHMARK_GRID_COLUMNS)
}

/// Every cell lies within the ten columns, the body's number is recovered
/// from its cell, and so no two bodies share a cell.
pub proof fn law_grid_cells(i: u32, j: u32)
    ensures
        grid_cell(i).0 < BENCHMARK_GRID_COLUMNS,
        grid_cell(i).1 * BENCHMARK_GRID_COLUMNS + grid_cell(i).0 == i,
        i != j ==> grid_cell(i) != grid_cell(j),
{
    assert(i == (i / 10) * 10 + i % 10) by (nonlinear_arith);
    assert(j == (j / 10) * 10 + j % 10) by (nonlinear_arith);
}

} // verus!
