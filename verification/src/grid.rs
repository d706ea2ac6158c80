//! Trusted boundary to the `array2d` crate, which stores a two-dimensional
//! grid as a row-major `Vec` and hands out single rows and columns.
//!
//! The grid's contents, row count and column count are named by three
//! uninterpreted spec functions; each wrapper below states, over those names,
//! what the crate's own code does.

use vstd::prelude::*;

verus! {

#[verifier::external_type_specification]
#[verifier::external_body]
#[verifier::reject_recursive_types(T)]
pub struct ExArray2D<T: Clone>(array2d::Array2D<T>);

/// The samples a grid holds, in row-major order.
pub uninterp spec fn grid_seq(g: array2d::Array2D<u16>) -> Seq<u16>;

/// The number of rows a grid was built with.
pub uninterp spec fn grid_rows(g: array2d::Array2D<u16>) -> nat;

/// The number of columns a grid was built with.
pub uninterp spec fn grid_cols(g: array2d::Array2D<u16>) -> nat;

/// Relies on `array2d::Array2D::from_iter_row_major`: the grid stores the
/// first `rows * cols` items of the iterator, row-major, and panics only when
/// the iterator runs short, which the precondition rules out.
#[verifier::external_body]
pub(crate) fn grid_from_row_major(data: &Vec<u16>, rows: usize, cols: usize) -> (g: array2d::Array2D<
    u16,
>)
    requires
        data@.len() == rows * cols,
    ensures
        grid_rows(g) == rows,
        grid_cols(g) == cols,
        grid_seq(g) == data@,
{
    array2d::Array2D::from_iter_row_major(data.iter().copied(), rows, cols)
}

/// Relies on `array2d::Array2D::column_iter`: it yields, top to bottom, the
/// element at `row * cols + c` of the row-major storage for every row, and
/// panics only on a column index out of range, which the precondition rules
/// out.
#[verifier::external_body]
pub(crate) fn grid_column(g: &array2d::Array2D<u16>, c: usize) -> (col: Vec<u16>)
    requires
        c < grid_cols(*g),
        grid_seq(*g).len() == grid_rows(*g) * grid_cols(*g),
    ensures
        col@.len() == grid_rows(*g),
        forall|j: int|
            0 <= j < grid_rows(*g) ==> col@[j] == grid_seq(*g)[j * grid_cols(*g) + c],
{
    g.column_iter(c).copied().collect()
}

/// Relies on `array2d::Array2D::row_iter`: it yields, left to right, the
/// slice `r * cols .. (r + 1) * cols` of the row-major storage. It panics on
/// a row index out of range, and also on a zero-column grid (it probes the
/// cell `(r, 0)`, which such a grid lacks); the preconditions rule both out.
#[verifier::external_body]
pub(crate) fn grid_row(g: &array2d::Array2D<u16>, r: usize) -> (row: Vec<u16>)
    requires
        r < grid_rows(*g),
        0 < grid_cols(*g),
        grid_seq(*g).len() == grid_rows(*g) * grid_cols(*g),
    ensures
        row@.len() == grid_cols(*g),
        forall|j: int|
            0 <= j < grid_cols(*g) ==> row@[j] == grid_seq(*g)[r * grid_cols(*g) + j],
{
    g.row_iter(r).copied().collect()
}

} // verus!
