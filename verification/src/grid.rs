//! The grid of RGB triples that the sampler produces and the renderer reads.
//!
//! The cells live in an `ndarray::Array2`. Verus cannot look inside that
//! array, so its contents and its shape are named by two uninterpreted spec
//! functions, and the few array operations the library needs are trusted
//! wrappers stated over those names.

use vstd::prelude::*;

verus! {

/// One RGB triple: red, green and blue, each 0 to 255.
pub type Rgb = (u8, u8, u8);

/// Why a grid could not be produced.
#[derive(Clone, Copy, Debug, PartialEq, Eq, Structural)]
pub enum GridError {
    /// The buffers needed for the requested size are beyond what the
    /// resampler and the address space can hold.
    Oversized,
    /// The number or the arrangement of the cells does not match the
    /// dimensions asked for.
    Mismatch,
}

/// Trusted: `ndarray::ShapeError`, the error of `from_shape_vec`. It is
/// carried through and never looked into.
#[verifier::external_type_specification]
#[verifier::external_body]
pub struct ExArrayShapeError(ndarray::ShapeError);

/// A two-dimensional, row-major array of RGB triples.
///
/// Trusted: the array inside is opaque to the verifier. What it holds is
/// what `grid_cells` and `grid_shape` name, and nothing reads or changes it
/// but the three wrappers below.
#[verifier::external_body]
pub struct TargetGrid {
    cells: ndarray::Array2<Rgb>,
}

/// The cells of a grid, row after row.
pub uninterp spec fn grid_cells(grid: TargetGrid) -> Seq<Rgb>;

/// The number of rows and the number of columns of a grid.
pub uninterp spec fn grid_shape(grid: TargetGrid) -> (usize, usize);

/// The mathematical content of a grid.
pub struct GridView {
    pub rows: nat,
    pub cols: nat,
    pub cells: Seq<Rgb>,
}

impl GridView {
    /// There is exactly one cell for every row and column.
    pub open spec fn wf(self) -> bool {
        self.cells.len() == self.rows * self.cols
    }

    /// The cell in row `row` and column `col`.
    pub open spec fn at(self, row: int, col: int) -> Rgb {
        self.cells[row * self.cols + col]
    }
}

/// The product of the axis lengths that are not zero. `ndarray` accepts a
/// shape only if this product fits in `isize`.
pub open spec fn nonzero_extent(rows: usize, cols: usize) -> int {
    (if rows == 0 { 1int } else { rows as int }) * (if cols == 0 { 1int } else { cols as int })
}

/// Whether `cells` can be arranged as `rows` rows of `cols` columns.
pub open spec fn shape_accepts(rows: usize, cols: usize, len: nat) -> bool {
    nonzero_extent(rows, cols) <= isize::MAX && rows * cols == len
}

impl View for TargetGrid {
    type V = GridView;

    open spec fn view(&self) -> GridView {
        GridView {
            rows: grid_shape(*self).0 as nat,
            cols: grid_shape(*self).1 as nat,
            cells: grid_cells(*self),
        }
    }
}

/// Trusted: `ndarray::Array2::from_shape_vec` with a `(rows, cols)` shape in
/// the default row-major order. It succeeds exactly when the product of the
/// non-zero axis lengths fits in `isize` and `rows * cols` equals the number
/// of elements; the array then has that shape and holds the elements in the
/// order given.
#[verifier::external_body]
fn cells_from_shape_vec(rows: usize, cols: usize, cells: Vec<Rgb>) -> (out: Result<
    TargetGrid,
    ndarray::ShapeError,
>)
    ensures
        out is Ok <==> shape_accepts(rows, cols, cells@.len()),
        out matches Ok(grid) ==> grid_shape(grid) == (rows, cols) && grid_cells(grid) == cells@,
{
    ndarray::Array2::from_shape_vec((rows, cols), cells).map(|cells| TargetGrid { cells })
}

/// Trusted: `ndarray::ArrayBase::len_of`, the length of one axis. Axis 0
/// counts the rows and axis 1 the columns; an array holds one element for
/// each pair of a row and a column.
#[verifier::external_body]
fn cells_len_of(grid: &TargetGrid, axis: usize) -> (n: usize)
    requires
        axis < 2,
    ensures
        axis == 0 ==> n == grid_shape(*grid).0 && n * grid_shape(*grid).1 == grid_cells(
            *grid,
        ).len(),
        axis == 1 ==> n == grid_shape(*grid).1 && grid_shape(*grid).0 * n == grid_cells(
            *grid,
        ).len(),
{
    grid.cells.len_of(ndarray::Axis(axis))
}

/// Trusted: indexing an `ndarray::Array2` by `[row, col]`, which in
/// row-major order is element `row * cols + col`.
#[verifier::external_body]
fn cells_index(grid: &TargetGrid, row: usize, col: usize) -> (cell: Rgb)
    requires
        row < grid_shape(*grid).0,
        col < grid_shape(*grid).1,
    ensures
        cell == grid_cells(*grid)[row * grid_shape(*grid).1 + col],
{
    grid.cells[[row, col]]
}

impl TargetGrid {
    /// Arranges `cells`, given row after row, as a grid of `rows` rows and
    /// `cols` columns.
    pub fn from_shape_vec(rows: usize, cols: usize, cells: Vec<Rgb>) -> (out: Result<
        TargetGrid,
        GridError,
    >)
        ensures
            out is Ok <==> shape_accepts(rows, cols, cells@.len()),
            out matches Ok(grid) ==> grid@ == (GridView {
                rows: rows as nat,
                cols: cols as nat,
                cells: cells@,
            }),
            out matches Err(e) ==> e == GridError::Mismatch,
    {
        match cells_from_shape_vec(rows, cols, cells) {
            Ok(grid) => Ok(grid),
            Err(_) => Err(GridError::Mismatch),
        }
    }

    /// The number of rows.
    pub fn rows(&self) -> (n: usize)
        ensures
            n == self@.rows,
            self@.wf(),
    {
        cells_len_of(self, 0)
    }

    /// The number of columns.
    pub fn cols(&self) -> (n: usize)
        ensures
            n == self@.cols,
            self@.wf(),
    {
        cells_len_of(self, 1)
    }

    /// The cell in row `row` and column `col`.
    pub fn get(&self, row: usize, col: usize) -> (cell: Rgb)
        requires
            row < self@.rows,
            col < self@.cols,
        ensures
            cell == self@.at(row as int, col as int),
    {
        cells_index(self, row, col)
    }
}

} // verus!
