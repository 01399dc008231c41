//! The flat boolean grid and its row-major addressing scheme.

use vstd::prelude::*;

verus! {

/// Upper bound on the number of cells a board may hold. The wrap-around
/// neighbor arithmetic adds the board size and the width to an index before
/// reducing modulo the size, so keeping `width * height` under this bound
/// keeps every intermediate sum inside `usize` on every supported target.
pub const MAX_BOARD_CELLS: usize = 0x1000_0000;

/// Dimensions a board accepts: positive, even (so that 2x2 tiles partition
/// the grid exactly), and small enough that the index arithmetic cannot
/// overflow.
pub open spec fn valid_dims(width: int, height: int) -> bool {
    &&& 0 < width
    &&& 0 < height
    &&& width % 2 == 0
    &&& height % 2 == 0
    &&& width * height <= MAX_BOARD_CELLS
}

/// Flat index of the cell in row `r`, column `c` of a row-major grid.
pub open spec fn flat_index(r: int, c: int, width: int) -> int {
    r * width + c
}

/// Row of the cell with flat index `n`.
pub open spec fn row_of(n: int, width: int) -> int {
    n / width
}

/// Column of the cell with flat index `n`.
pub open spec fn col_of(n: int, width: int) -> int {
    n % width
}

/// Decoding a flat index into its row and column and re-encoding the pair
/// yields the index back, for every index of the board.
pub proof fn lemma_index_roundtrip(n: int, width: int, height: int)
    requires
        0 < width,
        0 <= n < width * height,
    ensures
        flat_index(row_of(n, width), col_of(n, width), width) == n,
{
    vstd::arithmetic::div_mod::lemma_fundamental_div_mod(n, width);
    vstd::arithmetic::mul::lemma_mul_is_commutative(n / width, width);
}

/// Relies on `rand::random`: one independent, uniform draw of a boolean.
/// Nothing is promised of the value; callers hold for every outcome.
#[verifier::external_body]
fn random_bool() -> bool {
    rand::random()
}

/// A cell sequence of length `board_size`, each cell drawn independently and
/// uniformly. The contract fixes only the length: every combination of cell
/// values is a legitimate outcome, and everything downstream is proved for
/// all of them.
pub fn create_random_board(board_size: usize) -> (r: Vec<bool>)
    ensures
        r@.len() == board_size,
{
    let mut cells: Vec<bool> = Vec::new();
    let mut i: usize = 0;
    while i < board_size
        invariant
            cells@.len() == i,
            i <= board_size,
        decreases board_size - i,
    {
        cells.push(random_bool());
        i = i + 1;
    }
    cells
}

/// The grid: an ordered sequence of cell states of fixed length
/// `width * height`, row-major. A board is never mutated in place; each
/// generation builds a new one.
pub struct Board {
    pub cells: Vec<bool>,
    pub width: usize,
    pub height: usize,
}

impl Board {
    /// The board's invariant: accepted dimensions and exactly one cell state
    /// per grid position.
    pub open spec fn well_formed(self) -> bool {
        &&& valid_dims(self.width as int, self.height as int)
        &&& self.cells@.len() == self.width * self.height
    }

    /// Wrap an explicit cell sequence as a board.
    pub fn from_cells(cells: Vec<bool>, width: usize, height: usize) -> (b: Board)
        requires
            valid_dims(width as int, height as int),
            cells@.len() == width * height,
        ensures
            b.well_formed(),
            b.cells@ == cells@,
            b.width == width,
            b.height == height,
    {
        Board { cells, width, height }
    }

    /// A board of the given dimensions with every cell drawn independently
    /// and uniformly.
    pub fn random(width: usize, height: usize) -> (b: Board)
        requires
            valid_dims(width as int, height as int),
        ensures
            b.well_formed(),
            b.width == width,
            b.height == height,
    {
        let cells = create_random_board(width * height);
        Board { cells, width, height }
    }

    /// Total number of cells.
    pub fn size(&self) -> (s: usize)
        requires
            self.well_formed(),
        ensures
            s == self.width * self.height,
    {
        self.width * self.height
    }

    /// Flat index of the cell in row `row`, column `col`.
    pub fn index(&self, row: usize, col: usize) -> (n: usize)
        requires
            self.well_formed(),
            row < self.height,
            col < self.width,
        ensures
            n == flat_index(row as int, col as int, self.width as int),
            n < self.width * self.height,
    {
        proof {
            assert(row * self.width + col < self.width * self.height) by (nonlinear_arith)
                requires
                    row < self.height,
                    col < self.width,
                    0 < self.width,
            {
            }
        }
        row * self.width + col
    }
}

} // verus!
