//! Toroidal neighbor arithmetic: the eight neighbors of a cell on a grid
//! whose edges wrap around in both directions.

use vstd::prelude::*;
use crate::board::MAX_BOARD_CELLS;
use crate::board::flat_index;

verus! {

/// The eight neighbor indices of flat index `n`, in the order up, up-right,
/// right, down-right, down, down-left, left, up-left. All arithmetic is
/// modulo `size`, with `size` added first so that no intermediate value is
/// negative; moving off one side of the flat sequence re-enters on the other.
pub open spec fn neighbor_seq(n: int, size: int, width: int) -> Seq<int> {
    seq![
        (n + size - width) % size,
        (n + size - width + 1) % size,
        (n + size + 1) % size,
        (n + size + width + 1) % size,
        (n + size + width) % size,
        (n + size + width - 1) % size,
        (n + size - 1) % size,
        (n + size - width - 1) % size,
    ]
}

/// The eight toroidal neighbors of cell `n`, in the order up, up-right,
/// right, down-right, down, down-left, left, up-left.
pub fn get_neighbors(n: usize, board_size: usize, board_width: usize) -> (r: [usize; 8])
    requires
        0 < board_width < board_size,
        n < board_size,
        board_size <= MAX_BOARD_CELLS,
    ensures
        forall|i: int|
            0 <= i < 8 ==> r[i] == neighbor_seq(
                n as int,
                board_size as int,
                board_width as int,
            )[i],
        forall|i: int| 0 <= i < 8 ==> r[i] < board_size,
{
    [
        (n + board_size - board_width) % board_size,
        (n + board_size - board_width + 1) % board_size,
        (n + board_size + 1) % board_size,
        (n + board_size + board_width + 1) % board_size,
        (n + board_size + board_width) % board_size,
        (n + board_size + board_width - 1) % board_size,
        (n + board_size - 1) % board_size,
        (n + board_size - board_width - 1) % board_size,
    ]
}

/// Toroidal wrap in both axes at once: the neighbor set of the origin cell
/// `(0, 0)` contains the bottom-right cell `(height-1, width-1)` — it is the
/// origin's left neighbor under the flat wrap formulas — and the last cell of
/// the first row, `(0, width-1)`, which is its down-left neighbor.
pub proof fn lemma_origin_wraps_both_axes(width: int, height: int)
    requires
        2 <= width,
        2 <= height,
    ensures
        neighbor_seq(0, width * height, width).contains(
            flat_index(height - 1, width - 1, width),
        ),
        neighbor_seq(0, width * height, width).contains(flat_index(0, width - 1, width)),
{
    let size = width * height;
    assert(2 * width <= size) by (nonlinear_arith)
        requires
            2 <= height,
            2 <= width,
            size == width * height,
    {
    }
    let ns = neighbor_seq(0, size, width);
    // Left neighbor of the origin: one step back wraps to the very last cell.
    vstd::arithmetic::div_mod::lemma_small_mod((size - 1) as nat, size as nat);
    assert(ns[6] == size - 1);
    assert(flat_index(height - 1, width - 1, width) == size - 1) by (nonlinear_arith)
        requires
            size == width * height,
    {
    }
    // Down-left neighbor of the origin: wraps within the column direction to
    // the last column of the first row.
    vstd::arithmetic::div_mod::lemma_mod_add_multiples_vanish(width - 1, size);
    vstd::arithmetic::div_mod::lemma_small_mod((width - 1) as nat, size as nat);
    assert(ns[5] == width - 1);
    assert(flat_index(0, width - 1, width) == width - 1);
}

} // verus!
