//! The generation rule: a pure, total map from one board to the next.

use vstd::prelude::*;
use crate::board::MAX_BOARD_CELLS;
use crate::board::flat_index;
use crate::neighbors::get_neighbors;
use crate::neighbors::neighbor_seq;

verus! {

/// 1 for a live cell, 0 for a dead one.
pub open spec fn live_as_int(alive: bool) -> int {
    if alive {
        1
    } else {
        0
    }
}

/// How many of the eight toroidal neighbors of cell `n` are alive.
pub open spec fn live_neighbors(b: Seq<bool>, n: int, size: int, width: int) -> int {
    let ns = neighbor_seq(n, size, width);
    live_as_int(b[ns[0]]) + live_as_int(b[ns[1]]) + live_as_int(b[ns[2]]) + live_as_int(b[ns[3]])
        + live_as_int(b[ns[4]]) + live_as_int(b[ns[5]]) + live_as_int(b[ns[6]]) + live_as_int(
        b[ns[7]],
    )
}

/// The Life rule for one cell: a live cell with exactly two live neighbors
/// survives, and any cell with exactly three live neighbors is alive next
/// generation, whether or not it was alive; every other cell is dead.
pub open spec fn next_cell(b: Seq<bool>, n: int, size: int, width: int) -> bool {
    let k = live_neighbors(b, n, size, width);
    (b[n] && k == 2) || k == 3
}

/// The whole next generation: the rule applied to every cell of the board.
pub open spec fn next_board(b: Seq<bool>, width: int, height: int) -> Seq<bool> {
    Seq::new((width * height) as nat, |n: int| next_cell(b, n, width * height, width))
}

/// The next generation of `board`, as a brand-new cell sequence; the input is
/// only read, never written.
pub fn create_next_board(board: &Vec<bool>, board_width: usize, board_height: usize) -> (r: Vec<
    bool,
>)
    requires
        0 < board_width,
        2 <= board_height,
        board@.len() == board_width * board_height,
        board_width * board_height <= MAX_BOARD_CELLS,
    ensures
        r@ == next_board(board@, board_width as int, board_height as int),
{
    let ghost w = board_width as int;
    let ghost h = board_height as int;
    proof {
        assert(w < w * h) by (nonlinear_arith)
            requires
                0 < w,
                2 <= h,
        {
        }
    }
    let board_size = board_width * board_height;
    let mut next: Vec<bool> = Vec::new();
    let mut n: usize = 0;
    while n < board_size
        invariant
            0 < board_width < board_size,
            board_size == board_width * board_height,
            board_size <= MAX_BOARD_CELLS,
            board@.len() == board_size,
            n <= board_size,
            next@.len() == n,
            forall|m: int|
                0 <= m < n ==> next@[m] == next_cell(
                    board@,
                    m,
                    board_size as int,
                    board_width as int,
                ),
        decreases board_size - n,
    {
        let ns = get_neighbors(n, board_size, board_width);
        let mut k: u8 = 0;
        if board[ns[0]] {
            k = k + 1;
        }
        if board[ns[1]] {
            k = k + 1;
        }
        if board[ns[2]] {
            k = k + 1;
        }
        if board[ns[3]] {
            k = k + 1;
        }
        if board[ns[4]] {
            k = k + 1;
        }
        if board[ns[5]] {
            k = k + 1;
        }
        if board[ns[6]] {
            k = k + 1;
        }
        if board[ns[7]] {
            k = k + 1;
        }
        assert(k as int == live_neighbors(board@, n as int, board_size as int, board_width as int));
        let alive = (board[n] && k == 2) || k == 3;
        next.push(alive);
        n = n + 1;
    }
    proof {
        assert(next@ =~= next_board(board@, w, h));
    }
    next
}

/// Determinism of the stepper: the next generation is a function of the board
/// alone, so two runs over equal boards give bit-identical results. Together
/// with the contract of `create_next_board` — its result equals `next_board`
/// of its input — this pins every invocation down to one answer.
pub proof fn lemma_step_deterministic(a: Seq<bool>, b: Seq<bool>, width: int, height: int)
    requires
        a == b,
    ensures
        next_board(a, width, height) == next_board(b, width, height),
{
}

/// Whether cell `n` belongs to the 2x2 block whose top-left corner sits in
/// row `r`, column `c`.
pub open spec fn is_block_cell(n: int, width: int, r: int, c: int) -> bool {
    ||| n == flat_index(r, c, width)
    ||| n == flat_index(r, c + 1, width)
    ||| n == flat_index(r + 1, c, width)
    ||| n == flat_index(r + 1, c + 1, width)
}

/// A board that is dead everywhere except for the 2x2 block whose top-left
/// corner sits in row `r`, column `c`.
pub open spec fn block_board(width: int, height: int, r: int, c: int) -> Seq<bool> {
    Seq::new((width * height) as nat, |n: int| is_block_cell(n, width, r, c))
}

/// Where `(y + m) % m` lands for `y` within one modulus of `[0, m)`: adding
/// `m` before reducing leaves `y` itself when it is already in range, and
/// otherwise shifts it back into range by exactly one modulus.
proof fn lemma_mod_span(y: int, m: int)
    requires
        0 < m,
        -m < y < 2 * m,
    ensures
        (y + m) % m == if y < 0 {
            y + m
        } else if y < m {
            y
        } else {
            y - m
        },
{
    if y < 0 {
        vstd::arithmetic::div_mod::lemma_small_mod((y + m) as nat, m as nat);
    } else if y < m {
        vstd::arithmetic::div_mod::lemma_mod_add_multiples_vanish(y, m);
        vstd::arithmetic::div_mod::lemma_small_mod(y as nat, m as nat);
    } else {
        vstd::arithmetic::div_mod::lemma_mod_add_multiples_vanish(y, m);
        vstd::arithmetic::div_mod::lemma_mod_add_multiples_vanish(y - m, m);
        vstd::arithmetic::div_mod::lemma_small_mod((y - m) as nat, m as nat);
    }
}

/// One cell of the block board is unchanged by the rule: each block cell has
/// exactly three live neighbors and stays alive, and no other cell reaches
/// three, so it stays dead.
proof fn lemma_block_cell_unchanged(width: int, height: int, r: int, c: int, n: int)
    requires
        4 <= width,
        4 <= height,
        1 <= r,
        r + 2 <= height - 1,
        1 <= c,
        c + 2 <= width - 1,
        0 <= n < width * height,
    ensures
        next_cell(block_board(width, height, r, c), n, width * height, width) == is_block_cell(
            n,
            width,
            r,
            c,
        ),
{
    let size = width * height;
    let b = block_board(width, height, r, c);
    let i1 = r * width + c;
    assert((r + 1) * width == r * width + width) by (nonlinear_arith);
    assert(width + 1 <= i1) by (nonlinear_arith)
        requires
            i1 == r * width + c,
            1 <= r,
            1 <= c,
            0 < width,
    {
    }
    assert(i1 + width + 1 <= size - width - 2) by (nonlinear_arith)
        requires
            i1 == r * width + c,
            size == width * height,
            1 <= r,
            r + 2 <= height - 1,
            1 <= c,
            c + 2 <= width - 1,
            4 <= width,
            4 <= height,
    {
    }
    assert(width + 2 <= size);
    let ns = neighbor_seq(n, size, width);
    lemma_mod_span(n - width, size);
    lemma_mod_span(n - width + 1, size);
    lemma_mod_span(n + 1, size);
    lemma_mod_span(n + width + 1, size);
    lemma_mod_span(n + width, size);
    lemma_mod_span(n + width - 1, size);
    lemma_mod_span(n - 1, size);
    lemma_mod_span(n - width - 1, size);
    assert(b[ns[0]] == (n - width == i1 || n - width == i1 + 1 || n - width == i1 + width || n
        - width == i1 + width + 1));
    assert(b[ns[1]] == (n - width + 1 == i1 || n - width + 1 == i1 + 1 || n - width + 1 == i1
        + width || n - width + 1 == i1 + width + 1));
    assert(b[ns[2]] == (n + 1 == i1 || n + 1 == i1 + 1 || n + 1 == i1 + width || n + 1 == i1 + width
        + 1));
    assert(b[ns[3]] == (n + width + 1 == i1 || n + width + 1 == i1 + 1 || n + width + 1 == i1
        + width || n + width + 1 == i1 + width + 1));
    assert(b[ns[4]] == (n + width == i1 || n + width == i1 + 1 || n + width == i1 + width || n
        + width == i1 + width + 1));
    assert(b[ns[5]] == (n + width - 1 == i1 || n + width - 1 == i1 + 1 || n + width - 1 == i1
        + width || n + width - 1 == i1 + width + 1));
    assert(b[ns[6]] == (n - 1 == i1 || n - 1 == i1 + 1 || n - 1 == i1 + width || n - 1 == i1 + width
        + 1));
    assert(b[ns[7]] == (n - width - 1 == i1 || n - width - 1 == i1 + 1 || n - width - 1 == i1
        + width || n - width - 1 == i1 + width + 1));
    assert(b[n] == (n == i1 || n == i1 + 1 || n == i1 + width || n == i1 + width + 1));
    assert(next_cell(b, n, size, width) == is_block_cell(n, width, r, c));
}

/// The still-life law for the 2x2 block: on an otherwise-dead board whose
/// block sits at least one cell away from every edge — so none of its
/// neighbors wraps back onto it — one generation step leaves the board
/// exactly as it was. Each block cell sees exactly three live neighbors and
/// survives; no dead cell sees three, so none is born.
pub proof fn lemma_block_still_life(width: int, height: int, r: int, c: int)
    requires
        4 <= width,
        4 <= height,
        1 <= r,
        r + 2 <= height - 1,
        1 <= c,
        c + 2 <= width - 1,
    ensures
        next_board(block_board(width, height, r, c), width, height) == block_board(
            width,
            height,
            r,
            c,
        ),
{
    let b = block_board(width, height, r, c);
    let nb = next_board(b, width, height);
    assert forall|n: int| 0 <= n < width * height implies nb[n] == b[n] by {
        lemma_block_cell_unchanged(width, height, r, c, n);
    };
    assert(nb =~= b);
}

} // verus!
