//! The quadrant-glyph renderer: a board becomes the text of one frame, a
//! cursor-up directive followed by one glyph per 2x2 tile.

use vstd::prelude::*;
use crate::board::valid_dims;

verus! {

/// The fixed glyph table: each combination of the four tile members (top
/// right, bottom right, bottom left, top left — the order in which the
/// renderer reads them) selects exactly one quadrant-block character. The
/// empty tile is a blank, the full tile a solid block, and the two mixed
/// diagonals the two checkerboard glyphs.
pub open spec fn glyph_of(up: bool, current: bool, left: bool, up_left: bool) -> char {
    if !up && !current && !left && !up_left {
        ' '
    } else if !up && !current && !left && up_left {
        '▘'
    } else if !up && !current && left && !up_left {
        '▖'
    } else if !up && !current && left && up_left {
        '▌'
    } else if !up && current && !left && !up_left {
        '▗'
    } else if !up && current && !left && up_left {
        '▚'
    } else if !up && current && left && !up_left {
        '▄'
    } else if !up && current && left && up_left {
        '▙'
    } else if up && !current && !left && !up_left {
        '▝'
    } else if up && !current && !left && up_left {
        '▀'
    } else if up && !current && left && !up_left {
        '▞'
    } else if up && !current && left && up_left {
        '▛'
    } else if up && current && !left && !up_left {
        '▐'
    } else if up && current && !left && up_left {
        '▜'
    } else if up && current && left && !up_left {
        '▟'
    } else {
        '█'
    }
}

/// The glyph for one tile, from its four members.
pub fn glyph(up: bool, current: bool, left: bool, up_left: bool) -> (c: char)
    ensures
        c == glyph_of(up, current, left, up_left),
{
    match (up, current, left, up_left) {
        (false, false, false, false) => ' ',
        (false, false, false, true) => '▘',
        (false, false, true, false) => '▖',
        (false, false, true, true) => '▌',
        (false, true, false, false) => '▗',
        (false, true, false, true) => '▚',
        (false, true, true, false) => '▄',
        (false, true, true, true) => '▙',
        (true, false, false, false) => '▝',
        (true, false, false, true) => '▀',
        (true, false, true, false) => '▞',
        (true, false, true, true) => '▛',
        (true, true, false, false) => '▐',
        (true, true, false, true) => '▜',
        (true, true, true, false) => '▟',
        (true, true, true, true) => '█',
    }
}

/// The glyph table is injective: no two distinct tiles share a glyph, the two
/// intentional diagonal checkerboards included — each belongs to exactly one
/// of the two mixed-diagonal tiles. Together with `glyph_of` being a total
/// function on all sixteen tuples, the table is a bijection onto its sixteen
/// characters.
pub proof fn lemma_glyph_injective(
    u1: bool,
    c1: bool,
    l1: bool,
    x1: bool,
    u2: bool,
    c2: bool,
    l2: bool,
    x2: bool,
)
    requires
        glyph_of(u1, c1, l1, x1) == glyph_of(u2, c2, l2, x2),
    ensures
        u1 == u2 && c1 == c2 && l1 == l2 && x1 == x2,
{
}

/// Whether flat index `n` is the bottom-right member of its 2x2 tile: in the
/// lower of each pair of rows and the right column of each pair of columns.
/// The renderer visits exactly these cells.
pub open spec fn tile_selected(n: int, width: int) -> bool {
    n % (2 * width) >= width && n % 2 == 1
}

/// The glyph of the tile whose bottom-right member is `n`, reading the other
/// three members with the same wrap-around arithmetic the neighbor model
/// uses.
pub open spec fn tile_glyph(b: Seq<bool>, n: int, size: int, width: int) -> char {
    glyph_of(
        b[(n + size - width) % size],
        b[n],
        b[(n + size - 1) % size],
        b[(n + size - width - 1) % size],
    )
}

/// What cell `n` contributes to the frame text: nothing unless it is the
/// bottom-right member of its tile; its glyph otherwise, followed by a line
/// break when the tile closes a display row.
pub open spec fn tile_text(b: Seq<bool>, n: int, size: int, width: int) -> Seq<char> {
    if tile_selected(n, width) {
        if n % width == width - 1 {
            seq![tile_glyph(b, n, size, width), '\n']
        } else {
            seq![tile_glyph(b, n, size, width)]
        }
    } else {
        Seq::empty()
    }
}

/// The frame text contributed by cells `0 .. n`, in index order.
pub open spec fn frame_prefix(b: Seq<bool>, size: int, width: int, n: int) -> Seq<char>
    decreases n,
{
    if n <= 0 {
        Seq::empty()
    } else {
        frame_prefix(b, size, width, n - 1) + tile_text(b, n - 1, size, width)
    }
}

/// The glyph body of one frame: every tile of the board, row by row.
pub open spec fn frame_body(b: Seq<bool>, width: int, height: int) -> Seq<char> {
    frame_prefix(b, width * height, width, width * height)
}

/// The decimal digit character for `d` in `0 ..= 9`.
pub open spec fn digit_char(d: int) -> char {
    if d == 0 {
        '0'
    } else if d == 1 {
        '1'
    } else if d == 2 {
        '2'
    } else if d == 3 {
        '3'
    } else if d == 4 {
        '4'
    } else if d == 5 {
        '5'
    } else if d == 6 {
        '6'
    } else if d == 7 {
        '7'
    } else if d == 8 {
        '8'
    } else {
        '9'
    }
}

/// The decimal digits of `n`, most significant first, without leading zeros
/// (a single `'0'` for zero itself).
pub open spec fn dec_chars(n: int) -> Seq<char>
    decreases n,
{
    if n < 10 {
        seq![digit_char(n)]
    } else {
        dec_chars(n / 10).push(digit_char(n % 10))
    }
}

/// The ANSI directive that moves the cursor up `k` lines: `ESC [ k A`. The
/// renderer emits it before the glyph body so the new frame overwrites the
/// previous one in place instead of scrolling.
pub open spec fn cursor_up_text(k: int) -> Seq<char> {
    seq!['\u{1b}', '['] + dec_chars(k) + seq!['A']
}

/// The full text of one frame: the cursor-up directive for half the board
/// height (one glyph row per two cell rows), then the glyph body.
pub open spec fn frame_text(b: Seq<bool>, width: int, height: int) -> Seq<char> {
    cursor_up_text(height / 2) + frame_body(b, width, height)
}

/// The decimal digit character for `d`.
fn digit(d: usize) -> (c: char)
    requires
        d < 10,
    ensures
        c == digit_char(d as int),
{
    match d {
        0 => '0',
        1 => '1',
        2 => '2',
        3 => '3',
        4 => '4',
        5 => '5',
        6 => '6',
        7 => '7',
        8 => '8',
        _ => '9',
    }
}

/// Append the decimal digits of `k` to `out`.
fn push_decimal(out: &mut Vec<char>, k: usize)
    ensures
        final(out)@ == old(out)@ + dec_chars(k as int),
    decreases k,
{
    if k >= 10 {
        push_decimal(out, k / 10);
        out.push(digit(k % 10));
        proof {
            assert(final(out)@ =~= old(out)@ + dec_chars(k as int));
        }
    } else {
        out.push(digit(k));
        proof {
            assert(final(out)@ =~= old(out)@ + dec_chars(k as int));
        }
    }
}

/// Relies on `String`'s `FromIterator<char>` implementation: collecting
/// characters yields the string of exactly those characters in order.
#[verifier::external_body]
fn chars_to_string(chars: &Vec<char>) -> (r: String)
    ensures
        r@ == chars@,
{
    chars.iter().collect()
}

/// The text of one frame of `board`: the cursor-up directive, then one glyph
/// per 2x2 tile with a line break after each display row.
pub fn render_board(board: &Vec<bool>, board_width: usize, board_height: usize) -> (r: String)
    requires
        valid_dims(board_width as int, board_height as int),
        board@.len() == board_width * board_height,
    ensures
        r@ == frame_text(board@, board_width as int, board_height as int),
{
    let ghost w = board_width as int;
    let ghost h = board_height as int;
    proof {
        assert(2 * w <= w * h) by (nonlinear_arith)
            requires
                0 < w,
                2 <= h,
        {
        }
    }
    let board_size = board_width * board_height;
    let mut out: Vec<char> = Vec::new();
    out.push('\u{1b}');
    out.push('[');
    push_decimal(&mut out, board_height / 2);
    out.push('A');
    proof {
        assert(out@ =~= cursor_up_text(h / 2));
    }
    let mut n: usize = 0;
    while n < board_size
        invariant
            0 < board_width,
            2 * board_width <= board_size,
            board_size == board_width * board_height,
            board_size <= crate::board::MAX_BOARD_CELLS,
            board@.len() == board_size,
            n <= board_size,
            out@ == cursor_up_text(board_height as int / 2) + frame_prefix(
                board@,
                board_size as int,
                board_width as int,
                n as int,
            ),
        decreases board_size - n,
    {
        if n % (2 * board_width) >= board_width && n % 2 == 1 {
            let up = board[(n + board_size - board_width) % board_size];
            let current = board[n];
            let left = board[(n + board_size - 1) % board_size];
            let up_left = board[(n + board_size - board_width - 1) % board_size];
            let g = glyph(up, current, left, up_left);
            out.push(g);
            if n % board_width == board_width - 1 {
                out.push('\n');
            }
        }
        proof {
            assert(out@ =~= cursor_up_text(board_height as int / 2) + frame_prefix(
                board@,
                board_size as int,
                board_width as int,
                n as int + 1,
            ));
        }
        n = n + 1;
    }
    chars_to_string(&out)
}

/// The blank padding printed once before the first frame: `height/2 - 1` line
/// breaks, so that overwriting frames never erases what was on the terminal
/// before the loop started.
pub fn padding_lines(board_height: usize) -> (r: String)
    requires
        2 <= board_height,
        board_height % 2 == 0,
    ensures
        r@ == Seq::new((board_height / 2 - 1) as nat, |i: int| '\n'),
{
    let count = board_height / 2 - 1;
    let mut out: Vec<char> = Vec::new();
    let mut i: usize = 0;
    while i < count
        invariant
            i <= count,
            out@ =~= Seq::new(i as nat, |j: int| '\n'),
        decreases count - i,
    {
        out.push('\n');
        proof {
            assert(out@ =~= Seq::new((i + 1) as nat, |j: int| '\n'));
        }
        i = i + 1;
    }
    chars_to_string(&out)
}

} // verus!
