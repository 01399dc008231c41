//! The frame loop's decision core. The loop itself lives with the caller,
//! which watches a monotonic clock; once per elapsed target interval it takes
//! one Rendering transition, and that transition — frame text out, next
//! generation in place of the old — is the verified function here.

use vstd::prelude::*;
use crate::board::Board;
use crate::render::frame_text;
use crate::render::render_board;
use crate::step::create_next_board;
use crate::step::next_board;

verus! {

/// One Rendering transition: the text that overwrites the previous frame on
/// the terminal, and the board of the next generation. The caller prints the
/// text, replaces its board with the new one, resets its elapsed-time
/// baseline and returns to waiting.
pub fn advance_frame(board: &Board) -> (r: (String, Board))
    requires
        board.well_formed(),
    ensures
        r.0@ == frame_text(board.cells@, board.width as int, board.height as int),
        r.1.well_formed(),
        r.1.width == board.width,
        r.1.height == board.height,
        r.1.cells@ == next_board(board.cells@, board.width as int, board.height as int),
{
    let text = render_board(&board.cells, board.width, board.height);
    let next = create_next_board(&board.cells, board.width, board.height);
    (text, Board { cells: next, width: board.width, height: board.height })
}

} // verus!
