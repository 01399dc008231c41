use torus_life::board::Board;
use torus_life::render::glyph;
use torus_life::render::padding_lines;
use torus_life::render::render_board;
use torus_life::scheduler::advance_frame;

#[test]
fn glyph_table_covers_all_sixteen_tuples() {
    let expected = [
        (false, false, false, false, ' '),
        (false, false, false, true, '▘'),
        (false, false, true, false, '▖'),
        (false, false, true, true, '▌'),
        (false, true, false, false, '▗'),
        (false, true, false, true, '▚'),
        (false, true, true, false, '▄'),
        (false, true, true, true, '▙'),
        (true, false, false, false, '▝'),
        (true, false, false, true, '▀'),
        (true, false, true, false, '▞'),
        (true, false, true, true, '▛'),
        (true, true, false, false, '▐'),
        (true, true, false, true, '▜'),
        (true, true, true, false, '▟'),
        (true, true, true, true, '█'),
    ];
    let mut seen: Vec<char> = Vec::new();
    for &(up, current, left, up_left, want) in expected.iter() {
        let got = glyph(up, current, left, up_left);
        assert_eq!(got, want);
        // No two tuples share a glyph: the mapping is injective.
        assert!(!seen.contains(&got));
        seen.push(got);
    }
    assert_eq!(seen.len(), 16);
}

#[test]
fn render_single_full_tile() {
    // A 2x2 board of live cells is one solid block, preceded by a one-line
    // cursor-up directive and followed by the row's line break.
    let s = render_board(&vec![true; 4], 2, 2);
    assert_eq!(s, "\u{1b}[1A█\n");
}

#[test]
fn render_single_empty_tile() {
    let s = render_board(&vec![false; 4], 2, 2);
    assert_eq!(s, "\u{1b}[1A \n");
}

#[test]
fn render_four_tiles_one_corner_each() {
    // One live cell in a different corner of each 2x2 tile of a 4x4 board.
    // Tile members are read as (up, current, left, up-left) =
    // (top-right, bottom-right, bottom-left, top-left).
    let mut cells = vec![false; 16];
    cells[0] = true; // top-left of the first tile
    cells[3] = true; // top-right of the second tile
    cells[12] = true; // bottom-left of the third tile
    cells[15] = true; // bottom-right of the fourth tile
    let s = render_board(&cells, 4, 4);
    assert_eq!(s, "\u{1b}[2A▘▝\n▖▗\n");
}

#[test]
fn render_directive_counts_display_rows_in_decimal() {
    // 20 cell rows are 10 display rows: the directive moves up 10 lines, and
    // an all-dead board renders as blank rows.
    let s = render_board(&vec![false; 4 * 20], 4, 20);
    let expected = format!("\u{1b}[10A{}", "  \n".repeat(10));
    assert_eq!(s, expected);
}

#[test]
fn padding_protects_scrollback() {
    assert_eq!(padding_lines(8), "\n\n\n");
    assert_eq!(padding_lines(4), "\n");
    assert_eq!(padding_lines(2), "");
}

#[test]
fn advance_frame_renders_then_steps() {
    // On a still life the frame text is the board's rendering and the next
    // generation is identical to the current one.
    let mut cells = vec![false; 36];
    for &(r, c) in [(2usize, 2usize), (2, 3), (3, 2), (3, 3)].iter() {
        cells[r * 6 + c] = true;
    }
    let board = Board::from_cells(cells.clone(), 6, 6);
    let (text, next) = advance_frame(&board);
    assert_eq!(text, render_board(&cells, 6, 6));
    assert_eq!(next.cells, cells);
    assert_eq!(next.width, 6);
    assert_eq!(next.height, 6);
}
