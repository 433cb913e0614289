use termcore::ansi::CharAttributes;
use termcore::grid::{TerminalGrid, TerminalChar};
use termcore::session::TerminalSize;
use termcore::terminal::Terminal;

fn plain() -> CharAttributes {
    CharAttributes::plain()
}

fn row_text(grid: &TerminalGrid, row: usize) -> String {
    grid.rows[row].iter().map(|c| c.character).collect()
}

#[test]
fn wrap_moves_cursor_to_next_row_start() {
    // Writing exactly one full row of characters from column zero moves the
    // cursor to the start of the next row.
    let mut g = TerminalGrid::new(4, 3);
    let a = plain();
    for ch in ['a', 'b', 'c', 'd'] {
        g.write_char(ch, &a);
    }
    assert_eq!(g.cursor.row, 1);
    assert_eq!(g.cursor.col, 0);
    assert_eq!(row_text(&g, 0), "abcd");
}

#[test]
fn wrap_on_last_row_scrolls() {
    // On the last row a full-row write scrolls instead: the top row is
    // evicted, a blank row appears at the bottom, and the cursor stays on
    // the last row at column zero.
    let mut g = TerminalGrid::new(4, 3);
    let a = plain();
    for ch in ['t', 'o', 'p', '!'] {
        g.write_char(ch, &a);
    }
    g.move_cursor(2, 0);
    for ch in ['l', 'a', 's', 't'] {
        g.write_char(ch, &a);
    }
    assert_eq!(g.cursor.row, 2);
    assert_eq!(g.cursor.col, 0);
    // The former top row was evicted; the written last row moved up.
    assert_eq!(row_text(&g, 1), "last");
    assert_eq!(row_text(&g, 2), "    ");
}

#[test]
fn move_cursor_clamps() {
    let mut g = TerminalGrid::new(10, 5);
    g.move_cursor(100, 100);
    assert_eq!((g.cursor.row, g.cursor.col), (4, 9));
    g.move_cursor_relative(-100, -100);
    assert_eq!((g.cursor.row, g.cursor.col), (0, 0));
    g.move_cursor_relative(2, 3);
    assert_eq!((g.cursor.row, g.cursor.col), (2, 3));
}

#[test]
fn clear_screen_resets_cells_and_cursor() {
    let mut g = TerminalGrid::new(3, 2);
    g.write_char('x', &plain());
    g.clear_screen();
    assert_eq!((g.cursor.row, g.cursor.col), (0, 0));
    for r in 0..2 {
        for c in 0..3 {
            assert_eq!(g.rows[r][c], TerminalChar::blank());
        }
    }
}

#[test]
fn clear_line_resets_only_cursor_row() {
    let mut g = TerminalGrid::new(3, 2);
    g.write_char('x', &plain());
    g.move_cursor(1, 0);
    g.write_char('y', &plain());
    g.move_cursor(1, 0);
    g.clear_line();
    assert_eq!(row_text(&g, 0), "x  ");
    assert_eq!(row_text(&g, 1), "   ");
}

#[test]
fn scroll_up_evicts_top_rows() {
    let mut g = TerminalGrid::new(2, 3);
    g.write_char('a', &plain());
    g.move_cursor(1, 0);
    g.write_char('b', &plain());
    g.move_cursor(2, 0);
    g.write_char('c', &plain());
    g.scroll_up(1);
    assert_eq!(row_text(&g, 0), "b ");
    assert_eq!(row_text(&g, 1), "c ");
    assert_eq!(row_text(&g, 2), "  ");
}

#[test]
fn scroll_whole_grid_clears() {
    let mut g = TerminalGrid::new(2, 2);
    g.write_char('a', &plain());
    g.scroll_up(2);
    assert_eq!((g.cursor.row, g.cursor.col), (0, 0));
    assert_eq!(row_text(&g, 0), "  ");
}

#[test]
fn resize_pads_and_truncates() {
    let mut g = TerminalGrid::new(2, 2);
    g.write_char('a', &plain());
    g.resize(4, 3);
    assert_eq!(g.cols, 4);
    assert_eq!(g.rows.len(), 3);
    assert_eq!(row_text(&g, 0), "a   ");
    g.move_cursor(2, 3);
    g.resize(2, 1);
    assert_eq!((g.cursor.row, g.cursor.col), (0, 1));
    assert_eq!(g.rows.len(), 1);
    assert_eq!(row_text(&g, 0), "a ");
}

#[test]
fn clear_and_home_leaves_origin_and_defaults() {
    // Decoding a full clear followed by a home position: the cursor lands
    // at the zero-based origin and every cell is the default.
    let size = TerminalSize { cols: 4, rows: 3, pixel_width: 0, pixel_height: 0 };
    let mut t = Terminal::new("s".to_string(), size);
    t.process_output("dirt");
    t.process_output("\x1b[2J\x1b[H");
    assert_eq!((t.grid.cursor.row, t.grid.cursor.col), (0, 0));
    for r in 0..3 {
        for c in 0..4 {
            assert_eq!(t.grid.rows[r][c], TerminalChar::blank());
        }
    }
}

#[test]
fn printed_text_lands_in_grid_with_attributes() {
    let size = TerminalSize { cols: 10, rows: 2, pixel_width: 0, pixel_height: 0 };
    let mut t = Terminal::new("s".to_string(), size);
    t.process_output("\x1b[31mhi");
    assert_eq!(t.grid.rows[0][0].character, 'h');
    assert_eq!(t.grid.rows[0][1].character, 'i');
    let fg = t.grid.rows[0][0].attributes.fg_color.unwrap();
    assert_eq!((fg.r, fg.g, fg.b), (255, 0, 0));
    t.process_output("\x1b[0m!");
    assert!(t.grid.rows[0][2].attributes.fg_color.is_none());
}

#[test]
fn erase_to_end_of_line_keeps_the_head() {
    let size = TerminalSize { cols: 6, rows: 2, pixel_width: 0, pixel_height: 0 };
    let mut t = Terminal::new("s".to_string(), size);
    t.process_output("abcdef");
    // Wrapping moved the cursor to the next row; come back and erase.
    t.process_output("\x1b[1;3H\x1b[K");
    assert_eq!(row_text(&t.grid, 0), "ab    ");
}

#[test]
fn erase_to_start_of_line_keeps_the_tail() {
    let size = TerminalSize { cols: 6, rows: 2, pixel_width: 0, pixel_height: 0 };
    let mut t = Terminal::new("s".to_string(), size);
    t.process_output("abcdef");
    t.process_output("\x1b[1;3H\x1b[1K");
    assert_eq!(row_text(&t.grid, 0), "   def");
}

#[test]
fn erase_from_cursor_clears_below() {
    let size = TerminalSize { cols: 4, rows: 3, pixel_width: 0, pixel_height: 0 };
    let mut t = Terminal::new("s".to_string(), size);
    t.process_output("aaa");
    t.process_output("\x1b[2;1Hbbb");
    t.process_output("\x1b[3;1Hccc");
    t.process_output("\x1b[2;2H\x1b[J");
    assert_eq!(row_text(&t.grid, 0), "aaa ");
    assert_eq!(row_text(&t.grid, 1), "b   ");
    assert_eq!(row_text(&t.grid, 2), "    ");
}

#[test]
fn erase_to_cursor_clears_above() {
    let size = TerminalSize { cols: 4, rows: 3, pixel_width: 0, pixel_height: 0 };
    let mut t = Terminal::new("s".to_string(), size);
    t.process_output("aaa");
    t.process_output("\x1b[2;1Hbbb");
    t.process_output("\x1b[3;1Hccc");
    t.process_output("\x1b[2;2H\x1b[1J");
    assert_eq!(row_text(&t.grid, 0), "    ");
    assert_eq!(row_text(&t.grid, 1), "  b ");
    assert_eq!(row_text(&t.grid, 2), "ccc ");
}

