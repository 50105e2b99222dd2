use todo_rs::emit::Pen;
use todo_rs::screen_buf::{apply_patches, Buffer, Cell, Color, Command, Patch, VirtualScreen};

fn cell(ch: char) -> Cell {
    Cell::new(ch, Color::White, Color::Black)
}

fn read_all(buffer: &Buffer) -> Vec<Cell> {
    let mut cells = Vec::new();
    for y in 0..buffer.height() {
        for x in 0..buffer.width() {
            cells.push(buffer.cell_at(x, y).unwrap());
        }
    }
    cells
}

#[test]
fn default_cell_is_a_white_space_on_black() {
    assert_eq!(Cell::default(), Cell { ch: ' ', fg: Color::White, bg: Color::Black });
}

#[test]
fn new_buffer_holds_one_blank_cell_per_coordinate() {
    let buffer = Buffer::new(3, 2);
    assert_eq!(buffer.width(), 3);
    assert_eq!(buffer.height(), 2);
    assert_eq!(read_all(&buffer), vec![Cell::default(); 6]);
    assert_eq!(buffer.cell_at(3, 0), None);
    assert_eq!(buffer.cell_at(0, 2), None);
}

#[test]
fn default_buffer_has_no_cells() {
    let buffer = Buffer::default();
    assert_eq!(buffer.width(), 0);
    assert_eq!(buffer.height(), 0);
    assert_eq!(buffer.cell_at(0, 0), None);
    assert!(buffer.diff(&Buffer::new(0, 0)).is_empty());
}

#[test]
fn clone_of_a_buffer_shows_the_same() {
    let mut buffer = Buffer::new(3, 2);
    buffer.put_cells(0, 1, "abc", Color::Red, Color::Blue);
    let copy = buffer.clone();
    assert_eq!(copy.width(), 3);
    assert_eq!(copy.height(), 2);
    assert_eq!(read_all(&copy), read_all(&buffer));
    assert!(buffer.diff(&copy).is_empty());
    buffer.put_cell(0, 0, 'x', Color::White, Color::Black);
    assert_eq!(copy.cell_at(0, 0), Some(Cell::default()));
}

#[test]
fn put_cell_overwrites_one_cell() {
    let mut buffer = Buffer::new(3, 2);
    buffer.put_cell(1, 1, 'x', Color::Red, Color::Blue);
    for y in 0..2 {
        for x in 0..3 {
            let expected = if (x, y) == (1, 1) {
                Cell { ch: 'x', fg: Color::Red, bg: Color::Blue }
            } else {
                Cell::default()
            };
            assert_eq!(buffer.cell_at(x, y), Some(expected));
        }
    }
}

#[test]
fn put_cell_outside_the_grid_changes_nothing() {
    let mut buffer = Buffer::new(3, 2);
    buffer.put_cell(3, 0, 'x', Color::Red, Color::Blue);
    buffer.put_cell(0, 2, 'x', Color::Red, Color::Blue);
    buffer.put_cell(usize::MAX, usize::MAX, 'x', Color::Red, Color::Blue);
    assert_eq!(read_all(&buffer), vec![Cell::default(); 6]);
}

#[test]
fn put_cells_writes_one_character_per_column() {
    let mut buffer = Buffer::new(5, 2);
    buffer.put_cells(1, 1, "héy", Color::Green, Color::Black);
    let glyph = |ch| Some(Cell { ch, fg: Color::Green, bg: Color::Black });
    assert_eq!(buffer.cell_at(0, 1), Some(Cell::default()));
    assert_eq!(buffer.cell_at(1, 1), glyph('h'));
    assert_eq!(buffer.cell_at(2, 1), glyph('é'));
    assert_eq!(buffer.cell_at(3, 1), glyph('y'));
    assert_eq!(buffer.cell_at(4, 1), Some(Cell::default()));
    for x in 0..5 {
        assert_eq!(buffer.cell_at(x, 0), Some(Cell::default()));
    }
}

#[test]
fn put_cells_drops_what_falls_beyond_the_right_edge() {
    for x in 0..4usize {
        let mut buffer = Buffer::new(x + 2, 3);
        buffer.put_cells(x, 1, "ABC", Color::White, Color::Black);
        assert_eq!(buffer.cell_at(x, 1), Some(cell('A')));
        assert_eq!(buffer.cell_at(x + 1, 1), Some(cell('B')));
        assert_eq!(buffer.cell_at(x + 2, 1), None);
        // nothing wraps into the next row
        for column in 0..x + 2 {
            assert_eq!(buffer.cell_at(column, 2), Some(Cell::default()));
            assert_eq!(buffer.cell_at(column, 0), Some(Cell::default()));
        }
    }
}

#[test]
fn put_cells_that_starts_outside_writes_nothing() {
    let mut buffer = Buffer::new(3, 2);
    buffer.put_cells(3, 0, "AB", Color::White, Color::Black);
    buffer.put_cells(0, 2, "AB", Color::White, Color::Black);
    buffer.put_cells(usize::MAX, 1, "AB", Color::White, Color::Black);
    assert_eq!(read_all(&buffer), vec![Cell::default(); 6]);
}

#[test]
fn put_cells_of_an_empty_text_writes_nothing() {
    let mut buffer = Buffer::new(3, 2);
    buffer.put_cells(1, 1, "", Color::Red, Color::Red);
    assert_eq!(read_all(&buffer), vec![Cell::default(); 6]);
}

#[test]
fn resize_blanks_every_cell() {
    let mut buffer = Buffer::new(3, 2);
    buffer.put_cells(0, 0, "abc", Color::Red, Color::Blue);
    buffer.put_cells(0, 1, "def", Color::Red, Color::Blue);
    buffer.resize(2, 4);
    assert_eq!(buffer.width(), 2);
    assert_eq!(buffer.height(), 4);
    assert_eq!(read_all(&buffer), vec![Cell::default(); 8]);
    buffer.put_cell(1, 3, 'z', Color::Red, Color::Blue);
    buffer.resize(2, 4);
    assert_eq!(read_all(&buffer), vec![Cell::default(); 8]);
}

#[test]
fn clear_blanks_every_cell_and_keeps_the_dimensions() {
    let mut buffer = Buffer::new(3, 2);
    buffer.put_cells(0, 1, "abc", Color::Red, Color::Blue);
    buffer.clear();
    assert_eq!(buffer.width(), 3);
    assert_eq!(buffer.height(), 2);
    assert_eq!(read_all(&buffer), vec![Cell::default(); 6]);
}

#[test]
fn diff_of_a_buffer_with_itself_is_empty() {
    let mut buffer = Buffer::new(4, 3);
    assert!(buffer.diff(&buffer).is_empty());
    buffer.put_cells(1, 1, "abc", Color::Red, Color::Blue);
    assert!(buffer.diff(&buffer).is_empty());
}

#[test]
fn diff_lists_the_changed_cells_in_row_major_order() {
    let old = Buffer::new(3, 3);
    let mut new = Buffer::new(3, 3);
    new.put_cell(2, 2, 'c', Color::White, Color::Black);
    new.put_cell(1, 0, 'a', Color::White, Color::Black);
    new.put_cell(0, 2, 'b', Color::Red, Color::Black);
    // a blank written over a blank is no change
    new.put_cell(1, 1, ' ', Color::White, Color::Black);
    let patches = old.diff(&new);
    assert_eq!(
        patches,
        vec![
            Patch { cell: cell('a'), x: 1, y: 0 },
            Patch { cell: Cell { ch: 'b', fg: Color::Red, bg: Color::Black }, x: 0, y: 2 },
            Patch { cell: cell('c'), x: 2, y: 2 },
        ]
    );
}

#[test]
fn diff_written_into_the_old_buffer_gives_the_new_one() {
    let mut old = Buffer::new(4, 3);
    old.put_cells(0, 0, "abcd", Color::Red, Color::Black);
    old.put_cells(1, 2, "xy", Color::White, Color::Blue);
    let mut new = Buffer::new(4, 3);
    new.put_cells(0, 0, "abzd", Color::Red, Color::Black);
    new.put_cells(2, 1, "pq", Color::Green, Color::Black);
    new.put_cells(1, 2, "xy", Color::White, Color::Black);
    let patches = old.diff(&new);
    assert_eq!(patches.len(), 5);
    for patch in patches {
        old.put_cell(patch.x, patch.y, patch.cell.ch, patch.cell.fg, patch.cell.bg);
    }
    assert_eq!(read_all(&old), read_all(&new));
    assert!(old.diff(&new).is_empty());
}

#[test]
fn diff_carries_the_cells_of_its_argument() {
    let mut old = Buffer::new(2, 1);
    old.put_cell(0, 0, 'o', Color::White, Color::Black);
    let new = Buffer::new(2, 1);
    assert_eq!(old.diff(&new), vec![Patch { cell: Cell::default(), x: 0, y: 0 }]);
    assert_eq!(new.diff(&old), vec![Patch { cell: cell('o'), x: 0, y: 0 }]);
}

#[test]
fn diff_sees_a_change_of_colour_alone() {
    let old = Buffer::new(2, 2);
    let mut new = Buffer::new(2, 2);
    new.put_cell(1, 1, ' ', Color::White, Color::Blue);
    assert_eq!(
        old.diff(&new),
        vec![Patch { cell: Cell { ch: ' ', fg: Color::White, bg: Color::Blue }, x: 1, y: 1 }]
    );
}

#[test]
fn apply_patches_of_nothing_sets_the_colours_only() {
    assert_eq!(
        apply_patches(&[]),
        vec![
            Command::SetForegroundColor(Color::White),
            Command::SetBackgroundColor(Color::Black),
        ]
    );
}

#[test]
fn apply_patches_moves_only_where_patches_do_not_adjoin() {
    let patches = [
        Patch { cell: cell('a'), x: 3, y: 1 },
        Patch { cell: cell('b'), x: 4, y: 1 },
        Patch { cell: cell('c'), x: 6, y: 1 },
        Patch { cell: cell('d'), x: 7, y: 2 },
        Patch { cell: cell('e'), x: 7, y: 2 },
        Patch { cell: cell('f'), x: 6, y: 2 },
    ];
    assert_eq!(
        apply_patches(&patches),
        vec![
            Command::SetForegroundColor(Color::White),
            Command::SetBackgroundColor(Color::Black),
            Command::MoveTo { x: 3, y: 1 },
            Command::Print('a'),
            Command::Print('b'),
            Command::MoveTo { x: 6, y: 1 },
            Command::Print('c'),
            Command::MoveTo { x: 7, y: 2 },
            Command::Print('d'),
            Command::MoveTo { x: 7, y: 2 },
            Command::Print('e'),
            Command::MoveTo { x: 6, y: 2 },
            Command::Print('f'),
        ]
    );
}

#[test]
fn apply_patches_moves_the_cursor_for_its_first_patch() {
    for (x, y) in [(1, 0), (0, 0), (0, 1), (5, 3)] {
        assert_eq!(
            apply_patches(&[Patch { cell: cell('a'), x, y }]),
            vec![
                Command::SetForegroundColor(Color::White),
                Command::SetBackgroundColor(Color::Black),
                Command::MoveTo { x, y },
                Command::Print('a'),
            ]
        );
    }
}

#[test]
fn apply_patches_of_one_changed_cell_in_the_second_column() {
    let mut drawn = Buffer::new(2, 1);
    drawn.put_cell(1, 0, 'A', Color::White, Color::Black);
    let patches = Buffer::new(2, 1).diff(&drawn);
    assert_eq!(patches, vec![Patch { cell: cell('A'), x: 1, y: 0 }]);
    assert_eq!(
        apply_patches(&patches),
        vec![
            Command::SetForegroundColor(Color::White),
            Command::SetBackgroundColor(Color::Black),
            Command::MoveTo { x: 1, y: 0 },
            Command::Print('A'),
        ]
    );
}

#[test]
fn apply_patches_sets_a_colour_only_where_it_changes() {
    let red_on_black = Cell { ch: 'r', fg: Color::Red, bg: Color::Black };
    let red_on_blue = Cell { ch: 'b', fg: Color::Red, bg: Color::Blue };
    let white_on_blue = Cell { ch: 'w', fg: Color::White, bg: Color::Blue };
    let patches = [
        Patch { cell: red_on_black, x: 1, y: 0 },
        Patch { cell: red_on_black, x: 2, y: 0 },
        Patch { cell: red_on_blue, x: 3, y: 0 },
        Patch { cell: white_on_blue, x: 4, y: 0 },
        Patch { cell: Cell::default(), x: 5, y: 0 },
    ];
    assert_eq!(
        apply_patches(&patches),
        vec![
            Command::SetForegroundColor(Color::White),
            Command::SetBackgroundColor(Color::Black),
            Command::MoveTo { x: 1, y: 0 },
            Command::SetForegroundColor(Color::Red),
            Command::Print('r'),
            Command::Print('r'),
            Command::SetBackgroundColor(Color::Blue),
            Command::Print('b'),
            Command::SetForegroundColor(Color::White),
            Command::Print('w'),
            Command::SetBackgroundColor(Color::Black),
            Command::Print(' '),
        ]
    );
}

#[test]
fn apply_patches_does_not_overflow_at_the_last_column() {
    let patches = [
        Patch { cell: cell('a'), x: usize::MAX, y: 0 },
        Patch { cell: cell('b'), x: 0, y: 0 },
    ];
    assert_eq!(
        apply_patches(&patches),
        vec![
            Command::SetForegroundColor(Color::White),
            Command::SetBackgroundColor(Color::Black),
            Command::MoveTo { x: usize::MAX, y: 0 },
            Command::Print('a'),
            Command::MoveTo { x: 0, y: 0 },
            Command::Print('b'),
        ]
    );
}

#[test]
fn pen_remembers_the_patch_it_has_drawn() {
    let mut pen = Pen { last: None, fg: Color::White, bg: Color::Black };
    let mut queue = Vec::new();
    let patch = Patch { cell: Cell { ch: 'x', fg: Color::Red, bg: Color::Blue }, x: 4, y: 2 };
    pen.put(&patch, &mut queue);
    assert_eq!(pen.last, Some((4, 2)));
    assert_eq!(pen.fg, Color::Red);
    assert_eq!(pen.bg, Color::Blue);
    assert_eq!(
        queue,
        vec![
            Command::MoveTo { x: 4, y: 2 },
            Command::SetForegroundColor(Color::Red),
            Command::SetBackgroundColor(Color::Blue),
            Command::Print('x'),
        ]
    );
}

#[test]
fn flush_draws_every_cell_row_by_row() {
    let mut buffer = Buffer::new(2, 2);
    buffer.put_cell(1, 0, 'b', Color::Red, Color::Black);
    buffer.put_cell(0, 1, 'c', Color::Red, Color::Blue);
    assert_eq!(
        buffer.flush(),
        vec![
            Command::Clear,
            Command::SetForegroundColor(Color::White),
            Command::SetBackgroundColor(Color::Black),
            Command::MoveTo { x: 0, y: 0 },
            Command::Print(' '),
            Command::SetForegroundColor(Color::Red),
            Command::Print('b'),
            Command::MoveTo { x: 0, y: 1 },
            Command::SetBackgroundColor(Color::Blue),
            Command::Print('c'),
            Command::SetForegroundColor(Color::White),
            Command::SetBackgroundColor(Color::Black),
            Command::Print(' '),
            Command::Flush,
        ]
    );
}

#[test]
fn flush_of_an_empty_buffer_clears_and_flushes() {
    assert_eq!(
        Buffer::new(0, 3).flush(),
        vec![
            Command::Clear,
            Command::SetForegroundColor(Color::White),
            Command::SetBackgroundColor(Color::Black),
            Command::Flush,
        ]
    );
}

#[test]
fn new_screen_is_blank_in_both_buffers() {
    let screen = VirtualScreen::new(3, 2);
    assert_eq!(read_all(screen.current()), vec![Cell::default(); 6]);
    assert_eq!(read_all(screen.previous()), vec![Cell::default(); 6]);
    assert!(screen.diff().is_empty());
    let empty = VirtualScreen::default();
    assert_eq!(empty.current().width(), 0);
    assert_eq!(empty.previous().height(), 0);
}

#[test]
fn screen_writes_go_to_the_current_buffer_only() {
    let mut screen = VirtualScreen::new(3, 2);
    screen.put_cell(0, 0, 'a', Color::White, Color::Black);
    screen.put_cells(1, 1, "bc", Color::White, Color::Black);
    assert_eq!(screen.current().cell_at(0, 0), Some(cell('a')));
    assert_eq!(screen.current().cell_at(1, 1), Some(cell('b')));
    assert_eq!(screen.current().cell_at(2, 1), Some(cell('c')));
    assert_eq!(read_all(screen.previous()), vec![Cell::default(); 6]);
}

#[test]
fn screen_diff_leads_from_the_previous_buffer_to_the_current_one() {
    let mut screen = VirtualScreen::new(3, 2);
    screen.put_cells(1, 1, "bc", Color::White, Color::Black);
    assert_eq!(
        screen.diff(),
        vec![Patch { cell: cell('b'), x: 1, y: 1 }, Patch { cell: cell('c'), x: 2, y: 1 }]
    );
}

#[test]
fn swap_exchanges_the_buffers() {
    let mut screen = VirtualScreen::new(2, 1);
    screen.put_cell(0, 0, 'a', Color::White, Color::Black);
    screen.swap();
    assert_eq!(screen.previous().cell_at(0, 0), Some(cell('a')));
    assert_eq!(screen.current().cell_at(0, 0), Some(Cell::default()));
    // the stale current buffer now differs the other way round
    assert_eq!(screen.diff(), vec![Patch { cell: Cell::default(), x: 0, y: 0 }]);
    screen.swap();
    assert_eq!(screen.current().cell_at(0, 0), Some(cell('a')));
    assert_eq!(screen.previous().cell_at(0, 0), Some(Cell::default()));
}

#[test]
fn steady_state_needs_no_patches() {
    let mut screen = VirtualScreen::new(4, 2);
    // first frame
    screen.put_cells(0, 0, "same", Color::White, Color::Black);
    assert_eq!(screen.diff().len(), 4);
    screen.swap();
    // second frame draws the same
    screen.put_cells(0, 0, "same", Color::White, Color::Black);
    assert!(screen.diff().is_empty());
    screen.swap();
    // a frame without any drawing stays steady
    assert!(screen.diff().is_empty());
    screen.swap();
    assert!(screen.diff().is_empty());
}

#[test]
fn screen_resize_blanks_both_buffers() {
    let mut screen = VirtualScreen::new(2, 2);
    screen.put_cells(0, 0, "ab", Color::White, Color::Black);
    screen.swap();
    screen.put_cells(0, 1, "cd", Color::White, Color::Black);
    screen.resize(3, 1);
    assert_eq!(screen.current().width(), 3);
    assert_eq!(screen.previous().width(), 3);
    assert_eq!(screen.current().height(), 1);
    assert_eq!(screen.previous().height(), 1);
    assert_eq!(read_all(screen.current()), vec![Cell::default(); 3]);
    assert_eq!(read_all(screen.previous()), vec![Cell::default(); 3]);
}

#[test]
fn screen_flush_draws_the_previous_buffer() {
    let mut screen = VirtualScreen::new(1, 1);
    screen.put_cell(0, 0, 'a', Color::White, Color::Black);
    let blank = vec![
        Command::Clear,
        Command::SetForegroundColor(Color::White),
        Command::SetBackgroundColor(Color::Black),
        Command::MoveTo { x: 0, y: 0 },
        Command::Print(' '),
        Command::Flush,
    ];
    assert_eq!(screen.flush(), blank);
    screen.swap();
    let mut drawn = blank;
    drawn[4] = Command::Print('a');
    assert_eq!(screen.flush(), drawn);
}
