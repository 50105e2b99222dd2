use todo_rs::screen_buf::{Cell, Color, Command, Patch};
use todo_rs::ui::{Layout, LayoutKind, Ui, Vec2};

const FG: Color = Color::White;
const BG: Color = Color::Black;

fn glyph(ch: char) -> Option<Cell> {
    Some(Cell::new(ch, FG, BG))
}

fn top(ui: &Ui) -> Layout {
    ui.current_layout().unwrap()
}

#[test]
fn vec2_new_and_null() {
    assert_eq!(Vec2::new(3, -4), Vec2 { x: 3, y: -4 });
    assert_eq!(Vec2::null(), Vec2 { x: 0, y: 0 });
    assert_eq!(Vec2::default(), Vec2::null());
}

#[test]
fn vec2_adds_and_multiplies_by_component() {
    assert_eq!(Vec2::new(1, 2) + Vec2::new(10, -20), Vec2::new(11, -18));
    assert_eq!(Vec2::new(3, 4) * Vec2::new(5, -6), Vec2::new(15, -24));
    assert_eq!(Vec2::new(i32::MAX, i32::MIN) + Vec2::null(), Vec2::new(i32::MAX, i32::MIN));
    assert_eq!(Vec2::new(7, 9) * Vec2::new(1, 0), Vec2::new(7, 0));
}

#[test]
fn vertical_layout_places_below_and_sums_heights() {
    let mut layout = Layout { kind: LayoutKind::Vert, pos: Vec2::new(4, 2), size: Vec2::null() };
    assert_eq!(layout.available_pos(), Vec2::new(4, 2));
    layout.add_widget(Vec2::new(3, 1));
    assert_eq!(layout.size, Vec2::new(3, 1));
    assert_eq!(layout.available_pos(), Vec2::new(4, 3));
    layout.add_widget(Vec2::new(2, 5));
    assert_eq!(layout.size, Vec2::new(3, 6));
    assert_eq!(layout.available_pos(), Vec2::new(4, 8));
    layout.add_widget(Vec2::new(7, 0));
    assert_eq!(layout.size, Vec2::new(7, 6));
    assert_eq!(layout.pos, Vec2::new(4, 2));
}

#[test]
fn horizontal_layout_places_right_and_sums_widths() {
    let mut layout = Layout { kind: LayoutKind::Horz, pos: Vec2::new(4, 2), size: Vec2::null() };
    assert_eq!(layout.available_pos(), Vec2::new(4, 2));
    layout.add_widget(Vec2::new(3, 2));
    assert_eq!(layout.size, Vec2::new(3, 2));
    assert_eq!(layout.available_pos(), Vec2::new(7, 2));
    layout.add_widget(Vec2::new(2, 5));
    assert_eq!(layout.size, Vec2::new(5, 5));
    assert_eq!(layout.available_pos(), Vec2::new(9, 2));
    layout.add_widget(Vec2::new(1, 1));
    assert_eq!(layout.size, Vec2::new(6, 5));
}

#[test]
fn layout_size_never_shrinks_under_widgets_without_negative_extent() {
    for kind in [LayoutKind::Vert, LayoutKind::Horz] {
        let mut layout = Layout { kind, pos: Vec2::null(), size: Vec2::null() };
        for size in [Vec2::new(0, 0), Vec2::new(5, 1), Vec2::new(1, 5), Vec2::new(0, 3)] {
            let before = layout.size;
            assert!(layout.accepts(size));
            layout.add_widget(size);
            assert!(layout.size.x >= before.x);
            assert!(layout.size.y >= before.y);
        }
    }
}

#[test]
fn layout_knows_what_it_has_room_for() {
    let full = Layout { kind: LayoutKind::Horz, pos: Vec2::null(), size: Vec2::new(i32::MAX, 0) };
    assert!(full.accepts(Vec2::new(0, 1)));
    assert!(!full.accepts(Vec2::new(1, 1)));
    assert!(full.accepts(Vec2::new(-1, i32::MAX)));
    assert!(full.has_room());
    let far = Layout { kind: LayoutKind::Horz, pos: Vec2::new(1, 0), size: Vec2::new(i32::MAX, 0) };
    assert!(!far.has_room());
    let tall = Layout { kind: LayoutKind::Vert, pos: Vec2::new(1, 1), size: Vec2::new(i32::MAX, i32::MAX) };
    assert!(!tall.has_room());
    assert!(!tall.accepts(Vec2::new(0, 1)));
    assert!(tall.accepts(Vec2::new(i32::MAX, 0)));
    let low = Layout { kind: LayoutKind::Vert, pos: Vec2::new(0, i32::MIN), size: Vec2::new(0, -1) };
    assert!(!low.has_room());
    assert!(!low.accepts(Vec2::new(0, i32::MIN)));
}

#[test]
fn new_ui_draws_its_blank_screen() {
    let (ui, queue) = Ui::new(2, 1);
    assert_eq!(ui.depth(), 0);
    assert_eq!(ui.current_layout(), None);
    assert_eq!(ui.screen().current().width(), 2);
    assert_eq!(ui.screen().previous().height(), 1);
    assert_eq!(
        queue,
        vec![
            Command::Clear,
            Command::SetForegroundColor(Color::White),
            Command::SetBackgroundColor(Color::Black),
            Command::MoveTo { x: 0, y: 0 },
            Command::Print(' '),
            Command::Print(' '),
            Command::Flush,
        ]
    );
}

#[test]
fn default_ui_has_a_screen_without_cells() {
    let mut ui = Ui::default();
    assert_eq!(ui.depth(), 0);
    assert!(ui.can_begin());
    assert_eq!(ui.screen().current().width(), 0);
    assert_eq!(ui.screen().previous().height(), 0);
    ui.begin(Vec2::null(), LayoutKind::Vert);
    ui.label("lost", FG, BG);
    assert_eq!(top(&ui).size, Vec2::new(4, 1));
    assert_eq!(
        ui.end(),
        vec![
            Command::SetForegroundColor(Color::White),
            Command::SetBackgroundColor(Color::Black),
            Command::Flush,
        ]
    );
}

#[test]
fn ui_resize_blanks_the_screen_and_draws_it() {
    let (mut ui, _) = Ui::new(2, 1);
    ui.put_cells(0, 0, "ab", FG, BG);
    let queue = ui.resize(1, 2);
    assert_eq!(ui.screen().current().width(), 1);
    assert_eq!(ui.screen().current().height(), 2);
    assert_eq!(ui.screen().current().cell_at(0, 0), Some(Cell::default()));
    assert_eq!(ui.screen().current().cell_at(0, 1), Some(Cell::default()));
    assert_eq!(
        queue,
        vec![
            Command::Clear,
            Command::SetForegroundColor(Color::White),
            Command::SetBackgroundColor(Color::Black),
            Command::MoveTo { x: 0, y: 0 },
            Command::Print(' '),
            Command::MoveTo { x: 0, y: 1 },
            Command::Print(' '),
            Command::Flush,
        ]
    );
}

#[test]
fn vertical_frame_with_two_labels() {
    let pos = Vec2::new(3, 1);
    let (mut ui, _) = Ui::new(10, 5);
    ui.begin(pos, LayoutKind::Vert);
    ui.label("AB", FG, BG);
    assert_eq!(top(&ui).available_pos(), Vec2::new(3, 2));
    ui.label("C", FG, BG);
    assert_eq!(top(&ui).size, Vec2::new(2, 2));
    assert_eq!(top(&ui).pos, pos);
    assert_eq!(ui.screen().current().cell_at(3, 1), glyph('A'));
    assert_eq!(ui.screen().current().cell_at(4, 1), glyph('B'));
    assert_eq!(ui.screen().current().cell_at(3, 2), glyph('C'));
    assert_eq!(ui.screen().current().cell_at(4, 2), Some(Cell::default()));
    ui.end();
    assert_eq!(ui.depth(), 0);
}

#[test]
fn label_fixed_width_returns_where_it_drew() {
    let pos = Vec2::new(3, 1);
    let (mut ui, _) = Ui::new(10, 5);
    ui.begin(pos, LayoutKind::Vert);
    assert_eq!(ui.label_fixed_width("AB", 2, FG, BG), pos);
    assert_eq!(ui.label_fixed_width("C", 1, FG, BG), Vec2::new(3, 2));
    assert_eq!(top(&ui).size, Vec2::new(2, 2));
}

#[test]
fn horizontal_frame_with_two_nested_columns() {
    let pos = Vec2::new(1, 1);
    let (mut ui, _) = Ui::new(20, 10);
    ui.begin(pos, LayoutKind::Horz);
    ui.begin_layout(LayoutKind::Vert);
    assert_eq!(top(&ui).pos, pos);
    ui.label_fixed_width("abc", 3, FG, BG);
    ui.label_fixed_width("de", 2, FG, BG);
    assert_eq!(top(&ui).size, Vec2::new(3, 2));
    ui.end_layout();
    assert_eq!(ui.depth(), 1);
    assert_eq!(top(&ui).size, Vec2::new(3, 2));
    ui.begin_layout(LayoutKind::Vert);
    assert_eq!(top(&ui).pos, Vec2::new(4, 1));
    for text in ["fg", "h", "i", "j", "k"] {
        ui.label_fixed_width(text, 2, FG, BG);
    }
    assert_eq!(top(&ui).size, Vec2::new(2, 5));
    ui.end_layout();
    assert_eq!(top(&ui).size, Vec2::new(5, 5));
    assert_eq!(top(&ui).kind, LayoutKind::Horz);
    assert_eq!(ui.screen().current().cell_at(1, 2), glyph('d'));
    assert_eq!(ui.screen().current().cell_at(4, 1), glyph('f'));
    assert_eq!(ui.screen().current().cell_at(4, 5), glyph('k'));
    ui.end();
    assert!(ui.can_begin());
}

#[test]
fn frames_cannot_overlap() {
    let (mut ui, _) = Ui::new(4, 4);
    // no frame is open: one can be begun, none can be ended
    assert!(ui.can_begin());
    assert!(!ui.can_end());
    assert!(!ui.can_end_layout());
    assert!(!ui.can_begin_layout());
    assert!(!ui.can_label(1));
    ui.begin(Vec2::null(), LayoutKind::Vert);
    // a frame is open: no second one can be begun
    assert!(!ui.can_begin());
    assert!(ui.can_end());
    assert!(!ui.can_end_layout());
    assert!(ui.can_begin_layout());
    ui.begin_layout(LayoutKind::Horz);
    assert!(!ui.can_begin());
    assert!(!ui.can_end());
    assert!(ui.can_end_layout());
    ui.end_layout();
    assert!(ui.can_end());
    ui.end();
    assert!(ui.can_begin());
    assert!(!ui.can_end());
    assert_eq!(ui.depth(), 0);
}

#[test]
fn nested_layout_without_room_in_its_parent_cannot_be_ended() {
    let (mut ui, _) = Ui::new(4, 4);
    ui.begin(Vec2::null(), LayoutKind::Horz);
    ui.label_fixed_width("ab", 2, FG, BG);
    ui.begin_layout(LayoutKind::Horz);
    assert!(ui.can_label(i32::MAX));
    ui.label_fixed_width("", i32::MAX, FG, BG);
    // the nested layout is as wide as a size can say: together with the
    // label before it, it is too wide for the layout around it
    assert!(!ui.can_end_layout());
    assert!(!ui.can_label(1));
    // and its next position is not representable
    assert!(!ui.can_begin_layout());
    assert_eq!(ui.depth(), 2);
}

#[test]
fn label_pads_to_its_width_with_its_own_colours() {
    let (mut ui, _) = Ui::new(8, 2);
    ui.put_cells(0, 0, "????????", Color::Red, Color::Red);
    ui.begin(Vec2::new(1, 0), LayoutKind::Vert);
    ui.label_fixed_width("ab", 5, Color::Cyan, Color::Blue);
    let pad = Some(Cell::new(' ', Color::Cyan, Color::Blue));
    let stale = Some(Cell::new('?', Color::Red, Color::Red));
    let row: Vec<Option<Cell>> = (0..8).map(|x| ui.screen().current().cell_at(x, 0)).collect();
    assert_eq!(
        row,
        vec![
            stale,
            Some(Cell::new('a', Color::Cyan, Color::Blue)),
            Some(Cell::new('b', Color::Cyan, Color::Blue)),
            pad,
            pad,
            pad,
            stale,
            stale,
        ]
    );
    assert_eq!(top(&ui).size, Vec2::new(5, 1));
}

#[test]
fn label_narrower_than_its_text_draws_the_whole_text() {
    let (mut ui, _) = Ui::new(8, 2);
    ui.begin(Vec2::null(), LayoutKind::Horz);
    ui.label_fixed_width("abcd", 2, FG, BG);
    assert_eq!(ui.screen().current().cell_at(3, 0), glyph('d'));
    assert_eq!(ui.screen().current().cell_at(4, 0), Some(Cell::default()));
    assert_eq!(top(&ui).size, Vec2::new(2, 1));
    assert_eq!(ui.label_fixed_width("x", 1, FG, BG), Vec2::new(2, 0));
    assert_eq!(ui.screen().current().cell_at(2, 0), glyph('x'));
}

#[test]
fn label_is_cut_off_at_the_right_edge() {
    let (mut ui, _) = Ui::new(4, 2);
    ui.begin(Vec2::new(2, 0), LayoutKind::Vert);
    ui.label_fixed_width("abc", 6, FG, BG);
    assert_eq!(ui.screen().current().cell_at(2, 0), glyph('a'));
    assert_eq!(ui.screen().current().cell_at(3, 0), glyph('b'));
    for x in 0..4 {
        assert_eq!(ui.screen().current().cell_at(x, 1), Some(Cell::default()));
    }
    assert_eq!(top(&ui).size, Vec2::new(6, 1));
}

#[test]
fn label_left_of_or_above_the_screen_draws_nothing() {
    let (mut ui, _) = Ui::new(4, 2);
    ui.begin(Vec2::new(-1, 0), LayoutKind::Vert);
    assert_eq!(ui.label_fixed_width("abc", 3, FG, BG), Vec2::new(-1, 0));
    assert_eq!(top(&ui).size, Vec2::new(3, 1));
    ui.end();
    ui.begin(Vec2::new(0, -1), LayoutKind::Horz);
    ui.label_fixed_width("abc", 3, FG, BG);
    ui.end();
    for y in 0..2 {
        for x in 0..4 {
            assert_eq!(ui.screen().current().cell_at(x, y), Some(Cell::default()));
            assert_eq!(ui.screen().previous().cell_at(x, y), Some(Cell::default()));
        }
    }
}

#[test]
fn label_of_negative_width_pads_nothing() {
    let (mut ui, _) = Ui::new(4, 2);
    ui.begin(Vec2::null(), LayoutKind::Horz);
    ui.label_fixed_width("ab", 3, FG, BG);
    ui.label_fixed_width("c", -2, FG, BG);
    assert_eq!(ui.screen().current().cell_at(3, 0), glyph('c'));
    assert_eq!(top(&ui).size, Vec2::new(1, 1));
}

#[test]
fn label_is_as_wide_as_its_grapheme_clusters() {
    let (mut ui, _) = Ui::new(8, 2);
    ui.begin(Vec2::null(), LayoutKind::Horz);
    // an e and a combining acute accent: two characters, one cluster
    ui.label("e\u{301}", FG, BG);
    assert_eq!(top(&ui).size, Vec2::new(1, 1));
    assert_eq!(ui.screen().current().cell_at(0, 0), glyph('e'));
    assert_eq!(ui.screen().current().cell_at(1, 0), glyph('\u{301}'));
    ui.label("", FG, BG);
    assert_eq!(top(&ui).size, Vec2::new(1, 1));
    ui.label("héllo", FG, BG);
    assert_eq!(top(&ui).size, Vec2::new(6, 1));
}

#[test]
fn try_label_draws_where_there_is_room() {
    let (mut ui, _) = Ui::new(8, 2);
    ui.begin(Vec2::null(), LayoutKind::Horz);
    assert!(ui.try_label("ab", FG, BG));
    assert_eq!(top(&ui).size, Vec2::new(2, 1));
    assert_eq!(ui.screen().current().cell_at(1, 0), glyph('b'));
    assert!(ui.try_label("cd", Color::Red, BG));
    assert_eq!(top(&ui).size, Vec2::new(4, 1));
    assert_eq!(ui.screen().current().cell_at(2, 0), Some(Cell::new('c', Color::Red, BG)));
}

#[test]
fn try_label_without_room_changes_nothing() {
    let (mut ui, _) = Ui::new(8, 2);
    ui.begin(Vec2::new(-5, 0), LayoutKind::Horz);
    ui.label_fixed_width("", i32::MAX, FG, BG);
    assert!(ui.can_begin_layout());
    assert!(!ui.try_label("ab", FG, BG));
    assert_eq!(top(&ui).size, Vec2::new(i32::MAX, 1));
    assert!(ui.screen().diff().is_empty());
    assert!(ui.try_label("", FG, BG));
}

#[test]
fn label_edit_draws_a_caret_after_the_text() {
    let fg = Color::Black;
    let bg = Color::White;
    let (mut ui, _) = Ui::new(8, 3);
    ui.begin(Vec2::new(1, 0), LayoutKind::Vert);
    ui.label_edit("ab", fg, bg, true);
    assert_eq!(ui.screen().current().cell_at(1, 0), Some(Cell::new('a', fg, bg)));
    assert_eq!(ui.screen().current().cell_at(2, 0), Some(Cell::new('b', fg, bg)));
    assert_eq!(ui.screen().current().cell_at(3, 0), Some(Cell::new(' ', fg, fg)));
    assert_eq!(ui.screen().current().cell_at(4, 0), Some(Cell::new(' ', bg, bg)));
    assert_eq!(ui.screen().current().cell_at(5, 0), Some(Cell::default()));
    ui.label_edit("cd", fg, bg, false);
    assert_eq!(ui.screen().current().cell_at(2, 1), Some(Cell::new('d', fg, bg)));
    assert_eq!(ui.screen().current().cell_at(3, 1), Some(Cell::new(' ', bg, bg)));
    assert_eq!(ui.screen().current().cell_at(4, 1), Some(Cell::default()));
    // the caret takes no room in the layout
    assert_eq!(top(&ui).size, Vec2::new(2, 2));
    ui.label_edit("", fg, bg, true);
    assert_eq!(ui.screen().current().cell_at(1, 2), Some(Cell::new(' ', fg, fg)));
    assert_eq!(ui.screen().current().cell_at(2, 2), Some(Cell::new(' ', bg, bg)));
}

#[test]
fn label_edit_counts_characters() {
    let (mut ui, _) = Ui::new(8, 1);
    ui.begin(Vec2::null(), LayoutKind::Horz);
    ui.label_edit("e\u{301}", FG, BG, false);
    assert_eq!(top(&ui).size, Vec2::new(2, 1));
    assert_eq!(ui.screen().current().cell_at(2, 0), Some(Cell::new(' ', BG, BG)));
}

#[test]
fn end_returns_the_patches_of_the_frame_and_swaps() {
    let (mut ui, _) = Ui::new(4, 2);
    ui.begin(Vec2::new(1, 1), LayoutKind::Vert);
    ui.label("ab", Color::Red, BG);
    assert_eq!(
        ui.screen().diff(),
        vec![
            Patch { cell: Cell::new('a', Color::Red, BG), x: 1, y: 1 },
            Patch { cell: Cell::new('b', Color::Red, BG), x: 2, y: 1 },
        ]
    );
    let queue = ui.end();
    assert_eq!(
        queue,
        vec![
            Command::SetForegroundColor(Color::White),
            Command::SetBackgroundColor(Color::Black),
            Command::MoveTo { x: 1, y: 1 },
            Command::SetForegroundColor(Color::Red),
            Command::Print('a'),
            Command::Print('b'),
            Command::Flush,
        ]
    );
    assert_eq!(ui.screen().previous().cell_at(1, 1), Some(Cell::new('a', Color::Red, BG)));
    assert_eq!(ui.screen().current().cell_at(1, 1), Some(Cell::default()));
}

#[test]
fn a_frame_that_draws_the_same_again_needs_no_patch() {
    let (mut ui, _) = Ui::new(6, 2);
    let mut frames = Vec::new();
    for _ in 0..4 {
        ui.begin(Vec2::null(), LayoutKind::Vert);
        ui.label("same", FG, BG);
        frames.push(ui.end());
    }
    let idle = vec![
        Command::SetForegroundColor(Color::White),
        Command::SetBackgroundColor(Color::Black),
        Command::Flush,
    ];
    assert_eq!(frames[0].len(), 8);
    // the second frame fills the buffer that was swapped in with the same
    assert_eq!(frames[1], idle);
    assert_eq!(frames[2], idle);
    assert_eq!(frames[3], idle);
}
