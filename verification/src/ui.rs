//! Immediate-mode layout: two-dimensional integer vectors, layout frames and
//! the stack that turns nested groups of widgets into absolute positions.

use crate::cell::{Cell, Color};
use crate::emit::{apply_patches, redraw, update, Command};
use crate::grid::Grid;
use crate::screen_buf::{Screen, VirtualScreen};
use crate::text::{count_graphemes, grapheme_count};
use std::ops::{Add, Mul};
use vstd::prelude::*;
use vstd::std_specs::ops::{AddSpecImpl, MulSpecImpl};

verus! {

/// A position or a size on the integer grid.
#[derive(Clone, Copy, Debug, PartialEq, Eq, Structural)]
pub struct Vec2 {
    pub x: i32,
    pub y: i32,
}

impl Vec2 {
    /// The vector with the components `x` and `y`.
    pub fn new(x: i32, y: i32) -> (v: Self)
        ensures
            v == (Vec2 { x, y }),
    {
        Self { x, y }
    }

    /// The origin, which is also the size of an empty layout.
    pub fn null() -> (v: Self)
        ensures
            v == (Vec2 { x: 0, y: 0 }),
    {
        Self { x: 0, y: 0 }
    }
}

impl Default for Vec2 {
    fn default() -> (v: Self)
        ensures
            v == (Vec2 { x: 0, y: 0 }),
    {
        Self { x: 0, y: 0 }
    }
}

impl AddSpecImpl for Vec2 {
    open spec fn obeys_add_spec() -> bool {
        true
    }

    /// Both component sums are representable.
    open spec fn add_req(self, rhs: Vec2) -> bool {
        &&& i32::MIN <= self.x + rhs.x <= i32::MAX
        &&& i32::MIN <= self.y + rhs.y <= i32::MAX
    }

    open spec fn add_spec(self, rhs: Vec2) -> Vec2 {
        Vec2 { x: (self.x + rhs.x) as i32, y: (self.y + rhs.y) as i32 }
    }
}

impl Add for Vec2 {
    type Output = Vec2;

    /// Componentwise sum.
    fn add(self, rhs: Vec2) -> (sum: Vec2) {
        Vec2 { x: self.x + rhs.x, y: self.y + rhs.y }
    }
}

impl MulSpecImpl for Vec2 {
    open spec fn obeys_mul_spec() -> bool {
        true
    }

    /// Both component products are representable.
    open spec fn mul_req(self, rhs: Vec2) -> bool {
        &&& i32::MIN <= self.x * rhs.x <= i32::MAX
        &&& i32::MIN <= self.y * rhs.y <= i32::MAX
    }

    open spec fn mul_spec(self, rhs: Vec2) -> Vec2 {
        Vec2 { x: (self.x * rhs.x) as i32, y: (self.y * rhs.y) as i32 }
    }
}

impl Mul for Vec2 {
    type Output = Vec2;

    /// Componentwise product.
    fn mul(self, rhs: Vec2) -> (product: Vec2) {
        Vec2 { x: self.x * rhs.x, y: self.y * rhs.y }
    }
}

/// The direction in which a layout places its widgets.
#[derive(Clone, Copy, Debug, PartialEq, Eq, Structural)]
pub enum LayoutKind {
    /// One below the other.
    Vert,
    /// One right of the other.
    Horz,
}

/// An open group of widgets: where it starts and how much room the widgets
/// placed so far take.
#[derive(Clone, Copy, Debug, PartialEq, Eq, Structural)]
pub struct Layout {
    pub kind: LayoutKind,
    pub pos: Vec2,
    pub size: Vec2,
}

impl Layout {
    /// An empty layout at `pos`.
    pub open spec fn spec_new(kind: LayoutKind, pos: Vec2) -> Layout {
        Layout { kind, pos, size: Vec2 { x: 0, y: 0 } }
    }

    /// The column at which the next widget starts: right of the widgets of
    /// a horizontal layout, at the left edge of a vertical one.
    pub open spec fn next_x(self) -> int {
        match self.kind {
            LayoutKind::Horz => self.pos.x + self.size.x,
            LayoutKind::Vert => self.pos.x as int,
        }
    }

    /// The row at which the next widget starts: below the widgets of a
    /// vertical layout, at the top edge of a horizontal one.
    pub open spec fn next_y(self) -> int {
        match self.kind {
            LayoutKind::Horz => self.pos.y as int,
            LayoutKind::Vert => self.pos.y + self.size.y,
        }
    }

    /// The position of the next widget is representable.
    pub open spec fn spec_has_room(&self) -> bool {
        &&& i32::MIN <= self.next_x() <= i32::MAX
        &&& i32::MIN <= self.next_y() <= i32::MAX
    }

    /// The width of the layout once a widget of `size` has been added: the
    /// sum along a horizontal layout, the maximum across a vertical one.
    pub open spec fn grown_x(self, size: Vec2) -> int {
        match self.kind {
            LayoutKind::Horz => self.size.x + size.x,
            LayoutKind::Vert => if self.size.x >= size.x {
                self.size.x as int
            } else {
                size.x as int
            },
        }
    }

    /// The height of the layout once a widget of `size` has been added: the
    /// sum along a vertical layout, the maximum across a horizontal one.
    pub open spec fn grown_y(self, size: Vec2) -> int {
        match self.kind {
            LayoutKind::Horz => if self.size.y >= size.y {
                self.size.y as int
            } else {
                size.y as int
            },
            LayoutKind::Vert => self.size.y + size.y,
        }
    }

    /// The size of the layout with a widget of `size` added is representable.
    pub open spec fn spec_accepts(&self, size: Vec2) -> bool {
        &&& i32::MIN <= self.grown_x(size) <= i32::MAX
        &&& i32::MIN <= self.grown_y(size) <= i32::MAX
    }

    /// The layout with a widget of `size` added.
    pub open spec fn with_widget(self, size: Vec2) -> Layout {
        Layout {
            size: Vec2 { x: self.grown_x(size) as i32, y: self.grown_y(size) as i32 },
            ..self
        }
    }

    /// Adding a widget without negative extent never shrinks a layout.
    pub proof fn lemma_only_grows(self, size: Vec2)
        requires
            self.accepts(size),
            size.x >= 0,
            size.y >= 0,
        ensures
            self.with_widget(size).size.x >= self.size.x,
            self.with_widget(size).size.y >= self.size.y,
            self.with_widget(size).kind == self.kind,
            self.with_widget(size).pos == self.pos,
    {
    }

    /// Whether the position of the next widget is representable.
    #[verifier::when_used_as_spec(spec_has_room)]
    pub fn has_room(&self) -> (fits: bool)
        ensures
            fits == self.spec_has_room(),
    {
        match self.kind {
            LayoutKind::Horz => self.pos.x.checked_add(self.size.x).is_some(),
            LayoutKind::Vert => self.pos.y.checked_add(self.size.y).is_some(),
        }
    }

    /// Whether the size of the layout with a widget of `size` added is
    /// representable.
    #[verifier::when_used_as_spec(spec_accepts)]
    pub fn accepts(&self, size: Vec2) -> (fits: bool)
        ensures
            fits == self.spec_accepts(size),
    {
        match self.kind {
            LayoutKind::Horz => self.size.x.checked_add(size.x).is_some(),
            LayoutKind::Vert => self.size.y.checked_add(size.y).is_some(),
        }
    }

    /// Where the next widget of the layout starts.
    pub fn available_pos(&self) -> (pos: Vec2)
        requires
            self.has_room(),
        ensures
            pos.x == self.next_x(),
            pos.y == self.next_y(),
    {
        match self.kind {
            LayoutKind::Horz => self.pos + self.size * Vec2::new(1, 0),
            LayoutKind::Vert => self.pos + self.size * Vec2::new(0, 1),
        }
    }

    /// Makes room for a widget of `size`: along the layout's direction the
    /// extents add up, across it the larger one counts.
    pub fn add_widget(&mut self, size: Vec2)
        requires
            old(self).accepts(size),
        ensures
            *final(self) == old(self).with_widget(size),
    {
        match self.kind {
            LayoutKind::Horz => {
                self.size.x += size.x;
                self.size.y = if self.size.y >= size.y {
                    self.size.y
                } else {
                    size.y
                };
            },
            LayoutKind::Vert => {
                self.size.x = if self.size.x >= size.x {
                    self.size.x
                } else {
                    size.x
                };
                self.size.y += size.y;
            },
        }
    }
}

/// A text of `n` spaces.
pub open spec fn blanks(n: int) -> Seq<char> {
    Seq::new(
        if n > 0 {
            n as nat
        } else {
            0
        },
        |i: int| ' ',
    )
}

/// The grid with a label drawn at column `x` of row `y`: the text, and
/// after it blank cells in the same colours up to the width of the label. A
/// text longer than the label is drawn in full.
pub open spec fn with_label(
    grid: Grid,
    x: int,
    y: int,
    text: Seq<char>,
    width: int,
    fg: Color,
    bg: Color,
) -> Grid {
    grid.put_cells(x, y, text, fg, bg).put_cells(
        x + text.len(),
        y,
        blanks(width - text.len()),
        fg,
        bg,
    )
}

/// The grid with a caret drawn at column `x` of row `y`: while the text is
/// edited a blank cell in the foreground colour and a blank cell in the
/// background colour after it, otherwise one blank cell in the background
/// colour.
pub open spec fn with_caret(grid: Grid, x: int, y: int, fg: Color, bg: Color, edit: bool) -> Grid {
    if edit {
        grid.put_cell(x, y, Cell::new(' ', fg, fg)).put_cell(x + 1, y, Cell::new(' ', bg, bg))
    } else {
        grid.put_cell(x, y, Cell::new(' ', bg, bg))
    }
}

/// The mathematical model of a user interface: the open layouts, the
/// outermost first, and the screen that widgets are drawn on.
pub struct UiView {
    pub stack: Seq<Layout>,
    pub screen: Screen,
}

impl UiView {
    /// The screen is well formed.
    pub open spec fn wf(self) -> bool {
        self.screen.wf()
    }

    /// The innermost open layout.
    pub open spec fn top(self) -> Layout
        recommends
            self.stack.len() > 0,
    {
        self.stack.last()
    }

    /// The layout around the innermost one.
    pub open spec fn parent(self) -> Layout
        recommends
            self.stack.len() > 1,
    {
        self.stack[self.stack.len() - 2]
    }

    /// No layout is open: a frame can be begun, and none can be ended.
    pub open spec fn can_begin(self) -> bool {
        self.stack.len() == 0
    }

    /// The outermost layout is the only open one: the frame can be ended,
    /// and no other can be begun.
    pub open spec fn can_end(self) -> bool {
        self.stack.len() == 1
    }

    /// A layout is open and the position of its next widget is
    /// representable.
    pub open spec fn can_begin_layout(self) -> bool {
        self.stack.len() > 0 && self.top().has_room()
    }

    /// The innermost layout lies inside another that has room for it.
    pub open spec fn can_end_layout(self) -> bool {
        self.stack.len() >= 2 && self.parent().accepts(self.top().size)
    }

    /// A layout is open, the position of its next widget is representable
    /// and it has room for a widget of `width` columns in one row.
    pub open spec fn can_label(self, width: i32) -> bool {
        &&& self.stack.len() > 0
        &&& self.top().has_room()
        &&& self.top().accepts(Vec2 { x: width, y: 1 })
    }

    /// Where the next widget of the innermost layout goes.
    pub open spec fn next_pos(self) -> Vec2 {
        Vec2 { x: self.top().next_x() as i32, y: self.top().next_y() as i32 }
    }

    /// The interface with `grid` as what has been drawn.
    pub open spec fn drawn(self, grid: Grid) -> UiView {
        UiView { screen: Screen { current: grid, ..self.screen }, ..self }
    }

    /// The interface with room made in the innermost layout for a widget of
    /// `size`.
    pub open spec fn placed(self, size: Vec2) -> UiView {
        UiView {
            stack: self.stack.update(self.stack.len() - 1, self.top().with_widget(size)),
            ..self
        }
    }

    /// The interface with the outermost layout of a frame opened at `pos`.
    pub open spec fn begun(self, pos: Vec2, kind: LayoutKind) -> UiView {
        UiView { stack: seq![Layout::spec_new(kind, pos)], ..self }
    }

    /// The interface with a layout opened inside the innermost one, at the
    /// position of its next widget.
    pub open spec fn nested(self, kind: LayoutKind) -> UiView {
        UiView { stack: self.stack.push(Layout::spec_new(kind, self.next_pos())), ..self }
    }

    /// The interface with the innermost layout closed and room made for it in
    /// the layout around it, as for a widget of its size.
    pub open spec fn closed(self) -> UiView {
        UiView {
            stack: self.stack.take(self.stack.len() - 2).push(
                self.parent().with_widget(self.top().size),
            ),
            ..self
        }
    }

    /// The interface with a label of `width` columns drawn at the position of
    /// the next widget and room made for it: `width` columns in one row.
    pub open spec fn labelled(self, text: Seq<char>, width: i32, fg: Color, bg: Color) -> UiView {
        self.drawn(
            with_label(
                self.screen.current,
                self.top().next_x(),
                self.top().next_y(),
                text,
                width as int,
                fg,
                bg,
            ),
        ).placed(Vec2 { x: width, y: 1 })
    }

    /// The interface with a label as wide as its text has characters, and a
    /// caret after it that takes no room.
    pub open spec fn labelled_for_edit(
        self,
        text: Seq<char>,
        fg: Color,
        bg: Color,
        edit: bool,
    ) -> UiView {
        let labelled = self.labelled(text, text.len() as i32, fg, bg);
        labelled.drawn(
            with_caret(
                labelled.screen.current,
                self.top().next_x() + text.len(),
                self.top().next_y(),
                fg,
                bg,
                edit,
            ),
        )
    }

    /// The interface after the end of a frame: no layout is open and the
    /// buffers of the screen are exchanged.
    pub open spec fn ended(self) -> UiView {
        UiView { stack: Seq::empty(), screen: self.screen.swapped() }
    }

    /// With no layout open no frame can be ended, and while a layout is
    /// open no frame can be begun: until its end, a frame that has been
    /// begun keeps every other from beginning.
    pub proof fn lemma_frames_do_not_overlap(self, pos: Vec2, kind: LayoutKind)
        ensures
            self.can_begin() ==> !self.can_end() && !self.can_end_layout(),
            !self.begun(pos, kind).can_begin(),
            self.stack.len() > 0 ==> !self.can_begin(),
            self.can_begin_layout() ==> !self.nested(kind).can_begin(),
            self.can_end_layout() ==> !self.closed().can_begin(),
            self.stack.len() > 0 ==> !self.placed(pos).can_begin(),
            self.ended().can_begin(),
    {
    }
}

/// Writes `text` into the current buffer of `screen` from column `x` of row
/// `y`; a start left of or above the screen writes nothing.
fn put_text(screen: &mut VirtualScreen, x: i64, y: i64, text: &str, fg: Color, bg: Color)
    requires
        old(screen).wf(),
    ensures
        final(screen).wf(),
        final(screen)@.current == old(screen)@.current.put_cells(x as int, y as int, text@, fg, bg),
        final(screen)@.previous == old(screen)@.previous,
{
    if 0 <= x && x as u64 <= usize::MAX as u64 && 0 <= y && y as u64 <= usize::MAX as u64 {
        screen.put_cells(x as usize, y as usize, text, fg, bg);
    } else {
        proof {
            let grid = screen@.current;
            screen.lemma_view_fits();
            assert(grid.put_cells(x as int, y as int, text@, fg, bg).cells =~= grid.cells);
        }
    }
}

/// Overwrites the cell of the current buffer of `screen` at column `x` of
/// row `y`; a coordinate left of or above the screen writes nothing.
fn put_glyph(screen: &mut VirtualScreen, x: i64, y: i64, ch: char, fg: Color, bg: Color)
    requires
        old(screen).wf(),
    ensures
        final(screen).wf(),
        final(screen)@.current == old(screen)@.current.put_cell(
            x as int,
            y as int,
            Cell::new(ch, fg, bg),
        ),
        final(screen)@.previous == old(screen)@.previous,
{
    if 0 <= x && x as u64 <= usize::MAX as u64 && 0 <= y && y as u64 <= usize::MAX as u64 {
        screen.put_cell(x as usize, y as usize, ch, fg, bg);
    } else {
        proof {
            screen.lemma_view_fits();
        }
    }
}

/// A string of `n` spaces.
pub(crate) fn spaces(n: usize) -> (fill: String)
    ensures
        fill@ == blanks(n as int),
{
    let mut fill = String::new();
    let mut k: usize = 0;
    proof {
        reveal_strlit(" ");
    }
    while k < n
        invariant
            k <= n,
            fill@ == blanks(k as int),
            " "@ == seq![' '],
        decreases n - k,
    {
        fill.append(" ");
        k += 1;
        assert(fill@ =~= blanks(k as int));
    }
    fill
}

/// Writes `n` spaces into the current buffer of `screen` from column `x` of
/// row `y`. No more spaces are made than the row has room for.
fn put_blanks(screen: &mut VirtualScreen, x: i64, y: i64, n: usize, fg: Color, bg: Color)
    requires
        old(screen).wf(),
    ensures
        final(screen).wf(),
        final(screen)@.current == old(screen)@.current.put_cells(
            x as int,
            y as int,
            blanks(n as int),
            fg,
            bg,
        ),
        final(screen)@.previous == old(screen)@.previous,
{
    let width = screen.current().width();
    let room = if 0 <= x && (x as u64) < width as u64 {
        width - x as usize
    } else {
        0
    };
    let count = if n < room {
        n
    } else {
        room
    };
    let fill = spaces(count);
    put_text(screen, x, y, fill.as_str(), fg, bg);
    proof {
        let grid = old(screen)@.current;
        assert(grid.put_cells(x as int, y as int, blanks(count as int), fg, bg).cells
            =~= grid.put_cells(x as int, y as int, blanks(n as int), fg, bg).cells);
    }
}

/// The stack of open layouts together with the screen that widgets are
/// drawn on.
#[derive(Debug)]
pub struct Ui {
    layouts: Vec<Layout>,
    screen: VirtualScreen,
}

impl View for Ui {
    type V = UiView;

    closed spec fn view(&self) -> UiView {
        UiView { stack: self.layouts@, screen: self.screen@ }
    }
}

impl Ui {
    /// The buffers of the screen hold one cell for each coordinate and have
    /// the same dimensions.
    pub open spec fn wf(&self) -> bool {
        self@.wf()
    }

    /// A user interface on a blank screen of `width` by `height` cells,
    /// with the commands that draw this screen on the terminal.
    pub fn new(width: usize, height: usize) -> (made: (Self, Vec<Command>))
        requires
            width * height <= usize::MAX,
        ensures
            made.0.wf(),
            made.0@.stack == Seq::<Layout>::empty(),
            made.0@.screen.current == Grid::blank(width as nat, height as nat),
            made.0@.screen.previous == Grid::blank(width as nat, height as nat),
            made.1@ == redraw(Grid::blank(width as nat, height as nat)),
    {
        let ui = Self { screen: VirtualScreen::new(width, height), layouts: Vec::new() };
        let queue = ui.screen.flush();
        (ui, queue)
    }

    /// Follows a change of the terminal's size: both buffers get the new
    /// dimensions and are blanked. Returns the commands that draw the blank
    /// screen. The open layouts stay as they are.
    pub fn resize(&mut self, width: usize, height: usize) -> (queue: Vec<Command>)
        requires
            width * height <= usize::MAX,
        ensures
            final(self).wf(),
            final(self)@.stack == old(self)@.stack,
            final(self)@.screen.current == Grid::blank(width as nat, height as nat),
            final(self)@.screen.previous == Grid::blank(width as nat, height as nat),
            queue@ == redraw(Grid::blank(width as nat, height as nat)),
    {
        self.screen.resize(width, height);
        self.screen.flush()
    }

    /// The number of open layouts.
    pub fn depth(&self) -> (depth: usize)
        ensures
            depth == self@.stack.len(),
    {
        self.layouts.len()
    }

    /// The innermost open layout, if there is one.
    pub fn current_layout(&self) -> (layout: Option<Layout>)
        ensures
            layout == if self@.stack.len() > 0 {
                Some(self@.top())
            } else {
                None
            },
    {
        let n = self.layouts.len();
        if n > 0 {
            Some(self.layouts[n - 1])
        } else {
            None
        }
    }

    /// The screen that widgets are drawn on.
    pub fn screen(&self) -> (screen: &VirtualScreen)
        ensures
            screen@ == self@.screen,
    {
        &self.screen
    }

    /// Whether a frame can be begun: no layout is open.
    pub fn can_begin(&self) -> (allowed: bool)
        ensures
            allowed == self@.can_begin(),
    {
        self.layouts.len() == 0
    }

    /// Whether the frame can be ended: its outermost layout is the only open
    /// one.
    pub fn can_end(&self) -> (allowed: bool)
        ensures
            allowed == self@.can_end(),
    {
        self.layouts.len() == 1
    }

    /// Whether a layout can be opened inside the innermost one.
    pub fn can_begin_layout(&self) -> (allowed: bool)
        ensures
            allowed == self@.can_begin_layout(),
    {
        let n = self.layouts.len();
        n > 0 && self.layouts[n - 1].has_room()
    }

    /// Whether the innermost layout can be closed: it lies inside another that
    /// has room for it.
    pub fn can_end_layout(&self) -> (allowed: bool)
        ensures
            allowed == self@.can_end_layout(),
    {
        let n = self.layouts.len();
        n >= 2 && self.layouts[n - 2].accepts(self.layouts[n - 1].size)
    }

    /// Whether a label of `width` columns can be drawn: a layout is open and
    /// has room for it.
    pub fn can_label(&self, width: i32) -> (allowed: bool)
        ensures
            allowed == self@.can_label(width),
    {
        let n = self.layouts.len();
        n > 0 && self.layouts[n - 1].has_room() && self.layouts[n - 1].accepts(Vec2::new(width, 1))
    }

    /// Opens the outermost layout of a frame at `pos`. No layout may be
    /// open.
    pub fn begin(&mut self, pos: Vec2, kind: LayoutKind)
        requires
            old(self)@.can_begin(),
        ensures
            final(self)@ == old(self)@.begun(pos, kind),
    {
        self.layouts.push(Layout { kind, pos, size: Vec2::null() });
        assert(self.layouts@ =~= seq![Layout::spec_new(kind, pos)]);
    }

    /// Opens a layout inside the innermost open one, at the position of its
    /// next widget.
    pub fn begin_layout(&mut self, kind: LayoutKind)
        requires
            old(self)@.can_begin_layout(),
        ensures
            final(self)@ == old(self)@.nested(kind),
    {
        let n = self.layouts.len();
        let pos = self.layouts[n - 1].available_pos();
        self.layouts.push(Layout { kind, pos, size: Vec2::null() });
    }

    /// Closes the innermost layout and makes room for it in the layout
    /// around it, as for a widget of its size.
    pub fn end_layout(&mut self)
        requires
            old(self)@.can_end_layout(),
        ensures
            final(self)@ == old(self)@.closed(),
    {
        let n = self.layouts.len();
        let closed = self.layouts[n - 1];
        let mut parent = self.layouts[n - 2];
        parent.add_widget(closed.size);
        self.layouts.pop();
        self.layouts.set(n - 2, parent);
        assert(self.layouts@ =~= old(self).layouts@.take(n - 2).push(parent));
    }

    /// Draws a label of `width` columns at the position of the next widget
    /// of the innermost layout and makes room for it there: one row high and
    /// `width` columns wide. The text is followed by blank cells in the same
    /// colours up to the width of the label; a text longer than the label is
    /// drawn in full. Returns the position of the label.
    pub fn label_fixed_width(&mut self, text: &str, width: i32, fg: Color, bg: Color) -> (pos: Vec2)
        requires
            old(self).wf(),
            old(self)@.can_label(width),
        ensures
            final(self).wf(),
            pos == old(self)@.next_pos(),
            final(self)@ == old(self)@.labelled(text@, width, fg, bg),
    {
        let n = self.layouts.len();
        let mut layout = self.layouts[n - 1];
        let pos = layout.available_pos();
        put_text(&mut self.screen, pos.x as i64, pos.y as i64, text, fg, bg);
        let len = text.unicode_len();
        if width > 0 && len < width as usize {
            put_blanks(
                &mut self.screen,
                pos.x as i64 + len as i64,
                pos.y as i64,
                width as usize - len,
                fg,
                bg,
            );
        } else {
            proof {
                let grid = self.screen@.current;
                assert(blanks(width - text@.len()) =~= Seq::<char>::empty());
                assert(grid.put_cells(
                    pos.x + text@.len(),
                    pos.y as int,
                    Seq::<char>::empty(),
                    fg,
                    bg,
                ).cells =~= grid.cells);
            }
        }
        layout.add_widget(Vec2::new(width, 1));
        self.layouts.set(n - 1, layout);
        pos
    }

    /// Draws a label that is as wide as its text has grapheme clusters.
    pub fn label(&mut self, text: &str, fg: Color, bg: Color)
        requires
            old(self).wf(),
            grapheme_count(text@) <= i32::MAX,
            old(self)@.can_label(grapheme_count(text@) as i32),
        ensures
            final(self).wf(),
            final(self)@ == old(self)@.labelled(text@, grapheme_count(text@) as i32, fg, bg),
    {
        let width = count_graphemes(text);
        self.label_fixed_width(text, width as i32, fg, bg);
    }

    /// Draws a label as `label` does wherever the innermost layout has room
    /// for it, and says whether it did. Where it has none, nothing changes.
    pub fn try_label(&mut self, text: &str, fg: Color, bg: Color) -> (drawn: bool)
        requires
            old(self).wf(),
            old(self)@.can_begin_layout(),
        ensures
            final(self).wf(),
            drawn == (grapheme_count(text@) <= i32::MAX && old(self)@.can_label(
                grapheme_count(text@) as i32,
            )),
            final(self)@ == if drawn {
                old(self)@.labelled(text@, grapheme_count(text@) as i32, fg, bg)
            } else {
                old(self)@
            },
    {
        let width = count_graphemes(text);
        if width > i32::MAX as usize || !self.can_label(width as i32) {
            return false;
        }
        self.label(text, fg, bg);
        true
    }

    /// Draws a label that is as wide as its text has characters, followed by
    /// a caret: while the text is edited, a cell in the foreground colour and
    /// a cell in the background colour after it; otherwise a single cell in
    /// the background colour.
    pub fn label_edit(&mut self, text: &str, fg: Color, bg: Color, edit: bool)
        requires
            old(self).wf(),
            text@.len() <= i32::MAX,
            old(self)@.can_label(text@.len() as i32),
        ensures
            final(self).wf(),
            final(self)@ == old(self)@.labelled_for_edit(text@, fg, bg, edit),
    {
        let len = text.unicode_len();
        let pos = self.label_fixed_width(text, len as i32, fg, bg);
        let x = pos.x as i64 + len as i64;
        if edit {
            put_glyph(&mut self.screen, x, pos.y as i64, ' ', fg, fg);
            put_glyph(&mut self.screen, x + 1, pos.y as i64, ' ', bg, bg);
        } else {
            put_glyph(&mut self.screen, x, pos.y as i64, ' ', bg, bg);
        }
    }

    /// Writes a text straight onto the screen, past the layouts.
    pub fn put_cells(&mut self, x: usize, y: usize, chs: &str, fg: Color, bg: Color)
        requires
            old(self).wf(),
        ensures
            final(self).wf(),
            final(self)@ == old(self)@.drawn(
                old(self)@.screen.current.put_cells(x as int, y as int, chs@, fg, bg),
            ),
    {
        self.screen.put_cells(x, y, chs, fg, bg);
    }

    /// Closes the outermost layout and with it the frame: returns the
    /// commands that bring the terminal up to date with what was drawn,
    /// then a flush, and exchanges the buffers of the screen.
    pub fn end(&mut self) -> (queue: Vec<Command>)
        requires
            old(self).wf(),
            old(self)@.can_end(),
        ensures
            final(self).wf(),
            final(self)@ == old(self)@.ended(),
            queue@ == update(old(self)@.screen.diff()).push(Command::Flush),
    {
        self.layouts.pop();
        let patches = self.screen.diff();
        let mut queue = apply_patches(patches.as_slice());
        self.screen.swap();
        queue.push(Command::Flush);
        assert(self.layouts@ =~= Seq::<Layout>::empty());
        queue
    }
}

impl Default for Ui {
    /// A user interface on a screen without cells.
    fn default() -> (ui: Self)
        ensures
            ui.wf(),
            ui@.stack == Seq::<Layout>::empty(),
            ui@.screen.current == Grid::blank(0, 0),
            ui@.screen.previous == Grid::blank(0, 0),
    {
        Ui { layouts: Vec::new(), screen: VirtualScreen::new(0, 0) }
    }
}

} // verus!
