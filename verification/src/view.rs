//! How the board looks on screen: the two lists side by side, each under
//! its title, and a status line.

use crate::cell::Color;
use crate::emit::{update, Command};
use crate::text::{count_graphemes, grapheme_count};
use crate::todo::{App, Board, Status};
use crate::ui::{blanks, LayoutKind, Ui, UiView, Vec2};
use vstd::prelude::*;
use vstd::string::StringExecFns;

verus! {

impl Board {
    /// Whether the item at `index` of the list of `status` is the selected
    /// one: the item under the cursor of the active list, while the editor
    /// is off.
    pub open spec fn selected(self, status: Status, index: int) -> bool {
        index == self.active_list().cursor && self.active == status && !self.edit_mode
    }

    /// The width of a column that shows the first `n` items of the list of
    /// `status` under a title of `least` columns: that of its widest label.
    pub open spec fn column_width(self, status: Status, mark: Seq<char>, least: int, n: nat) -> int
        decreases n,
    {
        if n == 0 {
            least
        } else {
            let above = self.column_width(status, mark, least, (n - 1) as nat);
            let wide = grapheme_count(line_of(mark, self.list(status).texts[n - 1]));
            if above >= wide {
                above
            } else {
                wide as int
            }
        }
    }

    /// The width of the column that shows the whole list of `status`.
    pub open spec fn list_width(self, status: Status, mark: Seq<char>, least: int) -> int {
        self.column_width(status, mark, least, self.list(status).texts.len())
    }

    /// The board can be drawn in a frame of `width` columns: the height of
    /// each column and the width of both columns together are representable
    /// sizes.
    pub open spec fn drawable(self, width: u16) -> bool {
        let half = (width / 2) as int;
        &&& self.todo.texts.len() + 1 <= i32::MAX
        &&& self.done.texts.len() + 1 <= i32::MAX
        &&& self.list_width(Status::Todo, "[ ]"@, half) + self.list_width(
            Status::Done,
            "[x]"@,
            half,
        ) <= i32::MAX
    }

    /// A column is at least as wide as its title, and no narrower with more
    /// items than with fewer.
    proof fn lemma_column_width(
        self,
        status: Status,
        mark: Seq<char>,
        least: int,
        m: nat,
        n: nat,
    )
        requires
            m <= n,
        ensures
            least <= self.column_width(status, mark, least, m),
            self.column_width(status, mark, least, m) <= self.column_width(status, mark, least, n),
        decreases n,
    {
        if m < n {
            self.lemma_column_width(status, mark, least, m, (n - 1) as nat);
        } else if n > 0 {
            self.lemma_column_width(status, mark, least, (n - 1) as nat, (n - 1) as nat);
        }
    }

    /// The status line, `width` columns wide or as wide as it needs to be:
    /// whether the editor is on, and which list is active.
    pub open spec fn prompt(self, width: int) -> Seq<char> {
        let mode = if self.edit_mode {
            "Edit"@
        } else {
            "View"@
        };
        let list = match self.active {
            Status::Todo => "Todo"@,
            Status::Done => "Done"@,
        };
        let said = mode + ": "@ + list;
        said + blanks(width - said.len())
    }
}

/// The colours of an item, foreground first: black on white for the
/// selected one, white on black for every other.
pub open spec fn colors_of(selected: bool) -> (Color, Color) {
    if selected {
        (Color::Black, Color::White)
    } else {
        (Color::White, Color::Black)
    }
}

/// The line that shows an item: its mark, a space and its text.
pub open spec fn line_of(mark: Seq<char>, text: Seq<char>) -> Seq<char> {
    mark + " "@ + text
}

impl UiView {
    /// The interface with the first `n` items of a list drawn as labels,
    /// one below the other.
    pub open spec fn with_items(
        self,
        board: Board,
        status: Status,
        mark: Seq<char>,
        n: nat,
    ) -> UiView
        decreases n,
    {
        if n == 0 {
            self
        } else {
            let line = line_of(mark, board.list(status).texts[n - 1]);
            let colors = colors_of(board.selected(status, n - 1));
            self.with_items(board, status, mark, (n - 1) as nat).labelled(
                line,
                grapheme_count(line) as i32,
                colors.0,
                colors.1,
            )
        }
    }

    /// The interface with a list drawn as a column of its own: the title
    /// in cyan on black, `width` columns wide, and the items below it.
    pub open spec fn with_list(
        self,
        board: Board,
        status: Status,
        title: Seq<char>,
        mark: Seq<char>,
        width: i32,
    ) -> UiView {
        self.nested(LayoutKind::Vert).labelled(title, width, Color::Cyan, Color::Black).with_items(
            board,
            status,
            mark,
            board.list(status).texts.len(),
        ).closed()
    }

    /// The interface with the board drawn and the outermost layout still
    /// open: the open items on the left and the done ones on the right,
    /// each column at least half of `width` columns wide, and the status
    /// line in black on white in row `height`.
    pub open spec fn with_board(self, board: Board, width: u16, height: u16) -> UiView {
        let half = (width / 2) as i32;
        let lists = self.begun(Vec2 { x: 0, y: 0 }, LayoutKind::Vert).nested(
            LayoutKind::Horz,
        ).with_list(board, Status::Todo, "TODO"@, "[ ]"@, half).with_list(
            board,
            Status::Done,
            "DONE"@,
            "[x]"@,
            half,
        ).closed();
        lists.drawn(
            lists.screen.current.put_cells(
                0,
                height as int,
                board.prompt(width as int),
                Color::Black,
                Color::White,
            ),
        )
    }
}

/// The colours of the item at `index` of the list of `status`.
pub fn item_colors(app: &App, status: Status, index: usize) -> (colors: (Color, Color))
    ensures
        colors == colors_of(app@.selected(status, index as int)),
{
    if index == app.active_cursor() && app.active_status() == status && !app.edit_mode() {
        (Color::Black, Color::White)
    } else {
        (Color::White, Color::Black)
    }
}

/// The line that shows an item.
pub fn item_line(mark: &str, text: &str) -> (line: String)
    ensures
        line@ == line_of(mark@, text@),
{
    let mut line = String::from_str(mark);
    line.append(" ");
    line.append(text);
    line
}

/// The status line.
pub fn prompt(app: &App, width: usize) -> (line: String)
    ensures
        line@ == app@.prompt(width as int),
{
    let mut line = String::from_str(
        if app.edit_mode() {
            "Edit"
        } else {
            "View"
        },
    );
    line.append(": ");
    line.append(
        match app.active_status() {
            Status::Todo => "Todo",
            Status::Done => "Done",
        },
    );
    let said = line.as_str().unicode_len();
    if said < width {
        let pad = crate::ui::spaces(width - said);
        line.append(pad.as_str());
    } else {
        assert(line@ + blanks(width - said) =~= line@);
    }
    line
}

/// The width of the column that shows the list of `status` under a title of
/// `least` columns, or `None` if it is more than a size can say.
fn column_width(app: &App, status: Status, mark: &str, least: u16) -> (wide: Option<i32>)
    ensures
        wide == if app@.list_width(status, mark@, least as int) <= i32::MAX {
            Some(app@.list_width(status, mark@, least as int) as i32)
        } else {
            None
        },
{
    let list = app.list(status);
    let mut wide: i32 = least as i32;
    let mut index: usize = 0;
    while index < list.len()
        invariant
            list@ == app@.list(status),
            index <= list@.texts.len(),
            wide == app@.column_width(status, mark@, least as int, index as nat),
        decreases list@.texts.len() - index,
    {
        let line = item_line(mark, list.item(index));
        let label = count_graphemes(line.as_str());
        if label > i32::MAX as usize {
            proof {
                app@.lemma_column_width(
                    status,
                    mark@,
                    least as int,
                    (index + 1) as nat,
                    list@.texts.len(),
                );
            }
            return None;
        }
        if label as i32 > wide {
            wide = label as i32;
        }
        index += 1;
    }
    Some(wide)
}

/// Whether the board of `app` can be drawn in a frame of `width` columns.
pub fn drawable(app: &App, width: u16) -> (fitting: bool)
    ensures
        fitting == app@.drawable(width),
{
    proof {
        reveal_strlit("[ ]");
        reveal_strlit("[x]");
        app@.lemma_column_width(Status::Todo, "[ ]"@, (width / 2) as int, 0, app@.todo.texts.len());
        app@.lemma_column_width(Status::Done, "[x]"@, (width / 2) as int, 0, app@.done.texts.len());
    }
    let most = i32::MAX as usize;
    if app.list(Status::Todo).len() >= most || app.list(Status::Done).len() >= most {
        return false;
    }
    match column_width(app, Status::Todo, "[ ]", width / 2) {
        Some(todo) => match column_width(app, Status::Done, "[x]", width / 2) {
            Some(done) => todo.checked_add(done).is_some(),
            None => false,
        },
        None => false,
    }
}

/// Draws the list of `status` as a column of its own inside the innermost
/// layout, which is a horizontal one with room for the column.
fn draw_list(ui: &mut Ui, app: &App, status: Status, title: &str, mark: &str, least: u16)
    requires
        old(ui).wf(),
        old(ui)@.stack.len() > 0,
        old(ui)@.top().kind == LayoutKind::Horz,
        old(ui)@.top().pos == (Vec2 { x: 0, y: 0 }),
        0 <= old(ui)@.top().size.x,
        app@.list(status).texts.len() + 1 <= i32::MAX,
        old(ui)@.top().size.x + app@.list_width(status, mark@, least as int) <= i32::MAX,
    ensures
        final(ui).wf(),
        final(ui)@ == old(ui)@.with_list(app@, status, title@, mark@, least as i32),
        final(ui)@.stack.len() == old(ui)@.stack.len(),
        final(ui)@.stack.drop_last() == old(ui)@.stack.drop_last(),
        final(ui)@.top().kind == LayoutKind::Horz,
        final(ui)@.top().pos == old(ui)@.top().pos,
        final(ui)@.top().size.x == old(ui)@.top().size.x + app@.list_width(
            status,
            mark@,
            least as int,
        ),
        0 <= final(ui)@.top().size.y <= i32::MAX,
{
    let list = app.list(status);
    ui.begin_layout(LayoutKind::Vert);
    ui.label_fixed_width(title, least as i32, Color::Cyan, Color::Black);
    let ghost start = ui@;
    let ghost column = ui@.top().pos;
    let ghost full = app@.list_width(status, mark@, least as int);
    let mut index: usize = 0;
    while index < list.len()
        invariant
            ui.wf(),
            list@ == app@.list(status),
            list@.texts.len() + 1 <= i32::MAX,
            full == app@.list_width(status, mark@, least as int),
            0 <= full <= i32::MAX,
            index <= list@.texts.len(),
            ui@ == start.with_items(app@, status, mark@, index as nat),
            ui@.stack.len() == old(ui)@.stack.len() + 1,
            ui@.stack.drop_last() == old(ui)@.stack,
            ui@.top().kind == LayoutKind::Vert,
            ui@.top().pos == column,
            column.y == 0,
            ui@.top().size.x == app@.column_width(status, mark@, least as int, index as nat),
            ui@.top().size.y == index + 1,
        decreases list@.texts.len() - index,
    {
        let colors = item_colors(app, status, index);
        let line = item_line(mark, list.item(index));
        let wide = count_graphemes(line.as_str());
        proof {
            app@.lemma_column_width(
                status,
                mark@,
                least as int,
                (index + 1) as nat,
                list@.texts.len(),
            );
            app@.lemma_column_width(status, mark@, least as int, 0, index as nat);
        }
        let ghost before = ui@;
        ui.label_fixed_width(line.as_str(), wide as i32, colors.0, colors.1);
        index += 1;
        assert(ui@.stack.drop_last() =~= before.stack.drop_last());
    }
    ui.end_layout();
    assert(ui@.stack.drop_last() =~= old(ui)@.stack.drop_last());
}

/// Draws the board as one frame: the open items on the left and the done
/// ones on the right, each column under its title and at least half of
/// `width` columns wide, and the status line in row `height`. Returns the
/// commands that bring the terminal up to date.
pub fn draw_frame(app: &App, ui: &mut Ui, width: u16, height: u16) -> (queue: Vec<Command>)
    requires
        old(ui).wf(),
        old(ui)@.can_begin(),
        app@.drawable(width),
    ensures
        final(ui).wf(),
        final(ui)@ == old(ui)@.with_board(app@, width, height).ended(),
        queue@ == update(old(ui)@.with_board(app@, width, height).screen.diff()).push(
            Command::Flush,
        ),
{
    proof {
        reveal_strlit("[ ]");
        reveal_strlit("[x]");
        app@.lemma_column_width(Status::Todo, "[ ]"@, (width / 2) as int, 0, app@.todo.texts.len());
        app@.lemma_column_width(Status::Done, "[x]"@, (width / 2) as int, 0, app@.done.texts.len());
    }
    ui.begin(Vec2::null(), LayoutKind::Vert);
    ui.begin_layout(LayoutKind::Horz);
    let ghost outer = ui@.stack.drop_last();
    draw_list(ui, app, Status::Todo, "TODO", "[ ]", width / 2);
    draw_list(ui, app, Status::Done, "DONE", "[x]", width / 2);
    assert(ui@.parent() == outer[0]);
    ui.end_layout();
    let line = prompt(app, width as usize);
    ui.put_cells(0, height as usize, line.as_str(), Color::Black, Color::White);
    ui.end()
}

/// Draws the board as `draw_frame` does if it can be drawn, and returns
/// the commands; otherwise nothing changes.
pub fn try_draw_frame(
    app: &App,
    ui: &mut Ui,
    width: u16,
    height: u16,
) -> (queue: Option<Vec<Command>>)
    requires
        old(ui).wf(),
        old(ui)@.can_begin(),
    ensures
        final(ui).wf(),
        match queue {
            Some(queue) => {
                &&& app@.drawable(width)
                &&& final(ui)@ == old(ui)@.with_board(app@, width, height).ended()
                &&& queue@ == update(
                    old(ui)@.with_board(app@, width, height).screen.diff(),
                ).push(Command::Flush)
            },
            None => !app@.drawable(width) && final(ui)@ == old(ui)@,
        },
{
    if drawable(app, width) {
        Some(draw_frame(app, ui, width, height))
    } else {
        None
    }
}

} // verus!
