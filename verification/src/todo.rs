//! The two lists of a to-do board, the cursor in each of them and the line
//! editor for the item under the cursor.

use crate::text::{
    count_graphemes, grapheme_count, pop_char, push_char, strip_prefix, trim, trim_end, trimmed,
    trimmed_end, without_last,
};
use std::ops::{BitXor, BitXorAssign};
use vstd::prelude::*;
use vstd::std_specs::ops::BitXorSpecImpl;
use vstd::string::StringExecFns;
use vstd::utf8::encode_utf8;

verus! {

/// Which of the two lists an item is on.
#[derive(Clone, Copy, Debug, PartialEq, Eq, Structural)]
pub enum Status {
    Todo,
    Done,
}

impl Status {
    /// The other list.
    pub open spec fn other(self) -> Status {
        match self {
            Status::Todo => Status::Done,
            Status::Done => Status::Todo,
        }
    }
}

impl Default for Status {
    fn default() -> (status: Self)
        ensures
            status == Status::Todo,
    {
        Status::Todo
    }
}

impl BitXorSpecImpl<usize> for Status {
    open spec fn obeys_bitxor_spec() -> bool {
        true
    }

    open spec fn bitxor_req(self, rhs: usize) -> bool {
        true
    }

    open spec fn bitxor_spec(self, rhs: usize) -> Status {
        self.other()
    }
}

impl BitXor<usize> for Status {
    type Output = Status;

    /// The other list, whatever the right operand is.
    fn bitxor(self, rhs: usize) -> (flipped: Status) {
        match self {
            Status::Todo => Status::Done,
            Status::Done => Status::Todo,
        }
    }
}

impl BitXorAssign<usize> for Status {
    /// Makes it the other list, whatever the right operand is.
    fn bitxor_assign(&mut self, rhs: usize)
        ensures
            *final(self) == old(self).other(),
    {
        *self = match *self {
            Status::Todo => Status::Done,
            Status::Done => Status::Todo,
        };
    }
}

/// The mathematical model of an item list: the texts of its items and the
/// index under the cursor.
pub struct Items {
    pub texts: Seq<Seq<char>>,
    pub cursor: nat,
}

impl Items {
    /// The cursor is on an item, or at the top of an empty list.
    pub open spec fn wf(self) -> bool {
        self.cursor == 0 || self.cursor < self.texts.len()
    }

    /// The list with the item under the cursor and the one above it
    /// exchanged, the cursor following its item.
    pub open spec fn dragged_up(self) -> Items {
        let at = self.cursor as int;
        if at > 0 {
            Items {
                texts: self.texts.update(at, self.texts[at - 1]).update(at - 1, self.texts[at]),
                cursor: (at - 1) as nat,
            }
        } else {
            self
        }
    }

    /// The list with the item under the cursor and the one below it
    /// exchanged, the cursor following its item.
    pub open spec fn dragged_down(self) -> Items {
        let at = self.cursor as int;
        if at + 1 < self.texts.len() {
            Items {
                texts: self.texts.update(at, self.texts[at + 1]).update(at + 1, self.texts[at]),
                cursor: (at + 1) as nat,
            }
        } else {
            self
        }
    }

    /// The list with the cursor one item up, unless it is at the top.
    pub open spec fn moved_up(self) -> Items {
        Items {
            cursor: if self.cursor > 0 {
                (self.cursor - 1) as nat
            } else {
                0
            },
            ..self
        }
    }

    /// The list with the cursor one item down, unless it is on the last
    /// item.
    pub open spec fn moved_down(self) -> Items {
        Items {
            cursor: if self.cursor + 1 < self.texts.len() {
                self.cursor + 1
            } else {
                self.cursor
            },
            ..self
        }
    }

    /// The list with the cursor on the last item, if there is one.
    pub open spec fn at_bottom(self) -> Items {
        Items {
            cursor: if self.texts.len() > 0 {
                (self.texts.len() - 1) as nat
            } else {
                self.cursor
            },
            ..self
        }
    }

    /// The list with an empty item under the cursor; the items from there on
    /// have moved down.
    pub open spec fn with_empty(self) -> Items {
        Items { texts: self.texts.insert(self.cursor as int, Seq::<char>::empty()), ..self }
    }

    /// The list without the item under the cursor; the cursor stays where it
    /// is unless it was on the last item, from where it moves up.
    pub open spec fn without_current(self) -> Items {
        if self.cursor < self.texts.len() {
            let texts = self.texts.remove(self.cursor as int);
            Items {
                texts,
                cursor: if self.cursor >= texts.len() && texts.len() > 0 {
                    (self.cursor - 1) as nat
                } else {
                    self.cursor
                },
            }
        } else {
            self
        }
    }
}

/// The texts of a sequence of strings.
pub open spec fn texts_of(items: Seq<String>) -> Seq<Seq<char>> {
    items.map_values(|item: String| item@)
}

/// A list of items with a cursor.
#[derive(Debug)]
pub struct ItemList {
    items: Vec<String>,
    cursor: usize,
}

impl View for ItemList {
    type V = Items;

    closed spec fn view(&self) -> Items {
        Items { texts: texts_of(self.items@), cursor: self.cursor as nat }
    }
}

impl ItemList {
    /// The cursor is on an item, or at the top of an empty list.
    pub open spec fn wf(&self) -> bool {
        self@.wf()
    }

    /// The empty list.
    pub fn new() -> (list: Self)
        ensures
            list.wf(),
            list@.texts == Seq::<Seq<char>>::empty(),
            list@.cursor == 0,
    {
        let list = Self { items: Vec::new(), cursor: 0 };
        assert(list@.texts =~= Seq::<Seq<char>>::empty());
        list
    }

    /// The index under the cursor.
    pub fn cursor(&self) -> (cursor: usize)
        ensures
            cursor == self@.cursor,
    {
        self.cursor
    }

    /// The number of items.
    pub fn len(&self) -> (len: usize)
        ensures
            len == self@.texts.len(),
    {
        self.items.len()
    }

    /// The text of the item at `index`.
    pub fn item(&self, index: usize) -> (text: &str)
        requires
            index < self@.texts.len(),
        ensures
            text@ == self@.texts[index as int],
    {
        self.items[index].as_str()
    }

    /// Appends an item.
    pub fn push(&mut self, item: String)
        requires
            old(self).wf(),
        ensures
            final(self).wf(),
            final(self)@.texts == old(self)@.texts.push(item@),
            final(self)@.cursor == old(self)@.cursor,
    {
        self.items.push(item);
        assert(self@.texts =~= old(self)@.texts.push(item@));
    }

    /// Moves the item under the cursor one place up, and the cursor with
    /// it.
    pub fn list_drag_up(&mut self)
        requires
            old(self).wf(),
        ensures
            final(self).wf(),
            final(self)@ == old(self)@.dragged_up(),
    {
        if self.cursor > 0 {
            let item = self.items.remove(self.cursor);
            self.items.insert(self.cursor - 1, item);
            self.cursor -= 1;
            assert(self@.texts =~= old(self)@.dragged_up().texts);
        }
    }

    /// Moves the item under the cursor one place down, and the cursor with
    /// it.
    pub fn list_drag_down(&mut self)
        requires
            old(self).wf(),
        ensures
            final(self).wf(),
            final(self)@ == old(self)@.dragged_down(),
    {
        if self.cursor < self.items.len() && self.cursor + 1 < self.items.len() {
            let item = self.items.remove(self.cursor);
            self.items.insert(self.cursor + 1, item);
            self.cursor += 1;
            assert(self@.texts =~= old(self)@.dragged_down().texts);
        }
    }

    /// Moves the cursor one item up, unless it is at the top.
    pub fn cursor_up(&mut self)
        requires
            old(self).wf(),
        ensures
            final(self).wf(),
            final(self)@ == old(self)@.moved_up(),
    {
        if self.cursor > 0 {
            self.cursor -= 1
        }
    }

    /// Moves the cursor one item down, unless it is on the last item.
    pub fn cursor_down(&mut self)
        requires
            old(self).wf(),
        ensures
            final(self).wf(),
            final(self)@ == old(self)@.moved_down(),
    {
        if self.cursor < self.items.len() && self.cursor + 1 < self.items.len() {
            self.cursor += 1;
        }
    }

    /// Moves the cursor to the first item.
    pub fn cursor_to_top(&mut self)
        ensures
            final(self).wf(),
            final(self)@.texts == old(self)@.texts,
            final(self)@.cursor == 0,
    {
        self.cursor = 0;
    }

    /// Moves the cursor to the last item, if there is one.
    pub fn cursor_to_bottom(&mut self)
        requires
            old(self).wf(),
        ensures
            final(self).wf(),
            final(self)@ == old(self)@.at_bottom(),
    {
        if !self.items.is_empty() {
            self.cursor = self.items.len() - 1;
        }
    }
}

impl ItemList {
    /// The cursor is on an item.
    pub open spec fn spec_has_current(&self) -> bool {
        self@.cursor < self@.texts.len()
    }

    /// Whether the cursor is on an item.
    #[verifier::when_used_as_spec(spec_has_current)]
    pub fn has_current(&self) -> (on_item: bool)
        ensures
            on_item == self.spec_has_current(),
    {
        self.cursor < self.items.len()
    }

    /// Takes the item under the cursor out of the list, if the cursor is on
    /// one.
    fn take_current(&mut self) -> (taken: Option<String>)
        requires
            old(self).wf(),
        ensures
            final(self).wf(),
            final(self)@ == old(self)@.without_current(),
            match taken {
                Some(item) => {
                    &&& old(self).has_current()
                    &&& item@ == old(self)@.texts[old(self)@.cursor as int]
                },
                None => !old(self).has_current(),
            },
    {
        if self.cursor < self.items.len() {
            let item = self.items.remove(self.cursor);
            if self.cursor >= self.items.len() && !self.items.is_empty() {
                self.cursor -= 1;
            }
            assert(self@.texts =~= old(self)@.without_current().texts);
            Some(item)
        } else {
            None
        }
    }

    /// Appends `ch` to the item under the cursor.
    fn push_to_current(&mut self, ch: char)
        requires
            old(self).wf(),
            old(self).has_current(),
        ensures
            final(self).wf(),
            final(self)@.texts == old(self)@.texts.update(
                old(self)@.cursor as int,
                old(self)@.texts[old(self)@.cursor as int].push(ch),
            ),
            final(self)@.cursor == old(self)@.cursor,
    {
        let at = self.cursor;
        push_char(&mut self.items[at], ch);
        assert(self@.texts =~= old(self)@.texts.update(
            at as int,
            old(self)@.texts[at as int].push(ch),
        ));
    }

    /// Takes the last character off the item under the cursor, if it has
    /// one.
    fn pop_from_current(&mut self)
        requires
            old(self).wf(),
            old(self).has_current(),
        ensures
            final(self).wf(),
            final(self)@.texts == old(self)@.texts.update(
                old(self)@.cursor as int,
                without_last(old(self)@.texts[old(self)@.cursor as int]),
            ),
            final(self)@.cursor == old(self)@.cursor,
    {
        let at = self.cursor;
        pop_char(&mut self.items[at]);
        assert(self@.texts =~= old(self)@.texts.update(
            at as int,
            without_last(old(self)@.texts[at as int]),
        ));
    }
}

impl Default for ItemList {
    fn default() -> (list: Self)
        ensures
            list.wf(),
            list@.texts == Seq::<Seq<char>>::empty(),
            list@.cursor == 0,
    {
        ItemList::new()
    }
}

/// The mathematical model of the board: both lists, which of them is
/// active, and the state of the line editor.
pub struct Board {
    pub quit: bool,
    pub active: Status,
    pub edit_mode: bool,
    pub edit_cursor: nat,
    pub todo: Items,
    pub done: Items,
}

impl Board {
    /// Both lists are well formed.
    pub open spec fn wf(self) -> bool {
        self.todo.wf() && self.done.wf()
    }

    /// The list of the given status.
    pub open spec fn list(self, status: Status) -> Items {
        match status {
            Status::Todo => self.todo,
            Status::Done => self.done,
        }
    }

    /// The board with the list of the given status replaced.
    pub open spec fn with_list(self, status: Status, list: Items) -> Board {
        match status {
            Status::Todo => Board { todo: list, ..self },
            Status::Done => Board { done: list, ..self },
        }
    }

    /// The list that the cursor keys and the editor work on.
    pub open spec fn active_list(self) -> Items {
        self.list(self.active)
    }

    /// The board with the active list replaced.
    pub open spec fn with_active_list(self, list: Items) -> Board {
        self.with_list(self.active, list)
    }

    /// The cursor of the active list is on an item.
    pub open spec fn has_current(self) -> bool {
        self.active_list().cursor < self.active_list().texts.len()
    }

    /// The text of the item under the cursor of the active list.
    pub open spec fn current(self) -> Seq<char>
        recommends
            self.has_current(),
    {
        self.active_list().texts[self.active_list().cursor as int]
    }

    /// The board with the text of the item under the cursor replaced.
    pub open spec fn with_current(self, text: Seq<char>) -> Board {
        let list = self.active_list();
        self.with_active_list(Items { texts: list.texts.update(list.cursor as int, text), ..list })
    }

    /// The board with the edit cursor one place to the left, unless it is at
    /// the start.
    pub open spec fn edit_left(self) -> Board {
        Board {
            edit_cursor: if self.edit_cursor > 0 {
                (self.edit_cursor - 1) as nat
            } else {
                0
            },
            ..self
        }
    }

    /// The board with the edit cursor one place to the right, unless it has
    /// as many grapheme clusters of the item under the cursor to its left as
    /// the item has.
    pub open spec fn edit_right(self) -> Board {
        Board {
            edit_cursor: if self.edit_cursor < grapheme_count(self.current()) {
                self.edit_cursor + 1
            } else {
                self.edit_cursor
            },
            ..self
        }
    }

    /// The board with the edit cursor at the end of the item under the
    /// cursor, counted in the bytes of its encoding.
    pub open spec fn edit_end(self) -> Board {
        Board { edit_cursor: encode_utf8(self.current()).len(), ..self }
    }

    /// The board with the editor switched on or off; switching it on puts
    /// the edit cursor at the end of the item.
    pub open spec fn with_edit(self, on: bool) -> Board {
        if !self.edit_mode && on {
            Board { edit_mode: true, ..self.edit_end() }
        } else {
            Board { edit_mode: on, ..self }
        }
    }

    /// The board with `ch` appended to the item under the cursor and the
    /// edit cursor moved right.
    pub open spec fn typed(self, ch: char) -> Board {
        self.with_current(self.current().push(ch)).edit_right()
    }

    /// The board with all of `text` typed, character by character.
    pub open spec fn pasted(self, text: Seq<char>) -> Board
        decreases text.len(),
    {
        if text.len() == 0 {
            self
        } else {
            self.pasted(text.drop_last()).typed(text.last())
        }
    }

    /// The board with the last character of the item under the cursor
    /// removed and the edit cursor moved left.
    pub open spec fn erased(self) -> Board {
        self.with_current(without_last(self.current())).edit_left()
    }

    /// The board with the item under the cursor moved to the end of the
    /// other list; without such an item nothing changes.
    pub open spec fn transferred(self) -> Board {
        if self.has_current() {
            let moved = self.current();
            let from = self.active_list().without_current();
            let to = self.list(self.active.other());
            self.with_active_list(from).with_list(
                self.active.other(),
                Items { texts: to.texts.push(moved), ..to },
            )
        } else {
            self
        }
    }
}

/// What a line of a saved board says: the status that its prefix names and
/// the title after the prefix. A line with neither prefix says nothing.
pub open spec fn spec_parse_item(line: Seq<char>) -> Option<(Status, Seq<char>)> {
    if "TODO: "@.is_prefix_of(line) {
        Some((Status::Todo, line.skip("TODO: "@.len() as int)))
    } else if "DONE: "@.is_prefix_of(line) {
        Some((Status::Done, line.skip("DONE: "@.len() as int)))
    } else {
        None
    }
}

/// Reads the status and the title of an item from a line of a saved board.
pub fn parse_item(line: &str) -> (parsed: Option<(Status, &str)>)
    ensures
        match parsed {
            Some((status, title)) => spec_parse_item(line@) == Some((status, title@)),
            None => spec_parse_item(line@) is None,
        },
{
    match strip_prefix(line, "TODO: ") {
        Some(title) => Some((Status::Todo, title)),
        None => match strip_prefix(line, "DONE: ") {
            Some(title) => Some((Status::Done, title)),
            None => None,
        },
    }
}

/// The lines that save `items`, each behind `label` and closed by a line
/// feed.
pub open spec fn saved_items(label: Seq<char>, items: Seq<Seq<char>>) -> Seq<char>
    decreases items.len(),
{
    if items.len() == 0 {
        Seq::empty()
    } else {
        saved_items(label, items.drop_last()) + label + items.last() + "
"@
    }
}

impl Board {
    /// The board with the item of a line of a saved board appended to the
    /// list that the line names. White space around the line and at the end
    /// of the title does not count, and a line of nothing else changes
    /// nothing. `None` for any other line that names no list.
    pub open spec fn loaded(self, line: Seq<char>) -> Option<Board> {
        let line = trimmed(line);
        if line.len() == 0 {
            Some(self)
        } else {
            match spec_parse_item(line) {
                Some((status, title)) => {
                    let list = self.list(status);
                    Some(
                        self.with_list(
                            status,
                            Items { texts: list.texts.push(trimmed_end(title)), ..list },
                        ),
                    )
                },
                None => None,
            }
        }
    }

    /// The text that saves the board: the open items, then the done ones.
    pub open spec fn saved(self) -> Seq<char> {
        saved_items("TODO: "@, self.todo.texts) + saved_items("DONE: "@, self.done.texts)
    }
}

/// A to-do board: a list of open items and a list of done ones, one of them
/// active, and a line editor for the item under the cursor.
#[derive(Debug)]
pub struct App {
    quit: bool,
    active_status: Status,
    edit_mode: bool,
    edit_cursor: usize,
    todo: ItemList,
    done: ItemList,
}

impl View for App {
    type V = Board;

    closed spec fn view(&self) -> Board {
        Board {
            quit: self.quit,
            active: self.active_status,
            edit_mode: self.edit_mode,
            edit_cursor: self.edit_cursor as nat,
            todo: self.todo@,
            done: self.done@,
        }
    }
}

impl App {
    /// In both lists the cursor is on an item or at the top of an empty
    /// list.
    pub open spec fn wf(&self) -> bool {
        self@.wf()
    }

    /// The empty board: the list of open items is active and the editor is
    /// off.
    pub fn new() -> (app: Self)
        ensures
            app.wf(),
            app@ == (Board {
                quit: false,
                active: Status::Todo,
                edit_mode: false,
                edit_cursor: 0,
                todo: Items { texts: Seq::empty(), cursor: 0 },
                done: Items { texts: Seq::empty(), cursor: 0 },
            }),
    {
        Self {
            quit: false,
            active_status: Status::Todo,
            edit_mode: false,
            edit_cursor: 0,
            todo: ItemList::new(),
            done: ItemList::new(),
        }
    }

    /// Whether the user has asked to leave.
    pub fn quit(&self) -> (quit: bool)
        ensures
            quit == self@.quit,
    {
        self.quit
    }

    /// Which list is active.
    pub fn active_status(&self) -> (status: Status)
        ensures
            status == self@.active,
    {
        self.active_status
    }

    /// Whether the editor is on.
    pub fn edit_mode(&self) -> (on: bool)
        ensures
            on == self@.edit_mode,
    {
        self.edit_mode
    }

    /// Where the edit cursor stands in the item under the cursor.
    pub fn edit_cursor(&self) -> (cursor: usize)
        ensures
            cursor == self@.edit_cursor,
    {
        self.edit_cursor
    }

    /// The list of the given status.
    pub fn list(&self, status: Status) -> (list: &ItemList)
        ensures
            list@ == self@.list(status),
    {
        match status {
            Status::Todo => &self.todo,
            Status::Done => &self.done,
        }
    }

    /// The cursor of the active list.
    pub fn active_cursor(&self) -> (cursor: usize)
        ensures
            cursor == self@.active_list().cursor,
    {
        self.active_list().cursor
    }

    /// The active list.
    pub fn active_list(&self) -> (list: &ItemList)
        ensures
            list@ == self@.active_list(),
    {
        match self.active_status {
            Status::Todo => &self.todo,
            Status::Done => &self.done,
        }
    }

    fn active_list_mut(&mut self) -> (list: &mut ItemList)
        ensures
            list@ == old(self)@.active_list(),
            final(self)@ == old(self)@.with_active_list(final(list)@),
    {
        match self.active_status {
            Status::Todo => &mut self.todo,
            Status::Done => &mut self.done,
        }
    }

    /// The items of the active list.
    pub fn active_items(&self) -> (items: &Vec<String>)
        ensures
            texts_of(items@) == self@.active_list().texts,
    {
        &self.active_list().items
    }

    fn active_items_mut(&mut self) -> (items: &mut Vec<String>)
        ensures
            texts_of(items@) == old(self)@.active_list().texts,
            final(self)@ == old(self)@.with_active_list(
                Items {
                    texts: texts_of(final(items)@),
                    cursor: old(self)@.active_list().cursor,
                },
            ),
    {
        match self.active_status {
            Status::Todo => &mut self.todo.items,
            Status::Done => &mut self.done.items,
        }
    }

    /// Whether the cursor of the active list is on an item.
    pub fn has_current(&self) -> (on_item: bool)
        ensures
            on_item == self@.has_current(),
    {
        self.active_list().has_current()
    }

    /// Makes the other list the active one.
    pub fn switch_list(&mut self)
        ensures
            final(self)@ == (Board { active: old(self)@.active.other(), ..old(self)@ }),
    {
        self.active_status = self.active_status ^ 1;
    }

    /// Asks to leave.
    pub fn request_quit(&mut self)
        ensures
            final(self)@ == (Board { quit: true, ..old(self)@ }),
    {
        self.quit = true;
    }

    /// Moves the cursor of the active list one item up.
    pub fn cursor_up(&mut self)
        requires
            old(self).wf(),
        ensures
            final(self).wf(),
            final(self)@ == old(self)@.with_active_list(old(self)@.active_list().moved_up()),
    {
        self.active_list_mut().cursor_up();
    }

    /// Moves the cursor of the active list one item down.
    pub fn cursor_down(&mut self)
        requires
            old(self).wf(),
        ensures
            final(self).wf(),
            final(self)@ == old(self)@.with_active_list(old(self)@.active_list().moved_down()),
    {
        self.active_list_mut().cursor_down();
    }

    /// Moves the cursor of the active list to its first item.
    pub fn cursor_to_top(&mut self)
        requires
            old(self).wf(),
        ensures
            final(self).wf(),
            final(self)@ == old(self)@.with_active_list(
                Items { cursor: 0, ..old(self)@.active_list() },
            ),
    {
        self.active_list_mut().cursor_to_top();
    }

    /// Moves the cursor of the active list to its last item.
    pub fn cursor_to_bottom(&mut self)
        requires
            old(self).wf(),
        ensures
            final(self).wf(),
            final(self)@ == old(self)@.with_active_list(old(self)@.active_list().at_bottom()),
    {
        self.active_list_mut().cursor_to_bottom()
    }

    /// Moves the item under the cursor one place up in the active list.
    pub fn drag_up(&mut self)
        requires
            old(self).wf(),
        ensures
            final(self).wf(),
            final(self)@ == old(self)@.with_active_list(old(self)@.active_list().dragged_up()),
    {
        self.active_list_mut().list_drag_up();
    }

    /// Moves the item under the cursor one place down in the active list.
    pub fn drag_down(&mut self)
        requires
            old(self).wf(),
        ensures
            final(self).wf(),
            final(self)@ == old(self)@.with_active_list(old(self)@.active_list().dragged_down()),
    {
        self.active_list_mut().list_drag_down();
    }

    /// Appends `c` to the item under the cursor and moves the edit cursor
    /// right.
    pub fn edit_add_char(&mut self, c: char)
        requires
            old(self).wf(),
            old(self)@.has_current(),
        ensures
            final(self).wf(),
            final(self)@ == old(self)@.typed(c),
    {
        self.active_list_mut().push_to_current(c);
        self.edit_cursor_right();
    }

    /// Removes the last character of the item under the cursor and moves
    /// the edit cursor left.
    pub fn backspace(&mut self)
        requires
            old(self).wf(),
            old(self)@.has_current(),
        ensures
            final(self).wf(),
            final(self)@ == old(self)@.erased(),
    {
        self.active_list_mut().pop_from_current();
        self.edit_cursor_left();
    }

    /// Moves the edit cursor one place to the left, unless it is at the start.
    pub fn edit_cursor_left(&mut self)
        ensures
            final(self)@ == old(self)@.edit_left(),
    {
        if self.edit_cursor > 0 {
            self.edit_cursor -= 1;
        }
    }

    /// Moves the edit cursor one place to the right, unless it has as many
    /// grapheme clusters of the item to its left as the item has.
    pub fn edit_cursor_right(&mut self)
        requires
            old(self)@.has_current(),
        ensures
            final(self)@ == old(self)@.edit_right(),
    {
        let cursor = self.active_cursor();
        let len = count_graphemes(self.active_list().item(cursor));
        if self.edit_cursor < len {
            self.edit_cursor += 1;
        }
    }

    /// Moves the edit cursor to the start of the item.
    pub fn edit_cursor_begin(&mut self)
        ensures
            final(self)@ == (Board { edit_cursor: 0, ..old(self)@ }),
    {
        self.edit_cursor = 0;
    }

    /// Moves the edit cursor to the end of the item, counted in the bytes of
    /// its encoding.
    pub fn edit_cursor_end(&mut self)
        requires
            old(self)@.has_current(),
        ensures
            final(self)@ == old(self)@.edit_end(),
    {
        let cursor = self.active_cursor();
        self.edit_cursor = self.active_list().item(cursor).as_bytes().len();
    }

    /// Switches the editor on or off; switching it on puts the edit cursor
    /// at the end of the item under the cursor.
    pub fn set_edit(&mut self, edit_active: bool)
        requires
            !old(self)@.edit_mode && edit_active ==> old(self)@.has_current(),
        ensures
            final(self)@ == old(self)@.with_edit(edit_active),
    {
        if !self.edit_mode && edit_active {
            self.edit_cursor_end();
        }
        self.edit_mode = edit_active;
    }

    /// Moves the item under the cursor to the end of the other list.
    pub fn list_transfer(&mut self)
        requires
            old(self).wf(),
        ensures
            final(self).wf(),
            final(self)@ == old(self)@.transferred(),
    {
        let taken = self.active_list_mut().take_current();
        match taken {
            Some(item) => {
                match self.active_status {
                    Status::Todo => self.done.push(item),
                    Status::Done => self.todo.push(item),
                }
            },
            None => {},
        }
    }

    /// Deletes the item under the cursor.
    pub fn list_delete(&mut self)
        requires
            old(self).wf(),
        ensures
            final(self).wf(),
            final(self)@ == old(self)@.with_active_list(old(self)@.active_list().without_current()),
    {
        self.active_list_mut().take_current();
    }

    /// Puts a new, empty item under the cursor.
    pub fn new_item(&mut self)
        requires
            old(self).wf(),
        ensures
            final(self).wf(),
            final(self)@ == old(self)@.with_active_list(old(self)@.active_list().with_empty()),
    {
        let at = self.active_cursor();
        let items = self.active_items_mut();
        items.insert(at, String::new());
        assert(texts_of(items@) =~= old(self)@.active_list().texts.insert(
            at as int,
            Seq::<char>::empty(),
        ));
    }
}

impl App {
    /// Takes one line of a saved board in. Returns whether the line was
    /// well formed; an ill-formed line changes nothing.
    pub fn load_line(&mut self, line: &str) -> (well_formed: bool)
        requires
            old(self).wf(),
        ensures
            final(self).wf(),
            well_formed == old(self)@.loaded(line@) is Some,
            final(self)@ == match old(self)@.loaded(line@) {
                Some(board) => board,
                None => old(self)@,
            },
    {
        let line = trim(line);
        if line.is_empty() {
            return true;
        }
        match parse_item(line) {
            Some((status, title)) => {
                let item = String::from_str(trim_end(title));
                match status {
                    Status::Todo => self.todo.push(item),
                    Status::Done => self.done.push(item),
                }
                true
            },
            None => false,
        }
    }

    /// The text that saves the board.
    pub fn save_text(&self) -> (text: String)
        ensures
            text@ == self@.saved(),
    {
        let mut text = String::new();
        save_items(&mut text, "TODO: ", &self.todo.items);
        save_items(&mut text, "DONE: ", &self.done.items);
        assert(text@ =~= self@.saved());
        text
    }
}

/// Appends the lines that save `items` to `text`.
fn save_items(text: &mut String, label: &str, items: &Vec<String>)
    ensures
        final(text)@ == old(text)@ + saved_items(label@, texts_of(items@)),
{
    let mut i: usize = 0;
    assert(texts_of(items@).take(0) =~= Seq::<Seq<char>>::empty());
    while i < items.len()
        invariant
            i <= items@.len(),
            text@ == old(text)@ + saved_items(label@, texts_of(items@).take(i as int)),
        decreases items@.len() - i,
    {
        let ghost before = texts_of(items@).take(i as int);
        text.append(label);
        text.append(items[i].as_str());
        text.append("
");
        i += 1;
        proof {
            let now = texts_of(items@).take(i as int);
            assert(now.drop_last() =~= before);
            assert(now.last() == items@[i - 1]@);
        }
    }
    assert(texts_of(items@).take(i as int) =~= texts_of(items@));
}

impl Default for App {
    fn default() -> (app: Self)
        ensures
            app.wf(),
            app@ == (Board {
                quit: false,
                active: Status::Todo,
                edit_mode: false,
                edit_cursor: 0,
                todo: Items { texts: Seq::empty(), cursor: 0 },
                done: Items { texts: Seq::empty(), cursor: 0 },
            }),
    {
        App::new()
    }
}

} // verus!
