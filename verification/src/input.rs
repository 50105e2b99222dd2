//! What the keyboard and the terminal report, and what the board and the
//! screen make of it.

use crate::emit::{redraw, Command};
use crate::grid::Grid;
use crate::todo::{App, Board, Status};
use crate::ui::Ui;
use vstd::prelude::*;
use vstd::std_specs::iter::IteratorSpec;

verus! {

/// The keys that the board knows; every other key is `Other`.
#[derive(Clone, Copy, Debug, PartialEq, Eq, Structural)]
pub enum Key {
    Char(char),
    Left,
    Right,
    Home,
    End,
    Backspace,
    Esc,
    Enter,
    Tab,
    Up,
    Down,
    Delete,
    Insert,
    Other,
}

/// Something that happened at the terminal.
#[derive(Debug)]
pub enum Event {
    /// The terminal now has this many columns and rows.
    Resize(u16, u16),
    /// A text was pasted.
    Paste(String),
    /// A key was pressed (`press`) or otherwise reported, with the control
    /// key held down or not.
    Key { code: Key, press: bool, control: bool },
    /// Anything else.
    Other,
}

impl Board {
    /// Whether a key press has an item to work on where it needs one: in the
    /// editor the keys that read or change the item's text, outside it the
    /// key that opens the editor.
    pub open spec fn handles_key(self, code: Key) -> bool {
        if self.edit_mode {
            match code {
                Key::Char(_) | Key::Right | Key::End | Key::Backspace => self.has_current(),
                _ => true,
            }
        } else {
            match code {
                Key::Enter => self.has_current(),
                _ => true,
            }
        }
    }

    /// The board after a key press. In the editor, characters are typed;
    /// the arrow keys, Home and End move the edit cursor; Backspace erases;
    /// Esc and Enter leave the editor. Outside it, Ctrl-C and Esc ask to
    /// leave; Enter opens the editor; Tab switches lists; Up and Down move
    /// the cursor, or the item with Ctrl held down; Left and Right move the
    /// item to the list on that side; Delete deletes and Insert inserts.
    pub open spec fn after_key(self, code: Key, control: bool) -> Board {
        if self.edit_mode {
            match code {
                Key::Char(ch) => self.typed(ch),
                Key::Left => self.edit_left(),
                Key::Right => self.edit_right(),
                Key::Home => Board { edit_cursor: 0, ..self },
                Key::End => self.edit_end(),
                Key::Backspace => self.erased(),
                Key::Esc | Key::Enter => self.with_edit(false),
                _ => self,
            }
        } else {
            let list = self.active_list();
            match code {
                Key::Char(ch) => if ch == 'c' && control {
                    Board { quit: true, ..self }
                } else {
                    self
                },
                Key::Esc => Board { quit: true, ..self },
                Key::Enter => self.with_edit(true),
                Key::Tab => Board { active: self.active.other(), ..self },
                Key::Up => if control {
                    self.with_active_list(list.dragged_up())
                } else {
                    self.with_active_list(list.moved_up())
                },
                Key::Down => if control {
                    self.with_active_list(list.dragged_down())
                } else {
                    self.with_active_list(list.moved_down())
                },
                Key::Left => if self.active == Status::Done {
                    self.transferred()
                } else {
                    self
                },
                Key::Right => if self.active == Status::Todo {
                    self.transferred()
                } else {
                    self
                },
                Key::Delete => self.with_active_list(list.without_current()),
                Key::Insert => self.with_active_list(list.with_empty()),
                _ => self,
            }
        }
    }

    /// Whether an event has an item to work on where it needs one.
    pub open spec fn handles(self, event: Event) -> bool {
        match event {
            Event::Paste(text) => text@.len() > 0 ==> self.has_current(),
            Event::Key { code, press, control } => press ==> self.handles_key(code),
            _ => true,
        }
    }

    /// The board after an event: a pasted text is typed, a key press is
    /// acted on, and nothing else changes the board.
    pub open spec fn after(self, event: Event) -> Board {
        match event {
            Event::Paste(text) => self.pasted(text@),
            Event::Key { code, press, control } => if press {
                self.after_key(code, control)
            } else {
                self
            },
            _ => self,
        }
    }
}

/// Whether `app` has an item to work on where a press of `code` needs one.
pub fn handles_key(app: &App, code: Key) -> (handled: bool)
    ensures
        handled == app@.handles_key(code),
{
    if app.edit_mode() {
        match code {
            Key::Char(_) | Key::Right | Key::End | Key::Backspace => app.has_current(),
            _ => true,
        }
    } else {
        match code {
            Key::Enter => app.has_current(),
            _ => true,
        }
    }
}

/// Whether `app` has an item to work on where `event` needs one.
pub fn handles(app: &App, event: &Event) -> (handled: bool)
    ensures
        handled == app@.handles(*event),
{
    match event {
        Event::Paste(text) => text.as_str().is_empty() || app.has_current(),
        Event::Key { code, press, control } => !*press || handles_key(app, *code),
        _ => true,
    }
}

/// Acts on a key press.
pub fn handle_key(app: &mut App, code: Key, control: bool)
    requires
        old(app).wf(),
        old(app)@.handles_key(code),
    ensures
        final(app).wf(),
        final(app)@ == old(app)@.after_key(code, control),
{
    if app.edit_mode() {
        match code {
            Key::Char(x) => app.edit_add_char(x),
            Key::Left => app.edit_cursor_left(),
            Key::Right => app.edit_cursor_right(),
            Key::Home => app.edit_cursor_begin(),
            Key::End => app.edit_cursor_end(),
            Key::Backspace => app.backspace(),
            Key::Esc | Key::Enter => app.set_edit(false),
            _ => {},
        }
    } else {
        match code {
            Key::Char(x) => {
                if x == 'c' && control {
                    app.request_quit();
                }
            },
            Key::Esc => app.request_quit(),
            Key::Enter => app.set_edit(true),
            Key::Tab => app.switch_list(),
            Key::Up => {
                if control {
                    app.drag_up();
                } else {
                    app.cursor_up();
                }
            },
            Key::Down => {
                if control {
                    app.drag_down();
                } else {
                    app.cursor_down();
                }
            },
            Key::Left => {
                if app.active_status() == Status::Done {
                    app.list_transfer();
                }
            },
            Key::Right => {
                if app.active_status() == Status::Todo {
                    app.list_transfer();
                }
            },
            Key::Delete => app.list_delete(),
            Key::Insert => app.new_item(),
            _ => {},
        }
    }
}

/// Types a pasted text, character by character.
pub fn handle_paste(app: &mut App, text: &str)
    requires
        old(app).wf(),
        text@.len() > 0 ==> old(app)@.has_current(),
    ensures
        final(app).wf(),
        final(app)@ == old(app)@.pasted(text@),
{
    let mut chars = text.chars();
    let ghost mut done: int = 0;
    assert(text@.take(0) =~= Seq::<char>::empty());
    loop
        invariant_except_break
            chars.remaining() == text@.skip(done),
        invariant
            0 <= done <= text@.len(),
            app.wf(),
            text@.len() > 0 ==> app@.has_current(),
            app@ == old(app)@.pasted(text@.take(done)),
        ensures
            done == text@.len(),
        decreases text@.len() - done,
    {
        match chars.next() {
            Some(c) => {
                assert(text@.skip(done).len() > 0);
                assert(c == text@[done]);
                assert(text@.skip(done).drop_first() =~= text@.skip(done + 1));
                app.edit_add_char(c);
                proof {
                    assert(text@.take(done + 1).drop_last() =~= text@.take(done));
                    assert(text@.take(done + 1).last() == c);
                    done = done + 1;
                }
            },
            None => {
                assert(text@.skip(done).len() == 0);
                break ;
            },
        }
    }
    assert(text@.take(done) =~= text@);
}

/// Acts on an event. A change of the terminal's size gives the screen the
/// new dimensions and returns the commands that draw it blank; every other
/// event goes to the board and needs no command.
pub fn handle_event(app: &mut App, ui: &mut Ui, event: &Event) -> (queue: Vec<Command>)
    requires
        old(app).wf(),
        old(app)@.handles(*event),
    ensures
        final(app).wf(),
        final(app)@ == old(app)@.after(*event),
        match *event {
            Event::Resize(width, height) => {
                &&& final(ui).wf()
                &&& final(ui)@.stack == old(ui)@.stack
                &&& final(ui)@.screen.current == Grid::blank(width as nat, height as nat)
                &&& final(ui)@.screen.previous == Grid::blank(width as nat, height as nat)
                &&& queue@ == redraw(Grid::blank(width as nat, height as nat))
            },
            _ => *final(ui) == *old(ui) && queue@ == Seq::<Command>::empty(),
        },
{
    match event {
        Event::Resize(width, height) => {
            assert(*width * *height <= usize::MAX) by (nonlinear_arith)
                requires
                    *width <= 0xffff,
                    *height <= 0xffff,
                    usize::MAX >= 0xffff_ffff,
            ;
            ui.resize(*width as usize, *height as usize)
        },
        Event::Paste(text) => {
            handle_paste(app, text.as_str());
            Vec::new()
        },
        Event::Key { code, press, control } => {
            if *press {
                handle_key(app, *code, *control);
            }
            Vec::new()
        },
        _ => Vec::new(),
    }
}

} // verus!
