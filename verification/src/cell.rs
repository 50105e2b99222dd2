//! Colours and cells: what one character position of the terminal shows.

use vstd::prelude::*;

verus! {

/// A terminal colour: the terminal's own default, the sixteen named
/// colours, a 24-bit colour or an entry of the 256-colour palette.
#[derive(Clone, Copy, Debug, PartialEq, Eq, Structural)]
pub enum Color {
    Reset,
    Black,
    DarkGrey,
    Red,
    DarkRed,
    Green,
    DarkGreen,
    Yellow,
    DarkYellow,
    Blue,
    DarkBlue,
    Magenta,
    DarkMagenta,
    Cyan,
    DarkCyan,
    White,
    Grey,
    Rgb { r: u8, g: u8, b: u8 },
    AnsiValue(u8),
}

/// A glyph with its foreground and background colour.
#[derive(Clone, Copy, Debug, PartialEq, Eq, Structural)]
pub struct Cell {
    pub ch: char,
    pub fg: Color,
    pub bg: Color,
}

impl Cell {
    /// The cell that shows `ch` in the colours `fg` on `bg`.
    pub open spec fn spec_new(ch: char, fg: Color, bg: Color) -> Cell {
        Cell { ch, fg, bg }
    }

    /// The cell that shows `ch` in the colours `fg` on `bg`.
    #[verifier::when_used_as_spec(spec_new)]
    pub fn new(ch: char, fg: Color, bg: Color) -> (cell: Self)
        ensures
            cell == Cell::spec_new(ch, fg, bg),
    {
        Cell { ch, fg, bg }
    }

    /// The cell of an untouched screen: a space, white on black.
    pub open spec fn blank() -> Cell {
        Cell { ch: ' ', fg: Color::White, bg: Color::Black }
    }
}

impl Default for Cell {
    fn default() -> (cell: Self)
        ensures
            cell == Cell::blank(),
    {
        Cell { ch: ' ', fg: Color::White, bg: Color::Black }
    }
}

} // verus!
