//! The colors a terminal foreground or background can take.

use vstd::prelude::*;

verus! {

/// A terminal color: one of the eight named colors, an index into the
/// 256-entry palette, or a 24-bit RGB triple.
#[derive(Clone, Copy, Debug, PartialEq, Eq, Structural)]
#[non_exhaustive]
pub enum Color {
    Black,
    Blue,
    Green,
    Red,
    Cyan,
    Magenta,
    Yellow,
    White,
    Ansi256(u8),
    Rgb(u8, u8, u8),
}

impl Color {
    /// Whether this is one of the eight named colors.
    pub open spec fn is_named(self) -> bool {
        !(self is Ansi256) && !(self is Rgb)
    }

    /// The position of a named color in the basic palette (the last digit of
    /// its `30..=37` foreground code). Meaningful for named colors only.
    pub open spec fn palette_offset(self) -> nat
        recommends
            self.is_named(),
    {
        match self {
            Color::Black => 0,
            Color::Red => 1,
            Color::Green => 2,
            Color::Yellow => 3,
            Color::Blue => 4,
            Color::Magenta => 5,
            Color::Cyan => 6,
            Color::White => 7,
            _ => 0,
        }
    }

    /// Returns the basic-palette position of a named color, and `None` for
    /// palette-index and RGB colors.
    pub fn named_offset(&self) -> (r: Option<u8>)
        ensures
            self.is_named() <==> r is Some,
            r matches Some(n) ==> n == self.palette_offset() && n < 8,
    {
        match self {
            Color::Black => Some(0),
            Color::Red => Some(1),
            Color::Green => Some(2),
            Color::Yellow => Some(3),
            Color::Blue => Some(4),
            Color::Magenta => Some(5),
            Color::Cyan => Some(6),
            Color::White => Some(7),
            _ => None,
        }
    }
}

} // verus!
