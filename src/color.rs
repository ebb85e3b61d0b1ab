use vstd::prelude::*;

verus! {

/// A terminal foreground colour.
#[derive(Clone, Copy, Debug, PartialEq, Eq, Structural)]
pub enum Color {
    White,
    Cyan,
    Magenta,
    Blue,
    Yellow,
    Green,
    Red,
    Black,
}

/// The number of built-in palettes.
pub const N_PALETTES: usize = 3;

/// The number of colours in each palette.
pub const PALETTE_LEN: usize = 6;

impl Color {
    /// The curses colour number of the colour.
    pub open spec fn spec_code(self) -> u8 {
        match self {
            Color::White => 7,
            Color::Cyan => 6,
            Color::Magenta => 5,
            Color::Blue => 4,
            Color::Yellow => 3,
            Color::Green => 2,
            Color::Red => 1,
            Color::Black => 0,
        }
    }

    /// The curses colour number of the colour.
    pub fn code(self) -> (r: u8)
        ensures
            r == self.spec_code(),
    {
        match self {
            Color::White => 7,
            Color::Cyan => 6,
            Color::Magenta => 5,
            Color::Blue => 4,
            Color::Yellow => 3,
            Color::Green => 2,
            Color::Red => 1,
            Color::Black => 0,
        }
    }
}

/// The colour at position `i` of built-in palette `set`.
pub open spec fn palette(set: int, i: int) -> Color {
    if set == 0 {
        if i == 0 { Color::White } else if i == 1 { Color::Red } else if i == 2 { Color::White }
        else if i == 3 { Color::Yellow } else if i == 4 { Color::Cyan } else { Color::Magenta }
    } else if set == 1 {
        if i == 0 { Color::Cyan } else if i == 1 { Color::Magenta } else if i == 2 { Color::Blue }
        else if i == 3 { Color::Yellow } else if i == 4 { Color::Green } else { Color::Red }
    } else {
        if i == 0 { Color::White } else if i == 1 { Color::Blue } else if i == 2 { Color::Cyan }
        else if i == 3 { Color::Magenta } else if i == 4 { Color::Green } else { Color::White }
    }
}

/// The colour `c` stands in built-in palette `set`.
pub open spec fn in_palette(set: int, c: Color) -> bool {
    exists|i: int| 0 <= i < PALETTE_LEN && #[trigger] palette(set, i) == c
}

/// The colour at position `i` of built-in palette `set`.
pub fn palette_color(set: usize, i: usize) -> (c: Color)
    requires
        set < N_PALETTES,
        i < PALETTE_LEN,
    ensures
        c == palette(set as int, i as int),
        in_palette(set as int, c),
{
    let c = if set == 0 {
        if i == 0 { Color::White } else if i == 1 { Color::Red } else if i == 2 { Color::White }
        else if i == 3 { Color::Yellow } else if i == 4 { Color::Cyan } else { Color::Magenta }
    } else if set == 1 {
        if i == 0 { Color::Cyan } else if i == 1 { Color::Magenta } else if i == 2 { Color::Blue }
        else if i == 3 { Color::Yellow } else if i == 4 { Color::Green } else { Color::Red }
    } else {
        if i == 0 { Color::White } else if i == 1 { Color::Blue } else if i == 2 { Color::Cyan }
        else if i == 3 { Color::Magenta } else if i == 4 { Color::Green } else { Color::White }
    };
    assert(palette(set as int, i as int) == c);
    c
}

} // verus!
