use vstd::prelude::*;
use crate::direction::Direction;

verus! {

/// Index of the vertical bar in a glyph set.
pub const VERTICAL: usize = 0;

/// Index of the horizontal bar in a glyph set.
pub const HORIZONTAL: usize = 1;

/// The number of built-in glyph sets.
pub const N_GLYPH_SETS: usize = 1;

/// The number of glyphs in a glyph set.
pub const GLYPH_SET_LEN: usize = 6;

/// The glyph drawn in a cell that a pipe entered heading `last` and leaves
/// heading `dir`.
pub open spec fn glyph_of(last: Direction, dir: Direction) -> usize {
    match (last, dir) {
        (Direction::Up, Direction::Up) => 0,
        (Direction::Up, Direction::Right) => 2,
        (Direction::Up, Direction::Down) => 0,
        (Direction::Up, Direction::Left) => 3,
        (Direction::Right, Direction::Up) => 4,
        (Direction::Right, Direction::Right) => 1,
        (Direction::Right, Direction::Down) => 3,
        (Direction::Right, Direction::Left) => 1,
        (Direction::Down, Direction::Up) => 0,
        (Direction::Down, Direction::Right) => 5,
        (Direction::Down, Direction::Down) => 0,
        (Direction::Down, Direction::Left) => 4,
        (Direction::Left, Direction::Up) => 5,
        (Direction::Left, Direction::Right) => 1,
        (Direction::Left, Direction::Down) => 2,
        (Direction::Left, Direction::Left) => 1,
    }
}

/// The two sides of its cell that glyph `g` reaches: a bar reaches two
/// opposite sides, a corner two adjacent ones.
pub open spec fn arms(g: usize) -> (Direction, Direction) {
    if g == 0 {
        (Direction::Up, Direction::Down)
    } else if g == 1 {
        (Direction::Left, Direction::Right)
    } else if g == 2 {
        (Direction::Down, Direction::Right)
    } else if g == 3 {
        (Direction::Down, Direction::Left)
    } else if g == 4 {
        (Direction::Up, Direction::Left)
    } else {
        (Direction::Up, Direction::Right)
    }
}

/// Glyph `g` reaches the sides `a` and `b` of its cell.
pub open spec fn joins(g: usize, a: Direction, b: Direction) -> bool {
    (arms(g).0 == a && arms(g).1 == b) || (arms(g).0 == b && arms(g).1 == a)
}

/// The character of glyph `g` in glyph set `set`.
pub open spec fn glyph_char_of(set: usize, g: usize) -> char {
    if g == 0 {
        '┃'
    } else if g == 1 {
        '━'
    } else if g == 2 {
        '┏'
    } else if g == 3 {
        '┓'
    } else if g == 4 {
        '┛'
    } else {
        '┗'
    }
}

/// The glyph for a cell entered heading `last` and left heading `dir`.
pub fn glyph_index(last: Direction, dir: Direction) -> (g: usize)
    ensures
        g == glyph_of(last, dir),
        g < GLYPH_SET_LEN,
{
    match last {
        Direction::Up => match dir {
            Direction::Up => 0,
            Direction::Right => 2,
            Direction::Down => 0,
            Direction::Left => 3,
        },
        Direction::Right => match dir {
            Direction::Up => 4,
            Direction::Right => 1,
            Direction::Down => 3,
            Direction::Left => 1,
        },
        Direction::Down => match dir {
            Direction::Up => 0,
            Direction::Right => 5,
            Direction::Down => 0,
            Direction::Left => 4,
        },
        Direction::Left => match dir {
            Direction::Up => 5,
            Direction::Right => 1,
            Direction::Down => 2,
            Direction::Left => 1,
        },
    }
}

/// The character of glyph `g` in glyph set `set`.
pub fn glyph_char(set: usize, g: usize) -> (c: char)
    requires
        set < N_GLYPH_SETS,
        g < GLYPH_SET_LEN,
    ensures
        c == glyph_char_of(set, g),
{
    if g == 0 {
        '┃'
    } else if g == 1 {
        '━'
    } else if g == 2 {
        '┏'
    } else if g == 3 {
        '┓'
    } else if g == 4 {
        '┛'
    } else {
        '┗'
    }
}

/// A pipe that keeps its heading is drawn with a straight bar: the vertical
/// one when it runs up or down, the horizontal one when it runs left or right.
pub proof fn lemma_straight_glyph(d: Direction)
    ensures
        glyph_of(d, d) == (if d.is_vertical() { VERTICAL } else { HORIZONTAL }),
        joins(glyph_of(d, d), d.opposite(), d),
{
}

/// A pipe that turns a quarter is drawn with a corner, and the corner joins
/// the side it came in by (opposite its old heading) to the side it leaves by
/// (its new heading).
pub proof fn lemma_corner_glyph(last: Direction, dir: Direction)
    requires
        last.perpendicular(dir),
    ensures
        2 <= glyph_of(last, dir) < GLYPH_SET_LEN,
        joins(glyph_of(last, dir), last.opposite(), dir),
{
}

} // verus!
