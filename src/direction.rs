use vstd::prelude::*;
use rand::rngs::StdRng;
use crate::random::random_bool;

verus! {

/// One of the four grid-aligned headings of a pipe.
#[derive(Clone, Copy, Debug, PartialEq, Eq, Structural)]
pub enum Direction {
    Up,
    Right,
    Down,
    Left,
}

impl Direction {
    /// Up and Down move along the rows; Left and Right along the columns.
    pub open spec fn is_vertical(self) -> bool {
        self == Direction::Up || self == Direction::Down
    }

    /// The two headings lie on different axes.
    pub open spec fn perpendicular(self, other: Direction) -> bool {
        self.is_vertical() != other.is_vertical()
    }

    /// The heading that points the other way.
    pub open spec fn opposite(self) -> Direction {
        match self {
            Direction::Up => Direction::Down,
            Direction::Right => Direction::Left,
            Direction::Down => Direction::Up,
            Direction::Left => Direction::Right,
        }
    }

    /// The heading taken on a turn, given the outcome of a coin flip.
    pub open spec fn turned_by(self, coin: bool) -> Direction {
        if self.is_vertical() {
            if coin { Direction::Left } else { Direction::Right }
        } else {
            if coin { Direction::Up } else { Direction::Down }
        }
    }

    /// The heading drawn at spawn from a number below four.
    pub open spec fn from_roll(i: int) -> Direction {
        if i == 0 {
            Direction::Up
        } else if i == 1 {
            Direction::Down
        } else if i == 2 {
            Direction::Left
        } else {
            Direction::Right
        }
    }

    /// Turns a quarter, to the side that `coin` picks.
    pub fn turned(self, coin: bool) -> (r: Direction)
        ensures
            r == self.turned_by(coin),
            r.perpendicular(self),
    {
        match self {
            Direction::Up | Direction::Down => if coin { Direction::Left } else { Direction::Right },
            Direction::Left | Direction::Right => if coin { Direction::Up } else { Direction::Down },
        }
    }

    /// Turns a quarter, to a side picked by a fair coin from `rng`.
    pub fn turn(self, rng: &mut StdRng) -> (r: Direction)
        ensures
            r.perpendicular(self),
    {
        let coin = random_bool(rng);
        self.turned(coin)
    }

    /// The spawn heading for `i`, taken modulo four.
    pub fn from_index(i: usize) -> (r: Direction)
        ensures
            r == Direction::from_roll((i % 4) as int),
    {
        let k: usize = i % 4;
        if k == 0 {
            Direction::Up
        } else if k == 1 {
            Direction::Down
        } else if k == 2 {
            Direction::Left
        } else {
            Direction::Right
        }
    }
}

} // verus!
