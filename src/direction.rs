use vstd::prelude::*;

verus! {

/// One of the four cardinal headings of the program pointer.
#[derive(Debug, Clone, Copy, PartialEq, Eq, Structural)]
pub enum Direction {
    Up,
    Down,
    Left,
    Right,
}

/// The heading that a uniform draw from `0..=3` selects: anything above 2
/// selects `Left`.
pub open spec fn direction_of_sample(n: u8) -> Direction {
    if n == 0 {
        Direction::Up
    } else if n == 1 {
        Direction::Down
    } else if n == 2 {
        Direction::Right
    } else {
        Direction::Left
    }
}

impl Direction {
    /// Maps a draw from `0..=3` to a heading, so that a uniform draw gives
    /// a uniform heading.
    pub fn from_sample(n: u8) -> (r: Direction)
        ensures
            r == direction_of_sample(n),
    {
        match n {
            0 => Direction::Up,
            1 => Direction::Down,
            2 => Direction::Right,
            _ => Direction::Left,
        }
    }
}

} // verus!
