use crate::direction::Direction;
use crate::error::InterpreterError;
use vstd::prelude::*;

verus! {

/// Number of columns of the program grid.
pub const WIDTH: usize = 80;

/// Number of rows of the program grid.
pub const HEIGHT: usize = 25;

/// Where one move from `(x, y)` along `d` lands, or `None` where the move
/// is refused. A move right is allowed while `x < WIDTH` and a move down
/// while `y < HEIGHT`, so the pointer may come to rest one past the last
/// column or row; a move left or up is refused from column or row zero.
pub open spec fn travel_target(x: int, y: int, d: Direction) -> Option<(int, int)> {
    match d {
        Direction::Right => if x < WIDTH { Some((x + 1, y)) } else { None },
        Direction::Left => if x > 0 { Some((x - 1, y)) } else { None },
        Direction::Down => if y < HEIGHT { Some((x, y + 1)) } else { None },
        Direction::Up => if y > 0 { Some((x, y - 1)) } else { None },
    }
}

/// A position on the grid: column `x`, row `y`.
#[derive(Debug, Clone, Copy, PartialEq, Eq, Structural)]
pub struct Pointer {
    pub x: usize,
    pub y: usize,
}

impl Pointer {
    /// Whether the position names a cell of the grid.
    pub open spec fn in_grid(&self) -> bool {
        self.x < WIDTH && self.y < HEIGHT
    }

    /// Moves one cell along `direction`, or fails with `OutOfBounds` and
    /// stays where it is.
    pub fn travel(&mut self, direction: &Direction) -> (r: Result<(), InterpreterError>)
        ensures
            match travel_target(old(self).x as int, old(self).y as int, *direction) {
                Some((nx, ny)) => r == Ok::<(), InterpreterError>(()) && final(self).x == nx
                    && final(self).y == ny,
                None => r == Err::<(), InterpreterError>(InterpreterError::OutOfBounds)
                    && *final(self) == *old(self),
            },
    {
        match direction {
            Direction::Right => {
                if self.x < WIDTH {
                    self.x = self.x + 1;
                    Ok(())
                } else {
                    Err(InterpreterError::OutOfBounds)
                }
            },
            Direction::Left => {
                if self.x > 0 {
                    self.x = self.x - 1;
                    Ok(())
                } else {
                    Err(InterpreterError::OutOfBounds)
                }
            },
            Direction::Down => {
                if self.y < HEIGHT {
                    self.y = self.y + 1;
                    Ok(())
                } else {
                    Err(InterpreterError::OutOfBounds)
                }
            },
            Direction::Up => {
                if self.y > 0 {
                    self.y = self.y - 1;
                    Ok(())
                } else {
                    Err(InterpreterError::OutOfBounds)
                }
            },
        }
    }
}

} // verus!
