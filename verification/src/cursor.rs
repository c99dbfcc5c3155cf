//! The edit cursor: a position on the square grid that moves one cell at
//! a time and wraps toroidally at the edges.
//!
//! Only the cursor wraps. The simulation's neighbor counting clips at the
//! boundary instead; the asymmetry is intentional.

use vstd::prelude::*;

verus! {

/// A cursor position on the grid, in cells; (0, 0) is the top-left.
#[derive(Clone, Copy, PartialEq, Eq, Structural, Debug)]
pub struct GridPosition {
    pub x_position: u16,
    pub y_position: u16,
}

/// The four cursor movement directions.
#[derive(Clone, Copy, PartialEq, Eq, Structural, Debug)]
pub enum Direction {
    Up,
    Down,
    Left,
    Right,
}

impl GridPosition {
    /// Both coordinates lie on a square grid of the given side length.
    pub open spec fn in_grid(self, side_length: u16) -> bool {
        self.x_position < side_length && self.y_position < side_length
    }

    /// Move one cell in the given direction, wrapping modulo the side
    /// length: stepping up from the top row lands on the bottom row,
    /// stepping down from the bottom row lands on the top row, and
    /// likewise left and right.
    pub fn move_cursor(&mut self, direction: Direction, side_length: u16)
        requires
            side_length > 0,
            old(self).in_grid(side_length),
        ensures
            final(self).in_grid(side_length),
            match direction {
                Direction::Up => {
                    &&& final(self).x_position == old(self).x_position
                    &&& final(self).y_position == (if old(self).y_position == 0 {
                        side_length - 1
                    } else {
                        old(self).y_position - 1
                    })
                },
                Direction::Down => {
                    &&& final(self).x_position == old(self).x_position
                    &&& final(self).y_position == (if old(self).y_position + 1 == side_length {
                        0
                    } else {
                        old(self).y_position + 1
                    })
                },
                Direction::Left => {
                    &&& final(self).y_position == old(self).y_position
                    &&& final(self).x_position == (if old(self).x_position == 0 {
                        side_length - 1
                    } else {
                        old(self).x_position - 1
                    })
                },
                Direction::Right => {
                    &&& final(self).y_position == old(self).y_position
                    &&& final(self).x_position == (if old(self).x_position + 1 == side_length {
                        0
                    } else {
                        old(self).x_position + 1
                    })
                },
            },
    {
        match direction {
            Direction::Up => {
                if self.y_position > 0 {
                    self.y_position = self.y_position - 1;
                } else {
                    self.y_position = side_length - 1;
                }
            },
            Direction::Down => {
                if self.y_position + 1 == side_length {
                    self.y_position = 0;
                } else {
                    self.y_position = self.y_position + 1;
                }
            },
            Direction::Left => {
                if self.x_position > 0 {
                    self.x_position = self.x_position - 1;
                } else {
                    self.x_position = side_length - 1;
                }
            },
            Direction::Right => {
                if self.x_position + 1 == side_length {
                    self.x_position = 0;
                } else {
                    self.x_position = self.x_position + 1;
                }
            },
        }
    }

    /// Whether the cursor stands on the cell at row y, column x; in the
    /// edit phase this is the highlighted cell when rendering.
    pub fn is_at(&self, y: u16, x: u16) -> (r: bool)
        ensures
            r <==> (self.y_position == y && self.x_position == x),
    {
        self.y_position == y && self.x_position == x
    }
}

} // verus!
