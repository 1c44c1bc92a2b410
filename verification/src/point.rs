//! Cells of the grid.

use vstd::prelude::*;
use crate::direction::Direction;

verus! {

/// A cell of the grid. `x` counts columns from the left edge, `y` counts rows
/// from the top edge.
#[derive(Clone, Copy, Debug, PartialEq, Eq, Structural)]
pub struct Point {
    pub x: u16,
    pub y: u16,
}

impl Point {
    /// Column reached from this cell after `distance` steps in `direction`.
    pub open spec fn shifted_x(self, direction: Direction, distance: int) -> int {
        match direction {
            Direction::Left => self.x - distance,
            Direction::Right => self.x + distance,
            _ => self.x as int,
        }
    }

    /// Row reached from this cell after `distance` steps in `direction`.
    pub open spec fn shifted_y(self, direction: Direction, distance: int) -> int {
        match direction {
            Direction::Up => self.y - distance,
            Direction::Down => self.y + distance,
            _ => self.y as int,
        }
    }

    /// Whether the cell `distance` steps away in `direction` has coordinates
    /// that a `Point` can hold: neither negative nor above `u16::MAX`.
    pub open spec fn can_translate(self, direction: Direction, distance: int) -> bool {
        &&& 0 <= self.shifted_x(direction, distance) <= u16::MAX
        &&& 0 <= self.shifted_y(direction, distance) <= u16::MAX
    }

    /// The cell `distance` steps away in `direction`. Meaningful where
    /// `can_translate` holds.
    pub open spec fn translated(self, direction: Direction, distance: int) -> Point {
        Point {
            x: self.shifted_x(direction, distance) as u16,
            y: self.shifted_y(direction, distance) as u16,
        }
    }

    /// Whether this cell lies at column `x` and row `y`.
    pub open spec fn is_at(self, x: int, y: int) -> bool {
        self.x == x && self.y == y
    }

    /// Whether this cell and `other` share an edge.
    pub open spec fn touches(self, other: Point) -> bool {
        let across = self.x - other.x;
        let down = self.y - other.y;
        (across == 0 && (down == 1 || down == -1)) || (down == 0 && (across == 1 || across == -1))
    }

    pub fn new(x: u16, y: u16) -> (point: Point)
        ensures
            point == (Point { x, y }),
    {
        Point { x, y }
    }

    /// Returns the cell `distance` steps away in `direction`.
    pub fn translate(&self, direction: Direction, distance: u16) -> (moved: Point)
        requires
            self.can_translate(direction, distance as int),
        ensures
            moved == self.translated(direction, distance as int),
    {
        match direction {
            Direction::Up => Point { x: self.x, y: self.y - distance },
            Direction::Right => Point { x: self.x + distance, y: self.y },
            Direction::Down => Point { x: self.x, y: self.y + distance },
            Direction::Left => Point { x: self.x - distance, y: self.y },
        }
    }
}

} // verus!
