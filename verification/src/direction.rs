//! The four headings of the grid.

use vstd::prelude::*;

verus! {

/// A cardinal direction on the board. `Up` lowers `y`, `Down` raises it,
/// `Left` lowers `x`, `Right` raises it.
#[derive(Clone, Copy, Debug, PartialEq, Eq, Structural)]
pub enum Direction {
    Up,
    Right,
    Down,
    Left,
}

impl Direction {
    /// The direction pointing the other way.
    pub open spec fn spec_opposite(self) -> Direction {
        match self {
            Direction::Up => Direction::Down,
            Direction::Right => Direction::Left,
            Direction::Down => Direction::Up,
            Direction::Left => Direction::Right,
        }
    }

    /// The direction that a number drawn from `0..4` stands for: clockwise
    /// from `Up`. Anything above 2 is `Left`.
    pub open spec fn spec_from_index(index: u16) -> Direction {
        if index == 0 {
            Direction::Up
        } else if index == 1 {
            Direction::Right
        } else if index == 2 {
            Direction::Down
        } else {
            Direction::Left
        }
    }

    /// Returns the direction pointing the other way.
    #[verifier::when_used_as_spec(spec_opposite)]
    pub fn opposite(self) -> (reversed: Direction)
        ensures
            reversed == self.spec_opposite(),
    {
        match self {
            Direction::Up => Direction::Down,
            Direction::Right => Direction::Left,
            Direction::Down => Direction::Up,
            Direction::Left => Direction::Right,
        }
    }

    /// Turns a number into a direction, clockwise from `Up`; every number
    /// above 2 gives `Left`.
    #[verifier::when_used_as_spec(spec_from_index)]
    pub fn from_index(index: u16) -> (direction: Direction)
        ensures
            direction == Direction::spec_from_index(index),
    {
        match index {
            0 => Direction::Up,
            1 => Direction::Right,
            2 => Direction::Down,
            _ => Direction::Left,
        }
    }
}

/// Reversing twice gives the direction back, no direction is its own
/// opposite, and the four directions fall into the two pairs
/// {`Up`, `Down`} and {`Left`, `Right`}.
pub proof fn opposite_pairs_the_directions(d: Direction)
    ensures
        d.opposite().opposite() == d,
        d.opposite() != d,
        (d == Direction::Up || d == Direction::Down) <==> (d.opposite() == Direction::Up
            || d.opposite() == Direction::Down),
        (d == Direction::Left || d == Direction::Right) <==> (d.opposite() == Direction::Left
            || d.opposite() == Direction::Right),
{
}

} // verus!
