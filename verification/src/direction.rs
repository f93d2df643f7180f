//! The four directions of movement on the grid, and the absence of one.

use vstd::prelude::*;
use crate::traits::IntoBytes;

verus! {

/// A direction of movement. `Top` raises `y`, `Bottom` lowers it, `Right`
/// raises `x` and `Left` lowers it. `Nowhere` never moves anything.
#[derive(Debug, Clone, Copy, PartialEq, Eq, Structural)]
pub enum Direction {
    Top,
    Bottom,
    Right,
    Left,
    Nowhere,
}

impl Direction {
    /// The number by which a direction is known on the wire.
    pub open spec fn code(self) -> u8 {
        match self {
            Direction::Bottom => 0,
            Direction::Top => 1,
            Direction::Left => 2,
            Direction::Right => 3,
            Direction::Nowhere => 4,
        }
    }

    /// The change of `x` that one step in this direction makes.
    pub open spec fn dx(self) -> int {
        match self {
            Direction::Right => 1,
            Direction::Left => -1,
            _ => 0,
        }
    }

    /// The change of `y` that one step in this direction makes.
    pub open spec fn dy(self) -> int {
        match self {
            Direction::Top => 1,
            Direction::Bottom => -1,
            _ => 0,
        }
    }

}

impl IntoBytes<1> for Direction {
    open spec fn bytes(&self) -> Seq<u8> {
        seq![self.code()]
    }

    fn into_bytes(&self) -> (bytes: [u8; 1])
        ensures
            bytes@ == seq![self.code()],
    {
        [
            match self {
                Direction::Bottom => 0,
                Direction::Top => 1,
                Direction::Left => 2,
                Direction::Right => 3,
                Direction::Nowhere => 4,
            },
        ]
    }
}

impl Default for Direction {
    fn default() -> (d: Direction)
        ensures
            d == Direction::Nowhere,
    {
        Direction::Nowhere
    }
}

} // verus!
