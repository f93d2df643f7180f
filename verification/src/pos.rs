//! Grid positions and the unit shift.

use vstd::prelude::*;
use crate::direction::Direction;

verus! {

/// A cell position. The coordinates are bytes; whether the position lies
/// inside a particular grid is the grid's question, not the position's.
#[derive(Debug, Clone, Copy, PartialEq, Eq, Structural)]
pub struct Pos {
    pub x: u8,
    pub y: u8,
}

impl Pos {
    /// The position one step away in `direction`, or `None` where the step
    /// would leave the range of a byte or the direction is `Direction::Nowhere`.
    pub open spec fn shifted(self, direction: Direction) -> Option<Pos> {
        let x = self.x + direction.dx();
        let y = self.y + direction.dy();
        if direction == Direction::Nowhere || x < 0 || x > u8::MAX || y < 0 || y > u8::MAX {
            None
        } else {
            Some(Pos { x: x as u8, y: y as u8 })
        }
    }

    pub fn new(x: u8, y: u8) -> (p: Pos)
        ensures
            p.x == x,
            p.y == y,
    {
        Pos { x, y }
    }

    /// One step in `direction`. This knows nothing of any grid: it fails only
    /// at the ends of the coordinate range, and for `Direction::Nowhere`.
    pub fn shift(&self, direction: Direction) -> (r: Option<Pos>)
        ensures
            r == self.shifted(direction),
    {
        match direction {
            Direction::Top => match self.y.checked_add(1) {
                Some(y) => Some(Pos::new(self.x, y)),
                None => None,
            },
            Direction::Bottom => match self.y.checked_sub(1) {
                Some(y) => Some(Pos::new(self.x, y)),
                None => None,
            },
            Direction::Right => match self.x.checked_add(1) {
                Some(x) => Some(Pos::new(x, self.y)),
                None => None,
            },
            Direction::Left => match self.x.checked_sub(1) {
                Some(x) => Some(Pos::new(x, self.y)),
                None => None,
            },
            Direction::Nowhere => None,
        }
    }
}

impl Default for Pos {
    fn default() -> (p: Pos)
        ensures
            p == (Pos { x: 0, y: 0 }),
    {
        Pos { x: 0, y: 0 }
    }
}

impl From<(u8, u8)> for Pos {
    fn from(pair: (u8, u8)) -> (p: Pos) {
        Pos { x: pair.0, y: pair.1 }
    }
}

impl vstd::std_specs::convert::FromSpecImpl<(u8, u8)> for Pos {
    open spec fn obeys_from_spec() -> bool {
        true
    }

    open spec fn from_spec(pair: (u8, u8)) -> Pos {
        Pos { x: pair.0, y: pair.1 }
    }
}

impl From<Pos> for (u8, u8) {
    fn from(p: Pos) -> (pair: (u8, u8)) {
        (p.x, p.y)
    }
}

impl vstd::std_specs::convert::FromSpecImpl<Pos> for (u8, u8) {
    open spec fn obeys_from_spec() -> bool {
        true
    }

    open spec fn from_spec(p: Pos) -> (u8, u8) {
        (p.x, p.y)
    }
}

} // verus!
