//! Grid coordinates.

use vstd::prelude::*;
use crate::direction::SegmentDirection;

verus! {

/// One discrete grid position. Two cells are equal when their coordinates are.
#[derive(Debug, Clone, Copy, PartialEq, Eq, Hash, Structural)]
pub struct Cell {
    pub x: i32,
    pub y: i32,
}

impl Cell {
    /// True when `to` lies exactly one unit step in direction `d` from `self`.
    pub open spec fn leads_to(self, d: SegmentDirection, to: Cell) -> bool {
        to.x == self.x + d.dx() && to.y == self.y + d.dy()
    }

    /// True when the two cells share an edge.
    pub open spec fn adjacent(self, other: Cell) -> bool {
        ||| self.leads_to(SegmentDirection::Left, other)
        ||| self.leads_to(SegmentDirection::Right, other)
        ||| self.leads_to(SegmentDirection::Up, other)
        ||| self.leads_to(SegmentDirection::Down, other)
    }

    /// The direction of the unit step from `self` to `to`; `Idle` when the
    /// two cells do not share an edge.
    pub open spec fn heading(self, to: Cell) -> SegmentDirection {
        if self.leads_to(SegmentDirection::Left, to) {
            SegmentDirection::Left
        } else if self.leads_to(SegmentDirection::Right, to) {
            SegmentDirection::Right
        } else if self.leads_to(SegmentDirection::Up, to) {
            SegmentDirection::Up
        } else if self.leads_to(SegmentDirection::Down, to) {
            SegmentDirection::Down
        } else {
            SegmentDirection::Idle
        }
    }

    /// The cell with the given coordinates.
    pub fn new(x: i32, y: i32) -> (c: Cell)
        ensures
            c.x == x,
            c.y == y,
    {
        Cell { x, y }
    }

    /// The cell one unit step away in direction `d`, or `None` when that
    /// coordinate cannot be represented.
    pub fn step(self, d: SegmentDirection) -> (next: Option<Cell>)
        ensures
            match next {
                Some(c) => self.leads_to(d, c),
                None => !(i32::MIN <= self.x + d.dx() <= i32::MAX && i32::MIN <= self.y + d.dy()
                    <= i32::MAX),
            },
    {
        let (dx, dy) = d.vector();
        match (self.x.checked_add(dx), self.y.checked_add(dy)) {
            (Some(x), Some(y)) => Some(Cell { x, y }),
            _ => None,
        }
    }

    /// The direction of the unit step that leads from `self` to `to`, or
    /// `Idle` when the two cells do not share an edge.
    pub fn direction_to(self, to: Cell) -> (d: SegmentDirection)
        ensures
            d == self.heading(to),
            d != SegmentDirection::Idle <==> self.adjacent(to),
    {
        let dx: i64 = to.x as i64 - self.x as i64;
        let dy: i64 = to.y as i64 - self.y as i64;
        if dx == -1 && dy == 0 {
            SegmentDirection::Left
        } else if dx == 1 && dy == 0 {
            SegmentDirection::Right
        } else if dx == 0 && dy == 1 {
            SegmentDirection::Up
        } else if dx == 0 && dy == -1 {
            SegmentDirection::Down
        } else {
            SegmentDirection::Idle
        }
    }
}

} // verus!
