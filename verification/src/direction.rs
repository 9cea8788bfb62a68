//! Directions of travel and the single-slot buffer between input and ticks.

use vstd::prelude::*;

verus! {

/// Direction of travel. `Idle` is the state before the first accepted input.
#[derive(Debug, Clone, Copy, PartialEq, Eq, Structural)]
pub enum SegmentDirection {
    Left,
    Right,
    Up,
    Down,
    Idle,
}

impl SegmentDirection {
    /// Horizontal component of the unit step taken in this direction.
    pub open spec fn dx(self) -> int {
        match self {
            SegmentDirection::Left => -1,
            SegmentDirection::Right => 1,
            _ => 0,
        }
    }

    /// Vertical component of the unit step taken in this direction.
    pub open spec fn dy(self) -> int {
        match self {
            SegmentDirection::Up => 1,
            SegmentDirection::Down => -1,
            _ => 0,
        }
    }

    /// The direction pointing the other way; `Idle` has none and maps to itself.
    pub open spec fn flipped(self) -> SegmentDirection {
        match self {
            SegmentDirection::Left => SegmentDirection::Right,
            SegmentDirection::Right => SegmentDirection::Left,
            SegmentDirection::Up => SegmentDirection::Down,
            SegmentDirection::Down => SegmentDirection::Up,
            SegmentDirection::Idle => SegmentDirection::Idle,
        }
    }

    /// True when `self` is the exact opposite of `other`. `Idle` reverses nothing.
    pub open spec fn reverses(self, other: SegmentDirection) -> bool {
        self != SegmentDirection::Idle && other == self.flipped()
    }

    /// The unit step `(dx, dy)` of this direction; `Idle` does not move.
    pub fn vector(self) -> (v: (i32, i32))
        ensures
            v.0 == self.dx(),
            v.1 == self.dy(),
    {
        match self {
            SegmentDirection::Left => (-1, 0),
            SegmentDirection::Right => (1, 0),
            SegmentDirection::Up => (0, 1),
            SegmentDirection::Down => (0, -1),
            SegmentDirection::Idle => (0, 0),
        }
    }

    /// The direction pointing the other way.
    pub fn opposite(self) -> (d: SegmentDirection)
        ensures
            d == self.flipped(),
    {
        match self {
            SegmentDirection::Left => SegmentDirection::Right,
            SegmentDirection::Right => SegmentDirection::Left,
            SegmentDirection::Up => SegmentDirection::Down,
            SegmentDirection::Down => SegmentDirection::Up,
            SegmentDirection::Idle => SegmentDirection::Idle,
        }
    }

    /// Whether `self` is the exact opposite of `other`.
    pub fn is_opposite(self, other: SegmentDirection) -> (r: bool)
        ensures
            r == self.reverses(other),
    {
        self != SegmentDirection::Idle && other == self.opposite()
    }
}

/// The direction a tick commits to, given the buffered candidate and the
/// direction currently travelled: the candidate, unless there is none, it is
/// `Idle`, or it is the exact opposite of `current`.
pub open spec fn committed(
    candidate: Option<SegmentDirection>,
    current: SegmentDirection,
) -> SegmentDirection {
    match candidate {
        Some(d) => if d == SegmentDirection::Idle || d.reverses(current) {
            current
        } else {
            d
        },
        None => current,
    }
}

/// Single-slot staging area between asynchronous input and synchronous ticks.
pub struct DirectionBuffer {
    pending: Option<SegmentDirection>,
}

impl View for DirectionBuffer {
    type V = Option<SegmentDirection>;

    /// The candidate waiting for the next commit, if any.
    closed spec fn view(&self) -> Option<SegmentDirection> {
        self.pending
    }
}

impl DirectionBuffer {
    /// An empty buffer.
    pub fn new() -> (buffer: DirectionBuffer)
        ensures
            buffer@ == None::<SegmentDirection>,
    {
        DirectionBuffer { pending: None }
    }

    /// The candidate waiting for the next commit, if any.
    pub fn pending(&self) -> (p: Option<SegmentDirection>)
        ensures
            p == self@,
    {
        self.pending
    }

    /// Records `d` as the candidate, replacing any earlier one.
    pub fn submit(&mut self, d: SegmentDirection)
        ensures
            final(self)@ == Some(d),
    {
        self.pending = Some(d);
    }

    /// Drains the buffer and returns the direction to travel next: the
    /// candidate if it is neither `Idle` nor the exact opposite of `current`,
    /// otherwise `current`. A rejected candidate is dropped without notice.
    pub fn commit(&mut self, current: SegmentDirection) -> (d: SegmentDirection)
        ensures
            d == committed(old(self)@, current),
            final(self)@ == None::<SegmentDirection>,
    {
        let candidate = self.pending;
        self.pending = None;
        match candidate {
            Some(c) => if c == SegmentDirection::Idle || c.is_opposite(current) {
                current
            } else {
                c
            },
            None => current,
        }
    }
}

/// Reversal-rejection law: whatever was submitted, a commit never turns the
/// snake straight back on the direction it was travelling.
pub proof fn lemma_commit_never_reverses(
    candidate: Option<SegmentDirection>,
    current: SegmentDirection,
)
    ensures
        !committed(candidate, current).reverses(current),
        !current.reverses(committed(candidate, current)),
{
}

/// A commit leaves `Idle` only for a real direction, and never returns to it.
pub proof fn lemma_commit_keeps_moving(
    candidate: Option<SegmentDirection>,
    current: SegmentDirection,
)
    ensures
        current != SegmentDirection::Idle ==> committed(candidate, current)
            != SegmentDirection::Idle,
        committed(candidate, current) == current || candidate == Some(
            committed(candidate, current),
        ),
{
}

} // verus!
