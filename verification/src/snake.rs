//! The snake's body: an ordered run of segments, head first.

use vstd::prelude::*;
use crate::cell::Cell;
use crate::direction::{committed, DirectionBuffer, SegmentDirection};
use crate::grid::GridWorld;

verus! {

/// The role of a segment within the body.
#[derive(PartialEq, Eq, Debug, Clone, Copy, Structural)]
pub enum SegmentType {
    Head,
    Body,
}

/// One unit of the body. `id` is the sequence number the segment was given
/// when it was created; it never changes and no two segments share one, so
/// a renderer can key its visuals by it.
#[derive(Debug, Clone, Copy, PartialEq, Eq, Structural)]
pub struct Segment {
    pub cell: Cell,
    pub t: SegmentType,
    pub id: u64,
}

impl Segment {
    /// A body segment on `cell` with sequence number `id`.
    pub fn body(cell: Cell, id: u64) -> (segment: Segment)
        ensures
            segment == (Segment { cell, t: SegmentType::Body, id }),
    {
        Segment { cell, t: SegmentType::Body, id }
    }
}

impl Default for Segment {
    /// The first head of a session: sequence number 0, at the origin.
    fn default() -> (segment: Segment)
        ensures
            segment == (Segment { cell: Cell { x: 0, y: 0 }, t: SegmentType::Head, id: 0 }),
    {
        Segment { cell: Cell { x: 0, y: 0 }, t: SegmentType::Head, id: 0 }
    }
}

/// A request to the renderer, which maps sequence numbers to its visuals.
#[derive(Debug, Clone, Copy, PartialEq, Eq, Structural)]
pub enum SegmentOp {
    /// Show a new segment with sequence number `id` on `cell`.
    Create { cell: Cell, id: u64 },
    /// Move the segment with sequence number `id` to `cell`.
    Move { id: u64, cell: Cell },
    /// Remove the segment with sequence number `id`.
    Destroy { id: u64 },
}

/// Mathematical model of a snake.
pub struct SnakeModel {
    /// The segments, head at index 0.
    pub segments: Seq<Segment>,
    /// The direction of the last step; `Idle` before the first one.
    pub direction: SegmentDirection,
    /// The input waiting for the next tick.
    pub pending_direction: Option<SegmentDirection>,
    /// False once the snake has run into a wall or into itself.
    pub alive: bool,
    /// Points scored so far.
    pub score: u64,
}

impl SnakeModel {
    /// The invariant of every snake: at least a head; no cell taken twice;
    /// the head alone has the head's role; sequence numbers count up from
    /// the tail, which has 0, to the head.
    pub open spec fn wf(self) -> bool {
        &&& self.segments.len() >= 1
        &&& self.cells().no_duplicates()
        &&& forall|i: int|
            0 <= i < self.segments.len() ==> (#[trigger] self.segments[i]).id
                == self.segments.len() - 1 - i
        &&& forall|i: int|
            0 <= i < self.segments.len() ==> (#[trigger] self.segments[i]).t == if i == 0 {
                SegmentType::Head
            } else {
                SegmentType::Body
            }
    }

    /// The cells of the segments, head first.
    pub open spec fn cells(self) -> Seq<Cell> {
        Seq::new(self.segments.len(), |i: int| self.segments[i].cell)
    }

    /// The cells the body still holds after a plain move: all but the tail's.
    pub open spec fn cells_ahead_of_tail(self) -> Seq<Cell> {
        self.cells().drop_last()
    }

    /// The segment the player steers.
    pub open spec fn head(self) -> Segment {
        self.segments[0]
    }

    /// The last segment.
    pub open spec fn tail(self) -> Segment {
        self.segments.last()
    }

    /// A snake of one head segment on `cell`, alive, with no score.
    pub open spec fn single(cell: Cell, direction: SegmentDirection) -> SnakeModel {
        SnakeModel {
            segments: seq![Segment { cell, t: SegmentType::Head, id: 0 }],
            direction,
            pending_direction: None,
            alive: true,
            score: 0,
        }
    }

    /// The snake that lies on `cells`, head first, alive, with no score.
    pub open spec fn laid_out(cells: Seq<Cell>, direction: SegmentDirection) -> SnakeModel {
        SnakeModel {
            segments: Seq::new(
                cells.len(),
                |i: int|
                    Segment {
                        cell: cells[i],
                        t: if i == 0 {
                            SegmentType::Head
                        } else {
                            SegmentType::Body
                        },
                        id: (cells.len() - 1 - i) as u64,
                    },
            ),
            direction,
            pending_direction: None,
            alive: true,
            score: 0,
        }
    }

    /// The segments after a plain move: the head takes `new_head`, every
    /// other segment the cell of the one ahead of it; the tail's old cell is
    /// left. No segment changes its role or its sequence number.
    pub open spec fn shifted(self, new_head: Cell) -> Seq<Segment> {
        Seq::new(
            self.segments.len(),
            |i: int|
                Segment {
                    cell: if i == 0 {
                        new_head
                    } else {
                        self.segments[i - 1].cell
                    },
                    t: self.segments[i].t,
                    id: self.segments[i].id,
                },
        )
    }

    /// The segments after growth: a new head on `new_head` with the next
    /// unused sequence number, in front of the old segments, which stay
    /// where they are; the old head becomes a body segment.
    pub open spec fn grown(self, new_head: Cell) -> Seq<Segment> {
        seq![Segment { cell: new_head, t: SegmentType::Head, id: self.segments.len() as u64 }]
            + Seq::new(
            self.segments.len(),
            |i: int|
                Segment {
                    cell: self.segments[i].cell,
                    t: SegmentType::Body,
                    id: self.segments[i].id,
                },
        )
    }

    /// Whether the snake can take `new_head` as its next head cell: it is
    /// alive, the cell shares an edge with the head's, and none of the
    /// segments that stay put holds it.
    pub open spec fn accepts(self, new_head: Cell, grew: bool) -> bool {
        &&& self.alive
        &&& self.head().cell.adjacent(new_head)
        &&& !(if grew {
            self.cells()
        } else {
            self.cells_ahead_of_tail()
        }).contains(new_head)
    }

    /// The snake after `advance(new_head, grew)`; unchanged where the step
    /// is not accepted.
    pub open spec fn advanced(self, new_head: Cell, grew: bool) -> SnakeModel {
        if !self.accepts(new_head, grew) {
            self
        } else {
            SnakeModel {
                segments: if grew {
                    self.grown(new_head)
                } else {
                    self.shifted(new_head)
                },
                direction: self.head().cell.heading(new_head),
                ..self
            }
        }
    }

    /// What `advance(new_head, grew)` asks of the renderer: nothing where
    /// the step is not accepted; one `Create` for the new head after growth;
    /// else one `Move` per segment, head first.
    pub open spec fn advance_ops(self, new_head: Cell, grew: bool) -> Seq<SegmentOp> {
        if !self.accepts(new_head, grew) {
            Seq::empty()
        } else if grew {
            seq![SegmentOp::Create { cell: new_head, id: self.segments.len() as u64 }]
        } else {
            Seq::new(
                self.segments.len(),
                |i: int|
                    SegmentOp::Move {
                        id: self.segments[i].id,
                        cell: if i == 0 {
                            new_head
                        } else {
                            self.segments[i - 1].cell
                        },
                    },
            )
        }
    }
}

/// A step keeps the snake well formed, whether it is accepted or not.
pub proof fn lemma_advance_keeps_wf(snake: SnakeModel, new_head: Cell, grew: bool)
    requires
        snake.wf(),
        snake.accepts(new_head, grew) && grew ==> snake.segments.len() < u64::MAX,
    ensures
        snake.advanced(new_head, grew).wf(),
        snake.advanced(new_head, grew).segments.len() == snake.segments.len() + if snake.accepts(
            new_head,
            grew,
        ) && grew {
            1int
        } else {
            0int
        },
{
    if snake.accepts(new_head, grew) {
        let after = snake.advanced(new_head, grew);
        let old_cells = snake.cells();
        let new_cells = after.cells();
        if grew {
            assert forall|i: int, j: int|
                0 <= i < new_cells.len() && 0 <= j < new_cells.len() && i != j implies new_cells[i]
                != new_cells[j] by {
                if i > 0 {
                    assert(new_cells[i] == old_cells[i - 1]);
                }
                if j > 0 {
                    assert(new_cells[j] == old_cells[j - 1]);
                }
            }
            assert forall|i: int| 0 <= i < after.segments.len() implies (
            #[trigger] after.segments[i]).id == after.segments.len() - 1 - i by {
                if i > 0 {
                    assert(after.segments[i].id == snake.segments[i - 1].id);
                }
            }
        } else {
            let ahead = snake.cells_ahead_of_tail();
            assert forall|i: int, j: int|
                0 <= i < new_cells.len() && 0 <= j < new_cells.len() && i != j implies new_cells[i]
                != new_cells[j] by {
                if i > 0 {
                    assert(new_cells[i] == old_cells[i - 1]);
                    assert(ahead[i - 1] == old_cells[i - 1]);
                }
                if j > 0 {
                    assert(new_cells[j] == old_cells[j - 1]);
                    assert(ahead[j - 1] == old_cells[j - 1]);
                }
            }
        }
    }
}

/// After an accepted step the snake lies on the new head cell followed by
/// the cells it kept: all of them after growth, all but the tail's after a
/// plain move.
pub proof fn lemma_advanced_cells(snake: SnakeModel, new_head: Cell, grew: bool)
    requires
        snake.wf(),
        snake.accepts(new_head, grew),
    ensures
        snake.advanced(new_head, grew).cells() == seq![new_head] + if grew {
            snake.cells()
        } else {
            snake.cells_ahead_of_tail()
        },
        forall|c: Cell|
            snake.advanced(new_head, grew).cells().contains(c) ==> c == new_head
                || snake.cells().contains(c),
        snake.advanced(new_head, grew).cells().contains(new_head),
        grew ==> forall|c: Cell|
            snake.cells().contains(c) ==> snake.advanced(new_head, grew).cells().contains(c),
{
    let after = snake.advanced(new_head, grew).cells();
    let kept = if grew {
        snake.cells()
    } else {
        snake.cells_ahead_of_tail()
    };
    assert(after =~= seq![new_head] + kept);
    assert(after[0] == new_head);
    assert forall|c: Cell| after.contains(c) implies c == new_head || snake.cells().contains(
        c,
    ) by {
        let i = choose|i: int| 0 <= i < after.len() && after[i] == c;
        if i > 0 {
            assert(snake.cells()[i - 1] == c);
        }
    }
    if grew {
        assert forall|c: Cell| snake.cells().contains(c) implies after.contains(c) by {
            let i = choose|i: int| 0 <= i < snake.cells().len() && snake.cells()[i] == c;
            assert(after[i + 1] == c);
        }
    }
}

/// The snake: its segments, the direction it travels in, the input waiting
/// for the next tick, whether it is alive, and its score.
pub struct Snake {
    segments: Vec<Segment>,
    direction: SegmentDirection,
    pending_direction: DirectionBuffer,
    alive: bool,
    score: u64,
}

impl View for Snake {
    type V = SnakeModel;

    closed spec fn view(&self) -> SnakeModel {
        SnakeModel {
            segments: self.segments@,
            direction: self.direction,
            pending_direction: self.pending_direction@,
            alive: self.alive,
            score: self.score,
        }
    }
}

impl Snake {
    /// A snake of one head segment on `pos`, travelling in `dir`.
    pub fn new(pos: Cell, dir: SegmentDirection) -> (snake: Snake)
        ensures
            snake@ == SnakeModel::single(pos, dir),
            snake@.wf(),
    {
        let mut segments: Vec<Segment> = Vec::new();
        segments.push(Segment { cell: pos, t: SegmentType::Head, id: 0 });
        let snake = Snake {
            segments,
            direction: dir,
            pending_direction: DirectionBuffer::new(),
            alive: true,
            score: 0,
        };
        assert(snake@.segments =~= SnakeModel::single(pos, dir).segments);
        snake
    }

    /// The snake that lies on `cells`, head first, travelling in
    /// `direction`, with sequence numbers counting up from the tail. There
    /// is none where `cells` is empty or names a cell twice.
    pub fn from_cells(cells: &Vec<Cell>, direction: SegmentDirection) -> (snake: Option<Snake>)
        ensures
            match snake {
                Some(s) => s@ == SnakeModel::laid_out(cells@, direction) && s@.wf() && s@.cells()
                    == cells@,
                None => cells@.len() == 0 || !cells@.no_duplicates(),
            },
    {
        let n = cells.len();
        if n == 0 {
            return None;
        }
        let mut segments: Vec<Segment> = Vec::new();
        let mut i: usize = 0;
        while i < n
            invariant
                i <= n,
                n == cells.len(),
                segments.len() == i,
                forall|j: int|
                    0 <= j < i ==> #[trigger] segments@[j] == SnakeModel::laid_out(
                        cells@,
                        direction,
                    ).segments[j],
                forall|j: int, k: int| 0 <= j < k < i ==> cells@[j] != cells@[k],
            decreases n - i,
        {
            let cell = cells[i];
            let mut j: usize = 0;
            while j < i
                invariant
                    j <= i < n,
                    n == cells.len(),
                    cell == cells@[i as int],
                    forall|k: int| 0 <= k < j ==> cells@[k] != cell,
                decreases i - j,
            {
                if cells[j] == cell {
                    return None;
                }
                j = j + 1;
            }
            let t = if i == 0 {
                SegmentType::Head
            } else {
                SegmentType::Body
            };
            segments.push(Segment { cell, t, id: (n - 1 - i) as u64 });
            i = i + 1;
        }
        let snake = Snake {
            segments,
            direction,
            pending_direction: DirectionBuffer::new(),
            alive: true,
            score: 0,
        };
        assert(snake@.segments =~= SnakeModel::laid_out(cells@, direction).segments);
        assert(snake@.cells() =~= cells@);
        Some(snake)
    }

    /// Number of segments.
    pub fn len(&self) -> (n: usize)
        ensures
            n == self@.segments.len(),
    {
        self.segments.len()
    }

    /// The segments, head first.
    pub fn segments(&self) -> (segments: &Vec<Segment>)
        ensures
            segments@ == self@.segments,
    {
        &self.segments
    }

    /// The head segment.
    pub fn head(&self) -> (head: Segment)
        requires
            self@.wf(),
        ensures
            head == self@.head(),
    {
        self.segments[0]
    }

    /// The direction of the last step.
    pub fn direction(&self) -> (d: SegmentDirection)
        ensures
            d == self@.direction,
    {
        self.direction
    }

    /// The input waiting for the next tick, if any.
    pub fn pending_direction(&self) -> (d: Option<SegmentDirection>)
        ensures
            d == self@.pending_direction,
    {
        self.pending_direction.pending()
    }

    /// Whether the snake is still alive.
    pub fn is_alive(&self) -> (alive: bool)
        ensures
            alive == self@.alive,
    {
        self.alive
    }

    /// Points scored so far.
    pub fn score(&self) -> (score: u64)
        ensures
            score == self@.score,
    {
        self.score
    }

    /// Records `d` as the input for the next tick, replacing any earlier
    /// one. Input to a dead snake is dropped.
    pub fn submit(&mut self, d: SegmentDirection)
        ensures
            final(self)@ == (SnakeModel {
                pending_direction: if old(self)@.alive {
                    Some(d)
                } else {
                    old(self)@.pending_direction
                },
                ..old(self)@
            }),
    {
        if self.alive {
            self.pending_direction.submit(d);
        }
    }

    /// Drains the waiting input and returns the direction for the next
    /// step: the input, unless there is none, it is `Idle`, or it is the
    /// exact opposite of the direction travelled.
    pub fn commit_direction(&mut self) -> (d: SegmentDirection)
        ensures
            d == committed(old(self)@.pending_direction, old(self)@.direction),
            final(self)@ == (SnakeModel { pending_direction: None, ..old(self)@ }),
    {
        self.pending_direction.commit(self.direction)
    }

    /// Marks the snake as dead. Nothing else changes.
    pub fn die(&mut self)
        ensures
            final(self)@ == (SnakeModel { alive: false, ..old(self)@ }),
    {
        self.alive = false;
    }

    /// Adds `points` to the score.
    pub fn award(&mut self, points: u64)
        requires
            old(self)@.score + points <= u64::MAX,
        ensures
            final(self)@ == (SnakeModel {
                score: (old(self)@.score + points) as u64,
                ..old(self)@
            }),
    {
        self.score = self.score + points;
    }

    /// Moves the head to `new_head`. Without growth every segment takes the
    /// cell of the one ahead of it and the tail's cell is left; with growth
    /// a new head segment is put in front and all others stay. The direction
    /// becomes that of the step. A dead snake does not move, and neither
    /// does a live one asked to step anywhere but onto a neighbouring cell
    /// that none of its remaining segments holds. Returns what the renderer
    /// has to do, which is nothing where the snake did not move.
    pub fn advance(&mut self, new_head: Cell, grew: bool) -> (ops: Vec<SegmentOp>)
        requires
            old(self)@.wf(),
        ensures
            final(self)@ == old(self)@.advanced(new_head, grew),
            ops@ == old(self)@.advance_ops(new_head, grew),
            final(self)@.wf(),
            !old(self)@.alive ==> final(self)@ == old(self)@,
    {
        let mut ops: Vec<SegmentOp> = Vec::new();
        if !self.alive {
            return ops;
        }
        let heading = self.segments[0].cell.direction_to(new_head);
        if heading == SegmentDirection::Idle {
            return ops;
        }
        let n = self.segments.len();
        let held = self.leading_cells(if grew {
            n
        } else {
            n - 1
        });
        proof {
            assert(self@.cells().take(n as int) =~= self@.cells());
            assert(self@.cells().take(n - 1) =~= self@.cells_ahead_of_tail());
        }
        if crate::grid::lists(&held, new_head) {
            return ops;
        }
        let ghost before = self@;
        if grew {
            let mut segments: Vec<Segment> = Vec::new();
            segments.push(Segment { cell: new_head, t: SegmentType::Head, id: n as u64 });
            let mut i: usize = 0;
            while i < n
                invariant
                    i <= n,
                    n == self.segments.len(),
                    self@ == before,
                    segments.len() == i + 1,
                    forall|j: int|
                        0 <= j < i + 1 ==> #[trigger] segments@[j] == before.grown(new_head)[j],
                decreases n - i,
            {
                let s = self.segments[i];
                segments.push(Segment { cell: s.cell, t: SegmentType::Body, id: s.id });
                i = i + 1;
            }
            assert(segments@ =~= before.grown(new_head));
            proof {
                lemma_advance_keeps_wf(before, new_head, grew);
            }
            self.segments = segments;
            ops.push(SegmentOp::Create { cell: new_head, id: n as u64 });
            assert(ops@ =~= before.advance_ops(new_head, grew));
        } else {
            let mut segments: Vec<Segment> = Vec::new();
            let mut i: usize = 0;
            while i < n
                invariant
                    i <= n,
                    n == self.segments.len(),
                    self@ == before,
                    before.accepts(new_head, grew),
                    !grew,
                    segments.len() == i,
                    ops.len() == i,
                    forall|j: int|
                        0 <= j < i ==> #[trigger] segments@[j] == before.shifted(new_head)[j],
                    forall|j: int|
                        0 <= j < i ==> #[trigger] ops@[j] == before.advance_ops(new_head, grew)[j],
                decreases n - i,
            {
                let s = self.segments[i];
                let cell = if i == 0 {
                    new_head
                } else {
                    self.segments[i - 1].cell
                };
                segments.push(Segment { cell, t: s.t, id: s.id });
                ops.push(SegmentOp::Move { id: s.id, cell });
                i = i + 1;
            }
            assert(segments@ =~= before.shifted(new_head));
            assert(ops@ =~= before.advance_ops(new_head, grew));
            proof {
                lemma_advance_keeps_wf(before, new_head, grew);
            }
            self.segments = segments;
        }
        self.direction = heading;
        ops
    }

    /// What the renderer has to do when the session is cleared away: one
    /// `Destroy` per segment, head first. The snake itself is left as it is.
    pub fn teardown(&self) -> (ops: Vec<SegmentOp>)
        ensures
            ops@ == Seq::new(
                self@.segments.len(),
                |i: int| SegmentOp::Destroy { id: self@.segments[i].id },
            ),
    {
        let mut ops: Vec<SegmentOp> = Vec::new();
        let mut i: usize = 0;
        while i < self.segments.len()
            invariant
                i <= self.segments.len(),
                ops.len() == i,
                forall|j: int|
                    0 <= j < i ==> #[trigger] ops@[j] == (SegmentOp::Destroy {
                        id: self@.segments[j].id,
                    }),
            decreases self.segments.len() - i,
        {
            ops.push(SegmentOp::Destroy { id: self.segments[i].id });
            i = i + 1;
        }
        assert(ops@ =~= Seq::new(
            self@.segments.len(),
            |i: int| SegmentOp::Destroy { id: self@.segments[i].id },
        ));
        ops
    }

    /// The first `count` cells of the body, head first.
    fn leading_cells(&self, count: usize) -> (cells: Vec<Cell>)
        requires
            count <= self@.segments.len(),
        ensures
            cells@ == self@.cells().take(count as int),
    {
        let mut cells: Vec<Cell> = Vec::new();
        let mut i: usize = 0;
        while i < count
            invariant
                i <= count <= self.segments.len(),
                cells@ == self@.cells().take(i as int),
            decreases count - i,
        {
            cells.push(self.segments[i].cell);
            i = i + 1;
            assert(cells@ =~= self@.cells().take(i as int));
        }
        cells
    }

    /// The cells of all segments, head first.
    pub fn cells(&self) -> (cells: Vec<Cell>)
        ensures
            cells@ == self@.cells(),
    {
        let cells = self.leading_cells(self.segments.len());
        assert(self@.cells().take(self.segments.len() as int) =~= self@.cells());
        cells
    }

    /// The cells of all segments but the tail, head first: the cells that
    /// stay taken when the snake moves without growing.
    pub fn cells_ahead_of_tail(&self) -> (cells: Vec<Cell>)
        requires
            self@.wf(),
        ensures
            cells@ == self@.cells_ahead_of_tail(),
    {
        let cells = self.leading_cells(self.segments.len() - 1);
        assert(self@.cells().take(self.segments.len() - 1) =~= self@.cells().drop_last());
        cells
    }
}

/// Starts a session's snake: a single head segment in the middle of the
/// grid, not yet moving.
pub fn initialise_snake(grid: &GridWorld) -> (snake: Snake)
    requires
        grid@.wf(),
    ensures
        snake@ == SnakeModel::single(grid@.center(), SegmentDirection::Idle),
        snake@.wf(),
        grid@.contains(snake@.head().cell),
{
    Snake::new(grid.center(), SegmentDirection::Idle)
}

} // verus!
