//! The session: one snake, one grid, one food item, advanced tick by tick.

use vstd::prelude::*;
use crate::cell::Cell;
use crate::collision::{classified, classify, Outcome};
use crate::direction::{committed, SegmentDirection};
use crate::food::FoodSpawner;
use crate::grid::{lists, GridModel, GridWorld};
use crate::random::RandomSource;
use crate::snake::{
    initialise_snake, lemma_advanced_cells, SegmentOp, Snake, SnakeModel,
};

verus! {

/// Points scored for each food item eaten.
pub const FOOD_REWARD: u64 = 1;

/// Where a session stands.
#[derive(Debug, Clone, Copy, PartialEq, Eq, Structural)]
pub enum Phase {
    /// No direction has been accepted yet; the snake rests.
    Idle,
    /// The snake moves one cell per tick.
    Running,
    /// The snake ran into a wall or into itself. Terminal.
    GameOver,
    /// The snake fills the board: no cell is left for food. Terminal.
    Won,
}

/// The event that ends a session.
#[derive(Debug, Clone, Copy, PartialEq, Eq, Structural)]
pub enum SessionEvent {
    /// The snake died with this score.
    GameOver { final_score: u64 },
    /// The snake filled the board with this score.
    Win { final_score: u64 },
}

/// What one tick did.
#[derive(Debug)]
pub struct TickReport {
    /// How the step was classified; `None` where the snake did not try to
    /// move, because the session is over or has not begun.
    pub outcome: Option<Outcome>,
    /// What the renderer has to do, in order.
    pub ops: Vec<SegmentOp>,
    /// Set by the tick that ends the session, and by no other.
    pub event: Option<SessionEvent>,
    /// The score after the tick.
    pub score: u64,
}

/// Mathematical model of a session.
pub struct GameModel {
    /// The playing field.
    pub grid: GridModel,
    /// The snake.
    pub snake: SnakeModel,
    /// The cell of the food item; none exactly when the board is full.
    pub food: Option<Cell>,
}

impl GameModel {
    /// The invariant of every session: a well-formed snake that lies on the
    /// grid; food, where there is any, on a grid cell off the snake, and no
    /// food only where the snake fills the grid; a score below the length,
    /// since each point came with a new segment.
    pub open spec fn wf(self) -> bool {
        &&& self.grid.wf()
        &&& self.snake.wf()
        &&& forall|c: Cell| self.snake.cells().contains(c) ==> self.grid.contains(c)
        &&& match self.food {
            Some(c) => self.grid.is_free(self.snake.cells(), c),
            None => self.grid.full(self.snake.cells()),
        }
        &&& self.snake.score < self.snake.segments.len()
    }

    /// Where the session stands.
    pub open spec fn phase(self) -> Phase {
        if !self.snake.alive {
            Phase::GameOver
        } else if self.food is None {
            Phase::Won
        } else if self.snake.direction == SegmentDirection::Idle {
            Phase::Idle
        } else {
            Phase::Running
        }
    }

    /// The session has ended.
    pub open spec fn over(self) -> bool {
        self.phase() == Phase::GameOver || self.phase() == Phase::Won
    }

    /// The direction the next tick commits to.
    pub open spec fn heading(self) -> SegmentDirection {
        committed(self.snake.pending_direction, self.snake.direction)
    }

    /// Whether the next tick tries to move the snake.
    pub open spec fn moves(self) -> bool {
        !self.over() && self.heading() != SegmentDirection::Idle
    }

    /// The cell the head enters next: one step from the head in the
    /// committed direction.
    pub open spec fn candidate(self) -> Cell {
        Cell {
            x: (self.snake.head().cell.x + self.heading().dx()) as i32,
            y: (self.snake.head().cell.y + self.heading().dy()) as i32,
        }
    }

    /// How the next step is classified.
    pub open spec fn outcome(self) -> Outcome {
        classified(self.candidate(), self.grid, self.food, self.snake.cells_ahead_of_tail())
    }

    /// The session after one tick, where `new_food` is the cell of the food
    /// placed by that tick, which matters only if the snake eats.
    pub open spec fn ticked(self, new_food: Option<Cell>) -> GameModel {
        let drained = SnakeModel { pending_direction: None, ..self.snake };
        if self.over() {
            self
        } else if !self.moves() {
            GameModel { snake: drained, ..self }
        } else {
            match self.outcome() {
                Outcome::Wall | Outcome::SelfHit => GameModel {
                    snake: SnakeModel { alive: false, ..drained },
                    ..self
                },
                Outcome::Open => GameModel {
                    snake: drained.advanced(self.candidate(), false),
                    ..self
                },
                Outcome::Food => GameModel {
                    snake: SnakeModel {
                        score: (self.snake.score + FOOD_REWARD) as u64,
                        ..drained.advanced(self.candidate(), true)
                    },
                    food: new_food,
                    ..self
                },
            }
        }
    }

    /// The classification that the next tick reports.
    pub open spec fn tick_outcome(self) -> Option<Outcome> {
        if self.moves() {
            Some(self.outcome())
        } else {
            None
        }
    }

    /// The renderer operations that the next tick reports.
    pub open spec fn tick_ops(self) -> Seq<SegmentOp> {
        if !self.moves() {
            Seq::empty()
        } else {
            match self.outcome() {
                Outcome::Wall | Outcome::SelfHit => Seq::empty(),
                Outcome::Open => self.snake.advance_ops(self.candidate(), false),
                Outcome::Food => self.snake.advance_ops(self.candidate(), true),
            }
        }
    }

    /// The event that the next tick reports, given the food it placed.
    pub open spec fn tick_event(self, new_food: Option<Cell>) -> Option<SessionEvent> {
        if !self.moves() {
            None
        } else {
            match self.outcome() {
                Outcome::Wall | Outcome::SelfHit => Some(
                    SessionEvent::GameOver { final_score: self.snake.score },
                ),
                Outcome::Open => None,
                Outcome::Food => if new_food is None {
                    Some(SessionEvent::Win { final_score: (self.snake.score + FOOD_REWARD) as u64 })
                } else {
                    None
                },
            }
        }
    }
}

/// Whether a session can start from a snake lying on `cells`, head first,
/// with food on `food`: the snake needs at least a head, no cell twice, and
/// every cell on the grid; food, where a cell is named for it, needs a grid
/// cell off the snake.
pub open spec fn layout_fits(grid: GridModel, cells: Seq<Cell>, food: Option<Cell>) -> bool {
    &&& cells.len() > 0
    &&& cells.no_duplicates()
    &&& forall|i: int| 0 <= i < cells.len() ==> grid.contains(#[trigger] cells[i])
    &&& match food {
        Some(f) => grid.is_free(cells, f),
        None => true,
    }
}

/// One session of the game.
pub struct Game {
    grid: GridWorld,
    snake: Snake,
    spawner: FoodSpawner,
    rng: RandomSource,
}

impl View for Game {
    type V = GameModel;

    closed spec fn view(&self) -> GameModel {
        GameModel { grid: self.grid@, snake: self.snake@, food: self.spawner@ }
    }
}

impl Game {
    /// Starts a session on `grid`: the snake is a single head in the middle,
    /// at rest, and the food lies on a cell drawn from a source seeded with
    /// `seed`.
    pub fn new(grid: GridWorld, seed: u64) -> (game: Game)
        requires
            grid@.wf(),
        ensures
            game@.wf(),
            game@.grid == grid@,
            game@.snake == SnakeModel::single(grid@.center(), SegmentDirection::Idle),
            grid@.cell_count() > 1 ==> game@.food is Some && game@.phase() == Phase::Idle,
    {
        let snake = initialise_snake(&grid);
        let mut spawner = FoodSpawner::new();
        let mut rng = RandomSource::seeded(seed);
        let occupied = snake.cells();
        proof {
            occupied@.lemma_cardinality_of_set();
        }
        let _ = spawner.respawn(&grid, &occupied, &mut rng);
        let game = Game { grid, snake, spawner, rng };
        proof {
            assert forall|c: Cell| game@.snake.cells().contains(c) implies game@.grid.contains(
                c,
            ) by {
                assert(c == game@.snake.cells()[0]);
            }
        }
        game
    }

    /// Starts a session from a given position: the snake lies on `cells`,
    /// head first, travelling in `direction`, with no score. The food lies
    /// on `food` where a cell is named, else on a cell drawn from a source
    /// seeded with `seed`. There is no such session where the position does
    /// not fit the grid.
    pub fn with_layout(
        grid: GridWorld,
        cells: &Vec<Cell>,
        direction: SegmentDirection,
        food: Option<Cell>,
        seed: u64,
    ) -> (game: Option<Game>)
        requires
            grid@.wf(),
        ensures
            match game {
                Some(g) => g@.wf() && g@.grid == grid@ && g@.snake == SnakeModel::laid_out(
                    cells@,
                    direction,
                ) && (food is Some ==> g@.food == food) && layout_fits(grid@, cells@, food),
                None => !layout_fits(grid@, cells@, food),
            },
    {
        let snake = match Snake::from_cells(cells, direction) {
            Some(snake) => snake,
            None => {
                return None;
            },
        };
        let mut i: usize = 0;
        while i < cells.len()
            invariant
                i <= cells.len(),
                forall|j: int| 0 <= j < i ==> grid@.contains(#[trigger] cells@[j]),
            decreases cells.len() - i,
        {
            if !grid.contains(cells[i]) {
                return None;
            }
            i = i + 1;
        }
        let mut rng = RandomSource::seeded(seed);
        let spawner = match food {
            Some(f) => {
                if !grid.contains(f) || lists(cells, f) {
                    return None;
                }
                FoodSpawner::holding(f)
            },
            None => {
                let mut spawner = FoodSpawner::new();
                let _ = spawner.respawn(&grid, cells, &mut rng);
                spawner
            },
        };
        Some(Game { grid, snake, spawner, rng })
    }

    /// The playing field.
    pub fn grid(&self) -> (grid: &GridWorld)
        ensures
            grid@ == self@.grid,
    {
        &self.grid
    }

    /// The snake.
    pub fn snake(&self) -> (snake: &Snake)
        ensures
            snake@ == self@.snake,
    {
        &self.snake
    }

    /// The cell of the food item, if there is one.
    pub fn food(&self) -> (food: Option<Cell>)
        ensures
            food == self@.food,
    {
        self.spawner.cell()
    }

    /// Points scored so far.
    pub fn score(&self) -> (score: u64)
        ensures
            score == self@.snake.score,
    {
        self.snake.score()
    }

    /// Where the session stands.
    pub fn phase(&self) -> (phase: Phase)
        ensures
            phase == self@.phase(),
    {
        if !self.snake.is_alive() {
            Phase::GameOver
        } else if self.spawner.cell().is_none() {
            Phase::Won
        } else if self.snake.direction() == SegmentDirection::Idle {
            Phase::Idle
        } else {
            Phase::Running
        }
    }

    /// Hands a directional input to the session. It replaces any input
    /// still waiting and takes effect with the next tick. Input to a session
    /// that is over is dropped.
    pub fn submit(&mut self, d: SegmentDirection)
        ensures
            final(self)@ == (GameModel {
                snake: SnakeModel {
                    pending_direction: if old(self)@.over() {
                        old(self)@.snake.pending_direction
                    } else {
                        Some(d)
                    },
                    ..old(self)@.snake
                },
                ..old(self)@
            }),
    {
        if self.snake.is_alive() && self.spawner.cell().is_some() {
            self.snake.submit(d);
        }
    }

    /// Advances the session by one step. The waiting input is committed,
    /// the cell ahead of the head is classified, and the snake dies, grows
    /// or moves on accordingly; a snake that ate scores and new food is
    /// placed, or the session is won if no cell is left for it. A tick on a
    /// session that is over changes nothing.
    pub fn tick(&mut self) -> (report: TickReport)
        requires
            old(self)@.wf(),
        ensures
            final(self)@.wf(),
            final(self)@ == old(self)@.ticked(final(self)@.food),
            report.outcome == old(self)@.tick_outcome(),
            report.ops@ == old(self)@.tick_ops(),
            report.event == old(self)@.tick_event(final(self)@.food),
            report.score == final(self)@.snake.score,
            old(self)@.over() ==> final(self)@ == old(self)@,
            final(self)@.snake.score >= old(self)@.snake.score,
            match final(self)@.food {
                Some(c) => !final(self)@.snake.cells().contains(c),
                None => final(self)@.grid.full(final(self)@.snake.cells()),
            },
    {
        if !self.snake.is_alive() || self.spawner.cell().is_none() {
            return TickReport {
                outcome: None,
                ops: Vec::new(),
                event: None,
                score: self.snake.score(),
            };
        }
        let ghost before = self@;
        let direction = self.snake.commit_direction();
        if direction == SegmentDirection::Idle {
            return TickReport {
                outcome: None,
                ops: Vec::new(),
                event: None,
                score: self.snake.score(),
            };
        }
        let head = self.snake.head().cell;
        proof {
            assert(before.snake.cells()[0] == head);
            assert(before.grid.contains(head));
        }
        let candidate = match head.step(direction) {
            Some(c) => c,
            None => {
                proof {
                    assert(false);
                }
                head
            },
        };
        assert(candidate == before.candidate());
        let body = self.snake.cells_ahead_of_tail();
        let outcome = classify(candidate, &self.grid, self.spawner.cell(), &body);
        assert(outcome == before.outcome());
        match outcome {
            Outcome::Wall | Outcome::SelfHit => {
                self.snake.die();
                TickReport {
                    outcome: Some(outcome),
                    ops: Vec::new(),
                    event: Some(SessionEvent::GameOver { final_score: self.snake.score() }),
                    score: self.snake.score(),
                }
            },
            Outcome::Open => {
                proof {
                    lemma_advanced_cells(self.snake@, candidate, false);
                }
                let ops = self.snake.advance(candidate, false);
                TickReport { outcome: Some(outcome), ops, event: None, score: self.snake.score() }
            },
            Outcome::Food => {
                proof {
                    lemma_advanced_cells(self.snake@, candidate, true);
                }
                let ops = self.snake.advance(candidate, true);
                self.snake.award(FOOD_REWARD);
                let occupied = self.snake.cells();
                let event = match self.spawner.respawn(&self.grid, &occupied, &mut self.rng) {
                    Ok(_) => None,
                    Err(_) => Some(SessionEvent::Win { final_score: self.snake.score() }),
                };
                TickReport { outcome: Some(outcome), ops, event, score: self.snake.score() }
            },
        }
    }
}

} // verus!
