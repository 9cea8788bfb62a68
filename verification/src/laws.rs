//! Laws of the session model, proved of every well-formed session.

use vstd::prelude::*;
use crate::cell::Cell;
use crate::collision::Outcome;
use crate::game::{GameModel, Phase, FOOD_REWARD};
use crate::snake::{lemma_advance_keeps_wf, lemma_advanced_cells, SegmentOp, SnakeModel};
use crate::vacancy::lemma_grid_cells_len;

verus! {

/// A running session moves with every tick: once a direction has been
/// accepted, no commit brings the snake back to rest.
pub proof fn lemma_running_session_moves(game: GameModel)
    requires
        game.phase() == Phase::Running,
    ensures
        game.moves(),
{
}

/// The cell ahead of the head is the head's neighbour in the committed
/// direction, and the coordinates of a snake on the grid leave room for it.
pub proof fn lemma_candidate_is_next_to_head(game: GameModel)
    requires
        game.wf(),
        game.moves(),
    ensures
        game.snake.head().cell.leads_to(game.heading(), game.candidate()),
        game.snake.head().cell.adjacent(game.candidate()),
        game.snake.head().cell.heading(game.candidate()) == game.heading(),
{
    assert(game.snake.cells()[0] == game.snake.head().cell);
    assert(game.grid.contains(game.snake.head().cell));
}

/// A snake never outgrows its grid.
pub proof fn lemma_snake_fits_grid(game: GameModel)
    requires
        game.wf(),
    ensures
        game.snake.segments.len() <= game.grid.cell_count(),
        game.grid.cell_count() <= i32::MAX * i32::MAX,
{
    let cells = game.snake.cells();
    cells.unique_seq_to_set();
    lemma_grid_cells_len(game.grid);
    assert(cells.to_set().subset_of(game.grid.cells()));
    vstd::set_lib::lemma_len_subset(cells.to_set(), game.grid.cells());
    assert(game.grid.width * game.grid.height <= i32::MAX * i32::MAX) by (nonlinear_arith)
        requires
            0 < game.grid.width <= i32::MAX,
            0 < game.grid.height <= i32::MAX,
    ;
}

/// Pure shift: where the cell ahead is open, the tick moves the head one
/// step in the committed direction, every other segment onto the cell of
/// the one ahead of it, so that the new tail lies where the segment before
/// the old tail lay, and the length, the score and the food stay as they
/// were.
pub proof fn lemma_open_tick_shifts(game: GameModel, new_food: Option<Cell>)
    requires
        game.wf(),
        game.moves(),
        game.outcome() == Outcome::Open,
    ensures
        ({
            let after = game.ticked(new_food);
            let n = game.snake.segments.len() as int;
            &&& after.snake.segments.len() == n
            &&& game.snake.head().cell.leads_to(game.heading(), after.snake.head().cell)
            &&& forall|i: int|
                0 < i < n ==> (#[trigger] after.snake.segments[i]).cell
                    == game.snake.segments[i - 1].cell
            &&& n >= 2 ==> after.snake.tail().cell == game.snake.segments[n - 2].cell
            &&& forall|i: int|
                0 <= i < n ==> (#[trigger] after.snake.segments[i]).id
                    == game.snake.segments[i].id
            &&& after.snake.direction == game.heading()
            &&& after.snake.score == game.snake.score
            &&& after.snake.alive
            &&& after.food == game.food
        }),
{
    lemma_candidate_is_next_to_head(game);
    let drained = SnakeModel { pending_direction: None, ..game.snake };
    assert(drained.cells() =~= game.snake.cells());
    assert(drained.accepts(game.candidate(), false));
}

/// Growth: where the cell ahead holds the food, the tick puts a new head
/// on it, leaves every other segment where it was, and so makes the snake
/// longer by exactly one; the score rises by exactly the reward.
pub proof fn lemma_food_tick_grows(game: GameModel, new_food: Option<Cell>)
    requires
        game.wf(),
        game.moves(),
        game.outcome() == Outcome::Food,
    ensures
        ({
            let after = game.ticked(new_food);
            let n = game.snake.segments.len() as int;
            &&& after.snake.segments.len() == n + 1
            &&& after.snake.score == game.snake.score + FOOD_REWARD
            &&& Some(after.snake.head().cell) == game.food
            &&& after.snake.head().id == n
            &&& forall|i: int|
                0 <= i < n ==> (#[trigger] after.snake.segments[i + 1]).cell
                    == game.snake.segments[i].cell
            &&& forall|i: int|
                0 <= i < n ==> (#[trigger] after.snake.segments[i + 1]).id
                    == game.snake.segments[i].id
            &&& after.snake.direction == game.heading()
            &&& after.snake.alive
            &&& after.food == new_food
        }),
{
    lemma_candidate_is_next_to_head(game);
    lemma_snake_fits_grid(game);
    let drained = SnakeModel { pending_direction: None, ..game.snake };
    assert(drained.cells() =~= game.snake.cells());
    assert(drained.accepts(game.candidate(), true));
}

/// A tick never turns the snake straight back: the direction after a step
/// is not the exact opposite of the direction before it.
pub proof fn lemma_tick_never_reverses(game: GameModel, new_food: Option<Cell>)
    requires
        game.wf(),
    ensures
        !game.ticked(new_food).snake.direction.reverses(game.snake.direction),
{
    if game.moves() {
        lemma_candidate_is_next_to_head(game);
        let drained = SnakeModel { pending_direction: None, ..game.snake };
        assert(drained.cells() =~= game.snake.cells());
    }
}

/// The end is final: a tick on a session that is over changes nothing and
/// reports nothing, however often it is repeated.
pub proof fn lemma_tick_after_end_changes_nothing(game: GameModel, new_food: Option<Cell>)
    requires
        game.over(),
    ensures
        game.ticked(new_food) == game,
        game.tick_outcome() is None,
        game.tick_ops() == Seq::<SegmentOp>::empty(),
        game.tick_event(new_food) is None,
{
}

/// Running into a wall or into the body ends the session: the tick leaves
/// the segments and the score as they were, and every later tick leaves the
/// whole session as that tick left it.
pub proof fn lemma_collision_is_terminal(
    game: GameModel,
    food_first: Option<Cell>,
    food_later: Option<Cell>,
)
    requires
        game.moves(),
        game.outcome() == Outcome::Wall || game.outcome() == Outcome::SelfHit,
    ensures
        ({
            let after = game.ticked(food_first);
            &&& after.phase() == Phase::GameOver
            &&& !after.snake.alive
            &&& after.snake.segments == game.snake.segments
            &&& after.snake.score == game.snake.score
            &&& after.food == game.food
            &&& after.ticked(food_later) == after
        }),
{
}

/// A dead snake does not advance: the step changes nothing and asks
/// nothing of the renderer.
pub proof fn lemma_dead_snake_stays(snake: SnakeModel, new_head: Cell, grew: bool)
    requires
        !snake.alive,
    ensures
        snake.advanced(new_head, grew) == snake,
        snake.advance_ops(new_head, grew) == Seq::<SegmentOp>::empty(),
{
}

/// Whether `new_food` is a placement that a tick of `game` may make: on a
/// grid cell off the snake as it lies after the tick, or nowhere if that
/// snake fills the grid. It binds only the tick in which the snake eats.
pub open spec fn placement_fits(game: GameModel, new_food: Option<Cell>) -> bool {
    game.moves() && game.outcome() == Outcome::Food ==> match new_food {
        Some(c) => game.grid.is_free(game.ticked(new_food).snake.cells(), c),
        None => game.grid.full(game.ticked(new_food).snake.cells()),
    }
}

/// A tick keeps the session well formed, never lowers the score, and
/// leaves the food, if any, off the snake.
pub proof fn lemma_tick_keeps_wf(game: GameModel, new_food: Option<Cell>)
    requires
        game.wf(),
        placement_fits(game, new_food),
    ensures
        game.ticked(new_food).wf(),
        game.ticked(new_food).snake.score >= game.snake.score,
        game.ticked(new_food).grid == game.grid,
        match game.ticked(new_food).food {
            Some(c) => !game.ticked(new_food).snake.cells().contains(c),
            None => true,
        },
{
    let after = game.ticked(new_food);
    let drained = SnakeModel { pending_direction: None, ..game.snake };
    assert(drained.cells() =~= game.snake.cells());
    assert(drained.segments == game.snake.segments);
    if game.moves() {
        lemma_candidate_is_next_to_head(game);
        lemma_snake_fits_grid(game);
        let candidate = game.candidate();
        match game.outcome() {
            Outcome::Wall | Outcome::SelfHit => {
                assert(after.snake.cells() =~= game.snake.cells());
            },
            Outcome::Open => {
                assert(drained.accepts(candidate, false));
                lemma_advance_keeps_wf(drained, candidate, false);
                lemma_advanced_cells(drained, candidate, false);
            },
            Outcome::Food => {
                assert(drained.accepts(candidate, true));
                lemma_advance_keeps_wf(drained, candidate, true);
                lemma_advanced_cells(drained, candidate, true);
                assert(after.snake.cells() =~= drained.advanced(candidate, true).cells());
            },
        }
    } else {
        assert(after.snake.cells() =~= game.snake.cells());
    }
}

} // verus!
