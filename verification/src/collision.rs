//! Classification of the cell the head is about to enter.

use vstd::prelude::*;
use crate::cell::Cell;
use crate::grid::{lists, GridModel, GridWorld};

verus! {

/// What entering a cell means for the snake.
#[derive(Debug, Clone, Copy, PartialEq, Eq, Structural)]
pub enum Outcome {
    /// The cell is free: the snake moves on.
    Open,
    /// The cell holds the food: the snake grows.
    Food,
    /// The cell lies outside the grid.
    Wall,
    /// The cell is taken by the snake's own body.
    SelfHit,
}

/// The outcome of entering `candidate`. Bounds are tested first, the body
/// second and the food last: the food never lies on a body cell, and a cell
/// off the grid is never a body cell, so no two cases compete.
pub open spec fn classified(
    candidate: Cell,
    grid: GridModel,
    food: Option<Cell>,
    body_cells: Seq<Cell>,
) -> Outcome {
    if !grid.contains(candidate) {
        Outcome::Wall
    } else if body_cells.contains(candidate) {
        Outcome::SelfHit
    } else if food == Some(candidate) {
        Outcome::Food
    } else {
        Outcome::Open
    }
}

/// Classifies the move of the head onto `candidate`. `body_cells` lists the
/// cells the body will still hold after the move, that is, without the tail
/// cell that is about to be vacated.
pub fn classify(candidate: Cell, grid: &GridWorld, food: Option<Cell>, body_cells: &Vec<Cell>) -> (outcome:
    Outcome)
    ensures
        outcome == classified(candidate, grid@, food, body_cells@),
{
    if !grid.contains(candidate) {
        Outcome::Wall
    } else if lists(body_cells, candidate) {
        Outcome::SelfHit
    } else {
        match food {
            Some(f) => if f == candidate {
                Outcome::Food
            } else {
                Outcome::Open
            },
            None => Outcome::Open,
        }
    }
}

} // verus!
