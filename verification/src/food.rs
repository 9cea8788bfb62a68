//! Food: the single collectible cell, and where the next one goes.

use vstd::prelude::*;
use crate::cell::Cell;
use crate::grid::GridWorld;
use crate::random::RandomSource;

verus! {

/// A food item lying on a cell.
#[derive(Debug, Clone, Copy, PartialEq, Eq, Structural)]
pub struct Food {
    pub cell: Cell,
}

/// No cell is left to place food on. This ends a session as a win.
#[derive(Debug, Clone, Copy, PartialEq, Eq, Structural)]
pub struct BoardFull;

/// Owner of the current food item, if there is one.
pub struct FoodSpawner {
    current: Option<Food>,
}

impl View for FoodSpawner {
    type V = Option<Cell>;

    /// The cell of the current food item.
    closed spec fn view(&self) -> Option<Cell> {
        match self.current {
            Some(food) => Some(food.cell),
            None => None,
        }
    }
}

impl FoodSpawner {
    /// A spawner with no food placed yet.
    pub fn new() -> (spawner: FoodSpawner)
        ensures
            spawner@ == None::<Cell>,
    {
        FoodSpawner { current: None }
    }

    /// A spawner whose food lies on `cell`.
    pub fn holding(cell: Cell) -> (spawner: FoodSpawner)
        ensures
            spawner@ == Some(cell),
    {
        FoodSpawner { current: Some(Food { cell }) }
    }

    /// The current food item, if there is one.
    pub fn current(&self) -> (food: Option<Food>)
        ensures
            match food {
                Some(f) => self@ == Some(f.cell),
                None => self@ == None::<Cell>,
            },
    {
        self.current
    }

    /// The cell of the current food item, if there is one.
    pub fn cell(&self) -> (cell: Option<Cell>)
        ensures
            cell == self@,
    {
        match self.current {
            Some(food) => Some(food.cell),
            None => None,
        }
    }

    /// Replaces the current food, if any, with a new item on a cell of
    /// `grid` that `occupied` does not list, each such cell with the same
    /// chance. Where every cell is listed no food is left and the board is
    /// reported full.
    pub fn respawn(&mut self, grid: &GridWorld, occupied: &Vec<Cell>, rng: &mut RandomSource) -> (placed:
        Result<Food, BoardFull>)
        requires
            grid@.wf(),
        ensures
            match placed {
                Ok(food) => final(self)@ == Some(food.cell) && grid@.is_free(occupied@, food.cell),
                Err(_) => final(self)@ == None::<Cell> && grid@.full(occupied@),
            },
            placed is Err <==> grid@.free_count(occupied@) == 0,
            occupied@.to_set().len() < grid@.cell_count() ==> placed is Ok,
    {
        match grid.random_empty_cell(occupied, rng) {
            Some(cell) => {
                let food = Food { cell };
                self.current = Some(food);
                Ok(food)
            },
            None => {
                self.current = None;
                Err(BoardFull)
            },
        }
    }
}

} // verus!
