//! The playing field: static bounds and the search for unoccupied cells.

use vstd::prelude::*;
use crate::cell::Cell;
use crate::random::RandomSource;
use crate::vacancy::{
    cell_at, free_in_row, free_in_rows, lemma_fewer_cells_leave_room, lemma_free_in_row_grows,
    lemma_free_in_rows_grows, lemma_no_free_cell_iff_full, lemma_rank_below_count,
};

verus! {

/// Edge length, in pixels, of one cell of the default viewport layout.
pub const CELL_SIZE: u32 = 8;

/// Mathematical model of a grid: its extent in cells.
pub struct GridModel {
    pub width: int,
    pub height: int,
}

impl GridModel {
    /// Both extents are positive and fit the coordinate type.
    pub open spec fn wf(self) -> bool {
        0 < self.width <= i32::MAX && 0 < self.height <= i32::MAX
    }

    /// `0 <= x < width` and `0 <= y < height`.
    pub open spec fn contains(self, c: Cell) -> bool {
        0 <= c.x < self.width && 0 <= c.y < self.height
    }

    /// Number of cells of the grid.
    pub open spec fn cell_count(self) -> int {
        self.width * self.height
    }

    /// The cell in the middle of the grid; of the two middle columns or rows
    /// of an even extent, the one with the higher coordinate.
    pub open spec fn center(self) -> Cell {
        Cell { x: (self.width / 2) as i32, y: (self.height / 2) as i32 }
    }

    /// True when `c` lies on the grid and is not listed in `occupied`.
    pub open spec fn is_free(self, occupied: Seq<Cell>, c: Cell) -> bool {
        self.contains(c) && !occupied.contains(c)
    }
}

/// Why a grid could not be built.
#[derive(Debug, Clone, Copy, PartialEq, Eq, Structural)]
pub enum GridError {
    /// A width or height of zero or less was asked for.
    NonPositive,
    /// The cell size is zero.
    ZeroCellSize,
    /// The cell size does not evenly divide the viewport.
    Misaligned,
    /// The grid would have more columns or rows than a coordinate can name.
    TooLarge,
}

/// Static bounds of the playing field, in cells.
#[derive(Debug, Clone, Copy)]
pub struct GridWorld {
    width: i32,
    height: i32,
}

impl View for GridWorld {
    type V = GridModel;

    closed spec fn view(&self) -> GridModel {
        GridModel { width: self.width as int, height: self.height as int }
    }
}

/// The grid that a viewport of the given pixel size yields when it is cut
/// into square cells of `cell` pixels, or the reason why there is none.
pub open spec fn viewport_grid(width: u32, height: u32, cell: u32) -> Result<GridModel, GridError> {
    if cell == 0 {
        Err(GridError::ZeroCellSize)
    } else if width % cell != 0 || height % cell != 0 {
        Err(GridError::Misaligned)
    } else if width == 0 || height == 0 {
        Err(GridError::NonPositive)
    } else if width / cell > i32::MAX || height / cell > i32::MAX {
        Err(GridError::TooLarge)
    } else {
        Ok(GridModel { width: (width / cell) as int, height: (height / cell) as int })
    }
}

impl GridWorld {
    /// A grid of `width` by `height` cells. Both must be positive: a session
    /// is never started on an empty field.
    pub fn new(width: i32, height: i32) -> (grid: Result<GridWorld, GridError>)
        ensures
            match grid {
                Ok(g) => width > 0 && height > 0 && g@ == (GridModel {
                    width: width as int,
                    height: height as int,
                }) && g@.wf(),
                Err(e) => e == GridError::NonPositive && (width <= 0 || height <= 0),
            },
    {
        if width <= 0 || height <= 0 {
            Err(GridError::NonPositive)
        } else {
            Ok(GridWorld { width, height })
        }
    }

    /// The grid of a viewport of `width` by `height` pixels cut into square
    /// cells of `cell` pixels. The cell size must evenly divide both extents.
    pub fn from_viewport(width: u32, height: u32, cell: u32) -> (grid: Result<GridWorld, GridError>)
        ensures
            match grid {
                Ok(g) => viewport_grid(width, height, cell) == Ok::<GridModel, GridError>(g@)
                    && g@.wf(),
                Err(e) => viewport_grid(width, height, cell) == Err::<GridModel, GridError>(e),
            },
    {
        if cell == 0 {
            return Err(GridError::ZeroCellSize);
        }
        if width % cell != 0 || height % cell != 0 {
            return Err(GridError::Misaligned);
        }
        if width == 0 || height == 0 {
            return Err(GridError::NonPositive);
        }
        let columns: u32 = width / cell;
        let rows: u32 = height / cell;
        if columns > 0x7fff_ffff || rows > 0x7fff_ffff {
            return Err(GridError::TooLarge);
        }
        assert(columns > 0 && rows > 0) by (nonlinear_arith)
            requires
                cell > 0,
                width > 0,
                height > 0,
                width % cell == 0,
                height % cell == 0,
                columns == width / cell,
                rows == height / cell,
        ;
        Ok(GridWorld { width: columns as i32, height: rows as i32 })
    }

    /// Number of columns.
    pub fn width(&self) -> (w: i32)
        ensures
            w == self@.width,
    {
        self.width
    }

    /// Number of rows.
    pub fn height(&self) -> (h: i32)
        ensures
            h == self@.height,
    {
        self.height
    }

    /// Whether `cell` lies within the bounds.
    pub fn contains(&self, cell: Cell) -> (inside: bool)
        ensures
            inside == self@.contains(cell),
    {
        0 <= cell.x && cell.x < self.width && 0 <= cell.y && cell.y < self.height
    }

    /// Number of cells of the grid that `occupied` does not list.
    pub fn count_empty(&self, occupied: &Vec<Cell>) -> (n: u64)
        ensures
            n == self@.free_count(occupied@),
    {
        let mut n: u64 = 0;
        let mut y: i32 = 0;
        while y < self.height
            invariant
                0 <= y,
                y == 0 || y <= self.height,
                n == free_in_rows(occupied@, self.width as int, y as int),
            decreases self.height - y,
        {
            let mut x: i32 = 0;
            let ghost before = n;
            while x < self.width
                invariant
                    0 <= x,
                    x == 0 || x <= self.width,
                    0 <= y < self.height,
                    before == free_in_rows(occupied@, self.width as int, y as int),
                    n == before + free_in_row(occupied@, y as int, x as int),
                decreases self.width - x,
            {
                proof {
                    lemma_free_in_rows_grows(occupied@, self.width as int, y as int, y as int);
                    lemma_free_in_row_grows(occupied@, y as int, x as int, x as int);
                    assert(y * self.width <= 0x7fff_ffff * 0x7fff_ffff) by (nonlinear_arith)
                        requires
                            0 <= y <= 0x7fff_ffff,
                            0 < self.width <= 0x7fff_ffff,
                    ;
                    assert(cell_at(x as int, y as int) == (Cell { x, y }));
                }
                if !lists(occupied, Cell { x, y }) {
                    n = n + 1;
                }
                x = x + 1;
            }
            y = y + 1;
        }
        n
    }

    /// The free cell that `k` free cells precede in row-major order (rows by
    /// rising `y`, each row by rising `x`), or `None` when the grid has no
    /// more than `k` free cells.
    pub fn nth_empty_cell(&self, occupied: &Vec<Cell>, k: u64) -> (found: Option<Cell>)
        ensures
            match found {
                Some(c) => self@.is_free(occupied@, c) && self@.rank(occupied@, c) == k,
                None => self@.free_count(occupied@) <= k,
            },
    {
        let mut n: u64 = 0;
        let mut y: i32 = 0;
        while y < self.height
            invariant
                0 <= y,
                y == 0 || y <= self.height,
                n == free_in_rows(occupied@, self.width as int, y as int),
                n <= k,
            decreases self.height - y,
        {
            let mut x: i32 = 0;
            let ghost before = n;
            while x < self.width
                invariant
                    0 <= x,
                    x == 0 || x <= self.width,
                    0 <= y < self.height,
                    before == free_in_rows(occupied@, self.width as int, y as int),
                    n == before + free_in_row(occupied@, y as int, x as int),
                    n <= k,
                decreases self.width - x,
            {
                let c = Cell { x, y };
                proof {
                    assert(cell_at(x as int, y as int) == c);
                }
                if !lists(occupied, c) {
                    if n == k {
                        return Some(c);
                    }
                    n = n + 1;
                }
                x = x + 1;
            }
            y = y + 1;
        }
        None
    }

    /// Picks an unoccupied cell, each with the same chance: it counts the
    /// free cells, draws an index below that count from `rng` and returns
    /// the free cell of that rank. Fails only when every cell is occupied.
    pub fn random_empty_cell(&self, occupied: &Vec<Cell>, rng: &mut RandomSource) -> (found:
        Option<Cell>)
        requires
            self@.wf(),
        ensures
            match found {
                Some(c) => self@.is_free(occupied@, c),
                None => self@.full(occupied@),
            },
            found is None <==> self@.free_count(occupied@) == 0,
            occupied@.to_set().len() < self@.cell_count() ==> found is Some,
    {
        proof {
            lemma_no_free_cell_iff_full(self@, occupied@);
            if occupied@.to_set().len() < self@.cell_count() {
                lemma_fewer_cells_leave_room(self@, occupied@);
            }
        }
        let free = self.count_empty(occupied);
        match rng.below(free) {
            Some(k) => {
                let found = self.nth_empty_cell(occupied, k);
                proof {
                    if let Some(c) = found {
                        lemma_rank_below_count(self@, occupied@, c);
                    }
                }
                found
            },
            None => None,
        }
    }

    /// The start cell of a session: the middle of the grid.
    pub fn center(&self) -> (c: Cell)
        requires
            self@.wf(),
        ensures
            c == self@.center(),
            self@.contains(c),
    {
        Cell { x: self.width / 2, y: self.height / 2 }
    }
}

/// Whether `cell` is one of `cells`.
pub fn lists(cells: &Vec<Cell>, cell: Cell) -> (listed: bool)
    ensures
        listed == cells@.contains(cell),
{
    let mut i: usize = 0;
    while i < cells.len()
        invariant
            i <= cells.len(),
            forall|j: int| 0 <= j < i ==> cells@[j] != cell,
        decreases cells.len() - i,
    {
        if cells[i] == cell {
            return true;
        }
        i = i + 1;
    }
    false
}

} // verus!
