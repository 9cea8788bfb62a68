//! Counting the unoccupied cells of a grid in row-major order.
//!
//! Rows are walked from `y = 0` upwards and each row from `x = 0` upwards.
//! The rank of a cell is the number of free cells that this walk meets
//! before it; the free cell of rank `k` is the `k`-th free cell of the walk.

use vstd::prelude::*;
use crate::cell::Cell;
use crate::grid::GridModel;

verus! {

/// The cell with the given coordinates.
pub open spec fn cell_at(x: int, y: int) -> Cell {
    Cell { x: x as i32, y: y as i32 }
}

/// Number of cells of row `y` with `0 <= x < upto` that `occupied` does not list.
pub open spec fn free_in_row(occupied: Seq<Cell>, y: int, upto: int) -> nat
    decreases upto,
{
    if upto <= 0 {
        0
    } else {
        free_in_row(occupied, y, upto - 1) + if occupied.contains(cell_at(upto - 1, y)) {
            0nat
        } else {
            1nat
        }
    }
}

/// Number of cells in the rows `0 <= y < upto` of a grid `width` cells wide
/// that `occupied` does not list.
pub open spec fn free_in_rows(occupied: Seq<Cell>, width: int, upto: int) -> nat
    decreases upto,
{
    if upto <= 0 {
        0
    } else {
        free_in_rows(occupied, width, upto - 1) + free_in_row(occupied, upto - 1, width)
    }
}

impl GridModel {
    /// Number of cells of the grid that `occupied` does not list.
    pub open spec fn free_count(self, occupied: Seq<Cell>) -> nat {
        free_in_rows(occupied, self.width, self.height)
    }

    /// Number of free cells that come before `c` in row-major order.
    pub open spec fn rank(self, occupied: Seq<Cell>, c: Cell) -> nat {
        free_in_rows(occupied, self.width, c.y as int) + free_in_row(
            occupied,
            c.y as int,
            c.x as int,
        )
    }

    /// True when every cell of the grid is listed in `occupied`.
    pub open spec fn full(self, occupied: Seq<Cell>) -> bool {
        forall|c: Cell| self.contains(c) ==> occupied.contains(c)
    }
}

/// A row prefix holds no more free cells than cells, and no fewer free cells
/// than a shorter prefix of the same row.
pub proof fn lemma_free_in_row_grows(occupied: Seq<Cell>, y: int, shorter: int, longer: int)
    requires
        shorter <= longer,
    ensures
        free_in_row(occupied, y, shorter) <= free_in_row(occupied, y, longer),
        free_in_row(occupied, y, longer) <= if longer < 0 {
            0
        } else {
            longer
        },
    decreases longer,
{
    if longer > 0 {
        if shorter < longer {
            lemma_free_in_row_grows(occupied, y, shorter, longer - 1);
        } else {
            lemma_free_in_row_grows(occupied, y, longer - 1, longer - 1);
        }
    }
}

/// A block of rows holds no more free cells than cells, and no fewer free
/// cells than a shorter block.
pub proof fn lemma_free_in_rows_grows(occupied: Seq<Cell>, width: int, shorter: int, longer: int)
    requires
        shorter <= longer,
        0 <= width,
    ensures
        free_in_rows(occupied, width, shorter) <= free_in_rows(occupied, width, longer),
        free_in_rows(occupied, width, longer) <= if longer < 0 {
            0
        } else {
            longer * width
        },
    decreases longer,
{
    if longer > 0 {
        if shorter < longer {
            lemma_free_in_rows_grows(occupied, width, shorter, longer - 1);
        } else {
            lemma_free_in_rows_grows(occupied, width, longer - 1, longer - 1);
        }
        lemma_free_in_row_grows(occupied, longer - 1, width, width);
        assert(longer * width == (longer - 1) * width + width) by (nonlinear_arith);
    }
}

/// The rank of a free cell is below the number of free cells.
pub proof fn lemma_rank_below_count(grid: GridModel, occupied: Seq<Cell>, c: Cell)
    requires
        grid.wf(),
        grid.is_free(occupied, c),
    ensures
        grid.rank(occupied, c) < grid.free_count(occupied),
{
    let (x, y) = (c.x as int, c.y as int);
    assert(cell_at(x, y) == c);
    assert(free_in_row(occupied, y, x + 1) == free_in_row(occupied, y, x) + 1);
    lemma_free_in_row_grows(occupied, y, x + 1, grid.width);
    assert(free_in_rows(occupied, grid.width, y + 1) == free_in_rows(occupied, grid.width, y)
        + free_in_row(occupied, y, grid.width));
    lemma_free_in_rows_grows(occupied, grid.width, y + 1, grid.height);
}

/// Of two free cells, the one that comes later in row-major order has the
/// higher rank.
pub proof fn lemma_rank_increases(grid: GridModel, occupied: Seq<Cell>, a: Cell, b: Cell)
    requires
        grid.wf(),
        grid.is_free(occupied, a),
        grid.contains(b),
        a.y < b.y || (a.y == b.y && a.x < b.x),
    ensures
        grid.rank(occupied, a) < grid.rank(occupied, b),
{
    let (ax, ay) = (a.x as int, a.y as int);
    let (bx, by) = (b.x as int, b.y as int);
    assert(cell_at(ax, ay) == a);
    assert(free_in_row(occupied, ay, ax + 1) == free_in_row(occupied, ay, ax) + 1);
    if ay == by {
        lemma_free_in_row_grows(occupied, ay, ax + 1, bx);
    } else {
        lemma_free_in_row_grows(occupied, ay, ax + 1, grid.width);
        assert(free_in_rows(occupied, grid.width, ay + 1) == free_in_rows(
            occupied,
            grid.width,
            ay,
        ) + free_in_row(occupied, ay, grid.width));
        lemma_free_in_rows_grows(occupied, grid.width, ay + 1, by);
    }
}

/// The rank names a free cell: two free cells of one rank are one cell.
pub proof fn lemma_rank_is_unique(grid: GridModel, occupied: Seq<Cell>, a: Cell, b: Cell)
    requires
        grid.wf(),
        grid.is_free(occupied, a),
        grid.is_free(occupied, b),
        grid.rank(occupied, a) == grid.rank(occupied, b),
    ensures
        a == b,
{
    if a.y < b.y || (a.y == b.y && a.x < b.x) {
        lemma_rank_increases(grid, occupied, a, b);
    } else if b.y < a.y || (b.y == a.y && b.x < a.x) {
        lemma_rank_increases(grid, occupied, b, a);
    }
}

/// A row prefix without free cells is listed cell by cell, and conversely.
proof fn lemma_row_without_free(occupied: Seq<Cell>, y: int, upto: int)
    ensures
        free_in_row(occupied, y, upto) == 0 <==> (forall|x: int|
            0 <= x < upto ==> occupied.contains(#[trigger] cell_at(x, y))),
    decreases upto,
{
    if upto > 0 {
        lemma_row_without_free(occupied, y, upto - 1);
        if free_in_row(occupied, y, upto) == 0 {
            assert forall|x: int| 0 <= x < upto implies occupied.contains(
                #[trigger] cell_at(x, y),
            ) by {
                if x < upto - 1 {
                } else {
                    assert(x == upto - 1);
                }
            }
        } else if free_in_row(occupied, y, upto - 1) == 0 {
            assert(!occupied.contains(cell_at(upto - 1, y)));
        }
    }
}

/// A block of rows without free cells is listed cell by cell, and conversely.
proof fn lemma_rows_without_free(occupied: Seq<Cell>, width: int, upto: int)
    ensures
        free_in_rows(occupied, width, upto) == 0 <==> (forall|x: int, y: int|
            0 <= x < width && 0 <= y < upto ==> occupied.contains(#[trigger] cell_at(x, y))),
    decreases upto,
{
    if upto > 0 {
        lemma_rows_without_free(occupied, width, upto - 1);
        lemma_row_without_free(occupied, upto - 1, width);
        if free_in_rows(occupied, width, upto) == 0 {
            assert forall|x: int, y: int| 0 <= x < width && 0 <= y < upto implies occupied.contains(
                #[trigger] cell_at(x, y),
            ) by {
                if y < upto - 1 {
                } else {
                    assert(y == upto - 1);
                }
            }
        } else if free_in_rows(occupied, width, upto - 1) == 0 {
            assert(free_in_row(occupied, upto - 1, width) != 0);
            let x = choose|x: int|
                0 <= x < width && !occupied.contains(#[trigger] cell_at(x, upto - 1));
            assert(!occupied.contains(cell_at(x, upto - 1)));
        }
    }
}

/// No cell is free exactly when the board is full.
pub proof fn lemma_no_free_cell_iff_full(grid: GridModel, occupied: Seq<Cell>)
    requires
        grid.wf(),
    ensures
        grid.free_count(occupied) == 0 <==> grid.full(occupied),
{
    lemma_rows_without_free(occupied, grid.width, grid.height);
    if grid.free_count(occupied) == 0 {
        assert forall|c: Cell| grid.contains(c) implies occupied.contains(c) by {
            assert(cell_at(c.x as int, c.y as int) == c);
        }
    }
    if grid.full(occupied) {
        assert forall|x: int, y: int|
            0 <= x < grid.width && 0 <= y < grid.height implies occupied.contains(
            #[trigger] cell_at(x, y),
        ) by {
            assert(grid.contains(cell_at(x, y)));
        }
    }
}

/// The cells of row `y` with `0 <= x < upto`.
pub open spec fn row_cells(y: int, upto: int) -> Set<Cell> {
    Set::new(|c: Cell| c.y == y && 0 <= c.x < upto)
}

/// The cells of the rows `0 <= y < upto` of a grid `width` cells wide.
pub open spec fn block_cells(width: int, upto: int) -> Set<Cell> {
    Set::new(|c: Cell| 0 <= c.x < width && 0 <= c.y < upto)
}

/// A row prefix of `upto` cells is a finite set of `upto` cells.
proof fn lemma_row_cells_len(y: int, upto: int)
    requires
        0 <= upto <= i32::MAX,
        0 <= y <= i32::MAX,
    ensures
        row_cells(y, upto).finite(),
        row_cells(y, upto).len() == upto,
    decreases upto,
{
    if upto == 0 {
        assert(row_cells(y, upto) =~= Set::<Cell>::empty());
    } else {
        lemma_row_cells_len(y, upto - 1);
        let last = cell_at(upto - 1, y);
        assert(row_cells(y, upto) =~= row_cells(y, upto - 1).insert(last));
        assert(!row_cells(y, upto - 1).contains(last));
    }
}

/// A block of `upto` rows is a finite set of `upto * width` cells.
proof fn lemma_block_cells_len(width: int, upto: int)
    requires
        0 <= width <= i32::MAX,
        0 <= upto <= i32::MAX,
    ensures
        block_cells(width, upto).finite(),
        block_cells(width, upto).len() == upto * width,
    decreases upto,
{
    if upto == 0 {
        assert(block_cells(width, upto) =~= Set::<Cell>::empty());
    } else {
        lemma_block_cells_len(width, upto - 1);
        lemma_row_cells_len(upto - 1, width);
        let below = block_cells(width, upto - 1);
        let row = row_cells(upto - 1, width);
        assert(block_cells(width, upto) =~= below + row);
        assert(below.disjoint(row));
        vstd::set_lib::lemma_set_disjoint_lens(below, row);
        assert(upto * width == (upto - 1) * width + width) by (nonlinear_arith);
    }
}

impl GridModel {
    /// The set of all cells of the grid.
    pub open spec fn cells(self) -> Set<Cell> {
        Set::new(|c: Cell| self.contains(c))
    }
}

/// A grid of `width` by `height` cells has `width * height` of them.
pub proof fn lemma_grid_cells_len(grid: GridModel)
    requires
        grid.wf(),
    ensures
        grid.cells().finite(),
        grid.cells().len() == grid.cell_count(),
{
    lemma_block_cells_len(grid.width, grid.height);
    assert(grid.cells() =~= block_cells(grid.width, grid.height));
    assert(grid.height * grid.width == grid.width * grid.height) by (nonlinear_arith);
}

/// A list that names fewer distinct cells than the grid has leaves a cell
/// free: a full board takes at least as many distinct cells as there are.
pub proof fn lemma_fewer_cells_leave_room(grid: GridModel, occupied: Seq<Cell>)
    requires
        grid.wf(),
        occupied.to_set().len() < grid.cell_count(),
    ensures
        grid.free_count(occupied) > 0,
        !grid.full(occupied),
{
    lemma_no_free_cell_iff_full(grid, occupied);
    lemma_grid_cells_len(grid);
    if grid.full(occupied) {
        vstd::seq_lib::seq_to_set_is_finite(occupied);
        assert(grid.cells().subset_of(occupied.to_set()));
        vstd::set_lib::lemma_len_subset(grid.cells(), occupied.to_set());
    }
}

/// A list shorter than the number of cells leaves a cell free.
pub proof fn lemma_short_list_leaves_room(grid: GridModel, occupied: Seq<Cell>)
    requires
        grid.wf(),
        occupied.len() < grid.cell_count(),
    ensures
        grid.free_count(occupied) > 0,
{
    occupied.lemma_cardinality_of_set();
    lemma_fewer_cells_leave_room(grid, occupied);
}

} // verus!
