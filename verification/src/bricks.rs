//! The brick grid: a fixed rectangular arrangement of brick cells,
//! each a rectangle plus an `active` flag. Cells are never destroyed
//! or reallocated; a destroyed brick is only switched off, and a
//! round restart switches every cell back on.

use vstd::prelude::*;

verus! {

use crate::geometry::coords_bounded;
use crate::geometry::Rect;

/// Rows in the grid.
pub const BRICK_ROW_COUNT: usize = 4;

/// Columns in the grid.
pub const BRICK_COLUMN_COUNT: usize = 8;

/// Left edge of the grid, in pixels.
pub const BRICK_BOARD_START_X: i64 = 150;

/// Top edge of the grid, in pixels.
pub const BRICK_BOARD_START_Y: i64 = 50;

/// Horizontal spacing between cells, in pixels.
pub const BRICK_OFFSET_X: u32 = 28;

/// Vertical spacing between cells, in pixels.
pub const BRICK_OFFSET_Y: u32 = 12;

/// Width of one brick, in pixels.
pub const BRICK_WIDTH: u32 = 40;

/// Height of one brick, in pixels.
pub const BRICK_HEIGHT: u32 = 16;

/// One cell of the grid: its fixed rectangle and whether it still
/// stands.
#[derive(Clone, Copy, Debug, PartialEq, Eq, Structural)]
pub struct Brick {
    /// Position and extent of the cell, fixed at layout time.
    pub rect: Rect,
    /// Whether the brick still stands; switched off on collision.
    pub active: bool,
}

impl Default for Brick {
    /// A zero-sized cell at the origin; bricks are active by default.
    fn default() -> (b: Brick)
        ensures
            b == (Brick { rect: Rect { x: 0, y: 0, width: 0, height: 0 }, active: true }),
    {
        Brick { rect: Rect { x: 0, y: 0, width: 0, height: 0 }, active: true }
    }
}

/// How many of the cells still stand.
pub open spec fn count_active(s: Seq<Brick>) -> int
    decreases s.len(),
{
    if s.len() == 0 {
        0
    } else {
        (if s[0].active {
            1int
        } else {
            0int
        }) + count_active(s.skip(1))
    }
}

/// The active count stays between zero and the number of cells.
pub proof fn lemma_count_active_bounds(s: Seq<Brick>)
    ensures
        0 <= count_active(s) <= s.len(),
    decreases s.len(),
{
    if s.len() > 0 {
        lemma_count_active_bounds(s.skip(1));
    }
}

/// When every cell stands, the active count is the number of cells.
pub proof fn lemma_count_active_all(s: Seq<Brick>)
    requires
        forall|i: int| 0 <= i < s.len() ==> s[i].active,
    ensures
        count_active(s) == s.len(),
    decreases s.len(),
{
    if s.len() > 0 {
        assert(forall|i: int| 0 <= i < s.skip(1).len() ==> s.skip(1)[i] == s[i + 1]);
        lemma_count_active_all(s.skip(1));
    }
}

/// The cell a deterministic left-to-right, top-to-bottom layout puts
/// at a given row and column: fixed spacing from the grid origin,
/// active from the start.
pub open spec fn grid_brick(
    row: int,
    column: int,
    cell_width: u32,
    cell_height: u32,
    offset_x: u32,
    offset_y: u32,
    origin_x: i64,
    origin_y: i64,
) -> Brick {
    Brick {
        rect: Rect {
            x: (origin_x + column * (cell_width + offset_x)) as i64,
            y: (origin_y + row * (cell_height + offset_y)) as i64,
            width: cell_width,
            height: cell_height,
        },
        active: true,
    }
}

/// Lay the grid out row-major: every cell gets its fixed rectangle
/// and starts active.
pub fn initialize_grid(
    rows: usize,
    columns: usize,
    cell_width: u32,
    cell_height: u32,
    offset_x: u32,
    offset_y: u32,
    origin_x: i64,
    origin_y: i64,
) -> (grid: Vec<Brick>)
    requires
        0 < rows <= 10_000,
        0 < columns <= 10_000,
        -1_000_000_000 <= origin_x <= 1_000_000_000,
        -1_000_000_000 <= origin_y <= 1_000_000_000,
        cell_width + offset_x <= 1_000_000,
        cell_height + offset_y <= 1_000_000,
    ensures
        grid@.len() == rows * columns,
        forall|i: int|
            0 <= i < grid@.len() ==> grid@[i] == grid_brick(
                i / columns as int,
                i % columns as int,
                cell_width,
                cell_height,
                offset_x,
                offset_y,
                origin_x,
                origin_y,
            ),
        forall|i: int| 0 <= i < grid@.len() ==> coords_bounded(#[trigger] grid@[i].rect),
{
    proof {
        assert(rows * columns <= 100_000_000) by (nonlinear_arith)
            requires
                0 < rows <= 10_000,
                0 < columns <= 10_000,
        ;
    }
    let total: usize = rows * columns;
    let stride_x: i64 = cell_width as i64 + offset_x as i64;
    let stride_y: i64 = cell_height as i64 + offset_y as i64;
    let mut grid: Vec<Brick> = Vec::new();
    let mut i: usize = 0;
    while i < total
        invariant
            0 <= i <= total,
            total == rows * columns,
            total <= 100_000_000,
            0 < columns <= 10_000,
            rows <= 10_000,
            -1_000_000_000 <= origin_x <= 1_000_000_000,
            -1_000_000_000 <= origin_y <= 1_000_000_000,
            0 <= stride_x <= 1_000_000,
            0 <= stride_y <= 1_000_000,
            stride_x == cell_width + offset_x,
            stride_y == cell_height + offset_y,
            grid@.len() == i,
            forall|j: int|
                0 <= j < i ==> grid@[j] == grid_brick(
                    j / columns as int,
                    j % columns as int,
                    cell_width,
                    cell_height,
                    offset_x,
                    offset_y,
                    origin_x,
                    origin_y,
                ),
            forall|j: int| 0 <= j < i ==> coords_bounded(#[trigger] grid@[j].rect),
        decreases total - i,
    {
        let row: usize = i / columns;
        let column: usize = i % columns;
        proof {
            assert(0 <= (i as int) % (columns as int) && (i as int) % (columns as int)
                < columns as int) by (nonlinear_arith)
                requires
                    0 < columns,
                    0 <= i,
            ;
            assert((i as int) / (columns as int) < rows as int) by (nonlinear_arith)
                requires
                    0 < columns,
                    0 <= i,
                    (i as int) < (rows as int) * (columns as int),
            ;
            assert(0 <= column * stride_x <= 10_000_000_000) by (nonlinear_arith)
                requires
                    0 <= column <= 10_000,
                    0 <= stride_x <= 1_000_000,
            ;
            assert(0 <= row * stride_y <= 10_000_000_000) by (nonlinear_arith)
                requires
                    0 <= row <= 10_000,
                    0 <= stride_y <= 1_000_000,
            ;
        }
        let x: i64 = origin_x + column as i64 * stride_x;
        let y: i64 = origin_y + row as i64 * stride_y;
        grid.push(
            Brick {
                rect: Rect { x, y, width: cell_width, height: cell_height },
                active: true,
            },
        );
        i = i + 1;
    }
    grid
}

/// Switch every cell back on; the layout is untouched, so resetting
/// never moves a brick.
pub fn reset_all(grid: &mut Vec<Brick>)
    ensures
        final(grid)@.len() == old(grid)@.len(),
        forall|i: int|
            0 <= i < old(grid)@.len() ==> final(grid)@[i] == (Brick {
                rect: old(grid)@[i].rect,
                active: true,
            }),
{
    let n: usize = grid.len();
    let mut i: usize = 0;
    while i < n
        invariant
            0 <= i <= n,
            grid@.len() == n,
            n == old(grid)@.len(),
            forall|j: int| i <= j < n ==> grid@[j] == old(grid)@[j],
            forall|j: int|
                0 <= j < i ==> grid@[j] == (Brick { rect: old(grid)@[j].rect, active: true }),
        decreases n - i,
    {
        let rect = grid[i].rect;
        grid.set(i, Brick { rect, active: true });
        i = i + 1;
    }
}

} // verus!
