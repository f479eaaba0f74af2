use vstd::prelude::*;

verus! {

/// Width of a drawn cell, in pixels.
pub const CELL_WIDTH: u32 = 20;

/// Height of a drawn cell, in pixels.
pub const CELL_HEIGHT: u32 = 20;

/// Width of the grid line between two cells, in pixels.
pub const LINE_SIZE: u32 = 1;

/// The cell index that pixel `p` falls in along one axis, where cells of
/// `cell` pixels are separated by lines of `LINE_SIZE` pixels; `None` for a
/// negative pixel and for the first and last pixel of each period.
pub open spec fn cell_index(p: int, cell: int) -> Option<int> {
    let period = cell + LINE_SIZE;
    if p < 0 || p % period == 0 || p % period == cell {
        None
    } else {
        Some(p / period)
    }
}

/// The pixel at which cell `c` starts along one axis.
pub open spec fn cell_start(c: int, cell: int) -> int {
    c * cell + LINE_SIZE * c
}

/// The cell under the cursor at pixel `(x, y)`, if the cursor is inside one.
pub fn get_cell_coord_by_cursor(x: i32, y: i32) -> (r: Option<(u32, u32)>)
    ensures
        r is None <==> cell_index(x as int, CELL_WIDTH as int) is None || cell_index(
            y as int,
            CELL_HEIGHT as int,
        ) is None,
        r is Some ==> {
            &&& cell_index(x as int, CELL_WIDTH as int) == Some(r->Some_0.0 as int)
            &&& cell_index(y as int, CELL_HEIGHT as int) == Some(r->Some_0.1 as int)
        },
{
    if x < 0 || y < 0 {
        return None;
    }
    let x = x as u32;
    let y = y as u32;

    let x_div_rem = x % (CELL_WIDTH + LINE_SIZE);
    if x_div_rem == 0 || x_div_rem == CELL_WIDTH {
        return None;
    }

    let y_div_rem = y % (CELL_HEIGHT + LINE_SIZE);
    if y_div_rem == 0 || y_div_rem == CELL_HEIGHT {
        return None;
    }

    let x_div = x / (CELL_WIDTH + LINE_SIZE);
    let y_div = y / (CELL_HEIGHT + LINE_SIZE);

    Some((x_div, y_div))
}

/// Top-left pixel of the rectangle in which cell `(cell_x, cell_y)` is drawn.
pub fn cell_origin(cell_x: u32, cell_y: u32) -> (r: (i32, i32))
    requires
        cell_start(cell_x as int, CELL_WIDTH as int) <= i32::MAX,
        cell_start(cell_y as int, CELL_HEIGHT as int) <= i32::MAX,
    ensures
        r.0 as int == cell_start(cell_x as int, CELL_WIDTH as int),
        r.1 as int == cell_start(cell_y as int, CELL_HEIGHT as int),
{
    let px = cell_x as u64 * CELL_WIDTH as u64 + LINE_SIZE as u64 * cell_x as u64;
    let py = cell_y as u64 * CELL_HEIGHT as u64 + LINE_SIZE as u64 * cell_y as u64;
    (px as i32, py as i32)
}

/// Pixel size of a window that shows `grid_x` by `grid_y` cells with a line
/// between neighbouring cells, or `None` if it does not fit in `u32`.
pub fn window_size(grid_x: u32, grid_y: u32) -> (r: Option<(u32, u32)>)
    requires
        grid_x > 0,
        grid_y > 0,
    ensures
        ({
            let w = CELL_WIDTH * grid_x + LINE_SIZE * (grid_x - 1);
            let h = CELL_HEIGHT * grid_y + LINE_SIZE * (grid_y - 1);
            &&& (w <= u32::MAX && h <= u32::MAX) ==> r == Some((w as u32, h as u32))
            &&& !(w <= u32::MAX && h <= u32::MAX) ==> r is None
        }),
{
    assert(CELL_WIDTH as u64 * grid_x as u64 <= 20 * 0xffff_ffff) by (nonlinear_arith)
        requires
            CELL_WIDTH == 20,
            grid_x <= 0xffff_ffff,
    ;
    assert(CELL_HEIGHT as u64 * grid_y as u64 <= 20 * 0xffff_ffff) by (nonlinear_arith)
        requires
            CELL_HEIGHT == 20,
            grid_y <= 0xffff_ffff,
    ;
    let w = CELL_WIDTH as u64 * grid_x as u64 + LINE_SIZE as u64 * (grid_x as u64 - 1);
    let h = CELL_HEIGHT as u64 * grid_y as u64 + LINE_SIZE as u64 * (grid_y as u64 - 1);
    if w > u32::MAX as u64 || h > u32::MAX as u64 {
        return None;
    }
    Some((w as u32, h as u32))
}

} // verus!
