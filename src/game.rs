use vstd::prelude::*;

use crate::cell::Cell;

verus! {

/// Why a grid could not be built.
#[derive(Clone, Copy, Debug, PartialEq, Eq, Structural)]
pub enum GridError {
    /// A width or a height of zero.
    InvalidDimensions,
}

/// The grid: `cells[x][y]` is the cell at column `x`, row `y`.
pub struct GameContext {
    pub cells: Vec<Vec<Cell>>,
    pub size_x: u32,
    pub size_y: u32,
}

/// 1 for a live cell, 0 otherwise.
pub open spec fn weight(b: bool) -> nat {
    if b { 1 } else { 0 }
}

/// Conway's rule: three live neighbours give life, two keep the current
/// state, any other count gives death.
pub open spec fn next_alive(alive: bool, neighbors: nat) -> bool {
    neighbors == 3 || (neighbors == 2 && alive)
}

/// The new state of one cell after a generation: what the rule gives for its
/// previous state and neighbour count, marked changed if it was already or if
/// its state flipped.
pub open spec fn stepped_cell(before: Cell, after: Cell, neighbors: nat) -> bool {
    &&& after.alive() == next_alive(before.alive(), neighbors)
    &&& after.changed == (before.changed || after.alive() != before.alive())
    &&& after.x == before.x
    &&& after.y == before.y
}

/// `after` is `before` advanced by one generation, every cell ruled by the
/// neighbour counts of `before`.
pub open spec fn stepped(before: GameContext, after: GameContext) -> bool {
    &&& after.wf()
    &&& after.size_x == before.size_x
    &&& after.size_y == before.size_y
    &&& forall|x: int, y: int|
        before.in_grid(x, y) ==> stepped_cell(
            before.cell_at(x, y),
            #[trigger] after.cell_at(x, y),
            before.neighbors(x, y),
        )
}

/// Applies the rule to one cell given its live-neighbour count: revive on
/// three, leave alone on two, kill otherwise.
fn apply_rule(cell: &mut Cell, living_cells: u8)
    ensures
        stepped_cell(*old(cell), *final(cell), living_cells as nat),
{
    match living_cells {
        3 => {
            cell.revive();
        },
        2 => {},
        _ => {
            cell.kill();
        },
    }
}

/// `(ax, ay)` comes before `(bx, by)` column by column, then row by row.
pub open spec fn position_before(ax: int, ay: int, bx: int, by: int) -> bool {
    ax < bx || (ax == bx && ay < by)
}

impl GameContext {
    /// Every column holds `size_y` cells and each cell sits where its
    /// position says.
    pub open spec fn wf(&self) -> bool {
        &&& self.cells@.len() == self.size_x as int
        &&& forall|x: int|
            0 <= x < self.size_x ==> (#[trigger] self.cells@[x])@.len() == self.size_y as int
        &&& forall|x: int, y: int|
            0 <= x < self.size_x && 0 <= y < self.size_y ==> {
                &&& (#[trigger] self.cells@[x]@[y]).x == x
                &&& self.cells@[x]@[y].y == y
            }
    }

    /// Whether `(x, y)` is a position of the grid.
    pub open spec fn in_grid(&self, x: int, y: int) -> bool {
        0 <= x < self.size_x && 0 <= y < self.size_y
    }

    /// The cell at `(x, y)`; meaningful only inside the grid.
    pub open spec fn cell_at(&self, x: int, y: int) -> Cell {
        self.cells@[x]@[y]
    }

    /// Whether `(x, y)` is a live cell of the grid; false outside it.
    pub open spec fn alive_at(&self, x: int, y: int) -> bool {
        self.in_grid(x, y) && self.cell_at(x, y).alive()
    }

    /// Live cells among the eight around `(x, y)`; positions outside the
    /// grid count as dead.
    pub open spec fn neighbors(&self, x: int, y: int) -> nat {
        weight(self.alive_at(x - 1, y - 1)) + weight(self.alive_at(x, y - 1))
            + weight(self.alive_at(x + 1, y - 1)) + weight(self.alive_at(x - 1, y))
            + weight(self.alive_at(x + 1, y)) + weight(self.alive_at(x - 1, y + 1))
            + weight(self.alive_at(x, y + 1)) + weight(self.alive_at(x + 1, y + 1))
    }

    /// A `size_x` by `size_y` grid of dead cells, each marked changed.
    pub fn new(size_x: u32, size_y: u32) -> (r: Result<GameContext, GridError>)
        ensures
            r is Err <==> (size_x == 0 || size_y == 0),
            r is Err ==> r->Err_0 == GridError::InvalidDimensions,
            r is Ok ==> {
                let g = r->Ok_0;
                &&& g.wf()
                &&& g.size_x == size_x
                &&& g.size_y == size_y
                &&& forall|x: int, y: int|
                    g.in_grid(x, y) ==> !(#[trigger] g.cell_at(x, y)).alive() && g.cell_at(
                        x,
                        y,
                    ).changed
            },
    {
        if size_x == 0 || size_y == 0 {
            return Err(GridError::InvalidDimensions);
        }
        let mut out: Vec<Vec<Cell>> = Vec::new();
        let mut x: u32 = 0;
        while x < size_x
            invariant
                x <= size_x,
                out@.len() == x as int,
                forall|i: int| 0 <= i < x ==> (#[trigger] out@[i])@.len() == size_y as int,
                forall|i: int, j: int|
                    0 <= i < x && 0 <= j < size_y ==> {
                        let c = #[trigger] out@[i]@[j];
                        c.x == i && c.y == j && !c.alive() && c.changed
                    },
            decreases size_x - x,
        {
            let mut column: Vec<Cell> = Vec::new();
            let mut y: u32 = 0;
            while y < size_y
                invariant
                    y <= size_y,
                    column@.len() == y as int,
                    forall|j: int|
                        0 <= j < y ==> {
                            let c = #[trigger] column@[j];
                            c.x == x && c.y == j && !c.alive() && c.changed
                        },
                decreases size_y - y,
            {
                column.push(Cell::new(x, y));
                y = y + 1;
            }
            out.push(column);
            x = x + 1;
        }
        Ok(GameContext { cells: out, size_x, size_y })
    }

    /// Sets the cell at `(x, y)` alive or dead through `revive` or `kill`;
    /// positions outside the grid are ignored.
    pub fn set_living(&mut self, x: u32, y: u32, living: bool)
        requires
            old(self).wf(),
        ensures
            final(self).wf(),
            final(self).size_x == old(self).size_x,
            final(self).size_y == old(self).size_y,
            !old(self).in_grid(x as int, y as int) ==> final(self).cells@ == old(self).cells@,
            forall|i: int, j: int|
                old(self).in_grid(i, j) && (i != x || j != y) ==> #[trigger] final(self).cell_at(i, j)
                    == old(self).cell_at(i, j),
            old(self).in_grid(x as int, y as int) ==> {
                let before = old(self).cell_at(x as int, y as int);
                let after = final(self).cell_at(x as int, y as int);
                &&& after.alive() == living
                &&& after.changed == (before.changed || before.alive() != living)
                &&& after.x == before.x
                &&& after.y == before.y
            },
    {
        if x >= self.size_x || y >= self.size_y {
            return;
        }
        let cell = &mut self.cells[x as usize][y as usize];
        if living {
            cell.revive();
        } else {
            cell.kill();
        }
    }

    /// Whether `(x, y)` holds a live cell; false outside the grid.
    fn living_at(&self, x: i64, y: i64) -> (r: bool)
        requires
            self.wf(),
        ensures
            r == self.alive_at(x as int, y as int),
    {
        if x < 0 || x >= self.size_x as i64 || y < 0 || y >= self.size_y as i64 {
            return false;
        }
        !self.cells[x as usize][y as usize].is_dead()
    }

    /// Number of live cells among the eight around `(x, y)`, leaving out
    /// positions outside the grid and the cell itself.
    pub fn count_living_cells(&self, x: i32, y: i32) -> (r: u8)
        requires
            self.wf(),
        ensures
            r as nat == self.neighbors(x as int, y as int),
    {
        self.count_around(x as i64, y as i64)
    }

    fn count_around(&self, x: i64, y: i64) -> (r: u8)
        requires
            self.wf(),
            i64::MIN < x < i64::MAX,
            i64::MIN < y < i64::MAX,
        ensures
            r as nat == self.neighbors(x as int, y as int),
    {
        let mut out: u8 = 0;
        if self.living_at(x - 1, y - 1) {
            out = out + 1;
        }
        if self.living_at(x, y - 1) {
            out = out + 1;
        }
        if self.living_at(x + 1, y - 1) {
            out = out + 1;
        }
        if self.living_at(x - 1, y) {
            out = out + 1;
        }
        if self.living_at(x + 1, y) {
            out = out + 1;
        }
        if self.living_at(x - 1, y + 1) {
            out = out + 1;
        }
        if self.living_at(x, y + 1) {
            out = out + 1;
        }
        if self.living_at(x + 1, y + 1) {
            out = out + 1;
        }
        out
    }

    /// Live-neighbour counts of every cell, read from the current state:
    /// `r[x][y]` is the count around `(x, y)`.
    fn neighbor_counts(&self) -> (r: Vec<Vec<u8>>)
        requires
            self.wf(),
        ensures
            r@.len() == self.size_x as int,
            forall|x: int| 0 <= x < self.size_x ==> (#[trigger] r@[x])@.len() == self.size_y as int,
            forall|x: int, y: int|
                self.in_grid(x, y) ==> (#[trigger] r@[x]@[y]) as nat == self.neighbors(x, y),
    {
        let mut out: Vec<Vec<u8>> = Vec::new();
        let mut x: u32 = 0;
        while x < self.size_x
            invariant
                self.wf(),
                x <= self.size_x,
                out@.len() == x as int,
                forall|i: int| 0 <= i < x ==> (#[trigger] out@[i])@.len() == self.size_y as int,
                forall|i: int, j: int|
                    0 <= i < x && 0 <= j < self.size_y ==> (#[trigger] out@[i]@[j]) as nat
                        == self.neighbors(i, j),
            decreases self.size_x - x,
        {
            let mut column: Vec<u8> = Vec::new();
            let mut y: u32 = 0;
            while y < self.size_y
                invariant
                    self.wf(),
                    x < self.size_x,
                    y <= self.size_y,
                    column@.len() == y as int,
                    forall|j: int|
                        0 <= j < y ==> (#[trigger] column@[j]) as nat == self.neighbors(
                            x as int,
                            j,
                        ),
                decreases self.size_y - y,
            {
                let cell = &self.cells[x as usize][y as usize];
                column.push(self.count_around(cell.x as i64, cell.y as i64));
                y = y + 1;
            }
            out.push(column);
            x = x + 1;
        }
        out
    }

    /// Advances the grid by one generation. Every count is taken from the
    /// state before the call, and only then is each cell revived (three live
    /// neighbours), left alone (two) or killed (any other count).
    pub fn tick(&mut self)
        requires
            old(self).wf(),
        ensures
            stepped(*old(self), *final(self)),
    {
        let counts = self.neighbor_counts();
        let ghost before = *self;
        let mut x: usize = 0;
        while x < self.size_x as usize
            invariant
                self.wf(),
                self.size_x == before.size_x,
                self.size_y == before.size_y,
                x <= self.size_x,
                counts@.len() == self.size_x as int,
                forall|i: int| 0 <= i < self.size_x ==> (#[trigger] counts@[i])@.len() == self.size_y as int,
                forall|i: int, j: int|
                    before.in_grid(i, j) ==> (#[trigger] counts@[i]@[j]) as nat == before.neighbors(i, j),
                forall|i: int, j: int|
                    before.in_grid(i, j) && i < x ==> stepped_cell(
                        before.cell_at(i, j),
                        #[trigger] self.cell_at(i, j),
                        before.neighbors(i, j),
                    ),
                forall|i: int, j: int|
                    before.in_grid(i, j) && i >= x ==> #[trigger] self.cell_at(i, j) == before.cell_at(i, j),
            decreases self.size_x - x,
        {
            let mut y: usize = 0;
            while y < self.size_y as usize
                invariant
                    self.wf(),
                    self.size_x == before.size_x,
                    self.size_y == before.size_y,
                    x < self.size_x,
                    y <= self.size_y,
                    counts@.len() == self.size_x as int,
                    forall|i: int| 0 <= i < self.size_x ==> (#[trigger] counts@[i])@.len() == self.size_y as int,
                    forall|i: int, j: int|
                        before.in_grid(i, j) ==> (#[trigger] counts@[i]@[j]) as nat == before.neighbors(i, j),
                    forall|i: int, j: int|
                        before.in_grid(i, j) && (i < x || (i == x && j < y)) ==> stepped_cell(
                            before.cell_at(i, j),
                            #[trigger] self.cell_at(i, j),
                            before.neighbors(i, j),
                        ),
                    forall|i: int, j: int|
                        before.in_grid(i, j) && (i > x || (i == x && j >= y)) ==> #[trigger] self.cell_at(i, j)
                            == before.cell_at(i, j),
                decreases self.size_y - y,
            {
                let living_cells = counts[x][y];
                let ghost prev = *self;
                assert(prev.cell_at(x as int, y as int) == before.cell_at(x as int, y as int));
                let cell = &mut self.cells[x][y];
                apply_rule(cell, living_cells);
                assert(forall|i: int, j: int|
                    before.in_grid(i, j) && (i != x || j != y) ==> #[trigger] self.cell_at(i, j)
                        == prev.cell_at(i, j));
                y = y + 1;
            }
            x = x + 1;
        }
    }

    /// Hands out the cells that a renderer must draw, the ones marked changed,
    /// column by column and row by row, and clears their marks. States and
    /// positions are left as they are.
    pub fn take_changed(&mut self) -> (r: Vec<Cell>)
        requires
            old(self).wf(),
        ensures
            final(self).wf(),
            final(self).size_x == old(self).size_x,
            final(self).size_y == old(self).size_y,
            forall|x: int, y: int|
                old(self).in_grid(x, y) ==> {
                    &&& !(#[trigger] final(self).cell_at(x, y)).changed
                    &&& final(self).cell_at(x, y).alive() == old(self).cell_at(x, y).alive()
                    &&& final(self).cell_at(x, y).x == old(self).cell_at(x, y).x
                    &&& final(self).cell_at(x, y).y == old(self).cell_at(x, y).y
                },
            forall|k: int|
                0 <= k < r@.len() ==> {
                    &&& old(self).in_grid((#[trigger] r@[k]).x as int, r@[k].y as int)
                    &&& r@[k] == old(self).cell_at(r@[k].x as int, r@[k].y as int)
                    &&& r@[k].changed
                },
            forall|k: int, l: int|
                0 <= k < l < r@.len() ==> position_before(
                    (#[trigger] r@[k]).x as int,
                    r@[k].y as int,
                    (#[trigger] r@[l]).x as int,
                    r@[l].y as int,
                ),
            forall|x: int, y: int|
                old(self).in_grid(x, y) && (#[trigger] old(self).cell_at(x, y)).changed ==> exists|
                    k: int,
                | 0 <= k < r@.len() && r@[k].x == x && r@[k].y == y,
    {
        let ghost before = *self;
        let mut out: Vec<Cell> = Vec::new();
        let mut x: usize = 0;
        while x < self.size_x as usize
            invariant
                self.wf(),
                self.size_x == before.size_x,
                self.size_y == before.size_y,
                x <= self.size_x,
                forall|i: int, j: int|
                    before.in_grid(i, j) ==> {
                        &&& (#[trigger] self.cell_at(i, j)).alive() == before.cell_at(i, j).alive()
                        &&& i < x ==> !self.cell_at(i, j).changed
                        &&& i >= x ==> self.cell_at(i, j) == before.cell_at(i, j)
                    },
                forall|k: int|
                    0 <= k < out@.len() ==> {
                        &&& before.in_grid((#[trigger] out@[k]).x as int, out@[k].y as int)
                        &&& out@[k].x < x
                        &&& out@[k] == before.cell_at(out@[k].x as int, out@[k].y as int)
                        &&& out@[k].changed
                    },
                forall|k: int, l: int|
                    0 <= k < l < out@.len() ==> position_before(
                        (#[trigger] out@[k]).x as int,
                        out@[k].y as int,
                        (#[trigger] out@[l]).x as int,
                        out@[l].y as int,
                    ),
                forall|i: int, j: int|
                    before.in_grid(i, j) && i < x && (#[trigger] before.cell_at(i, j)).changed
                        ==> exists|k: int| 0 <= k < out@.len() && out@[k].x == i && out@[k].y == j,
            decreases self.size_x - x,
        {
            let mut y: usize = 0;
            while y < self.size_y as usize
                invariant
                    self.wf(),
                    self.size_x == before.size_x,
                    self.size_y == before.size_y,
                    x < self.size_x,
                    y <= self.size_y,
                    forall|i: int, j: int|
                        before.in_grid(i, j) ==> {
                            &&& (#[trigger] self.cell_at(i, j)).alive() == before.cell_at(
                                i,
                                j,
                            ).alive()
                            &&& position_before(i, j, x as int, y as int) ==> !self.cell_at(
                                i,
                                j,
                            ).changed
                            &&& !position_before(i, j, x as int, y as int) ==> self.cell_at(i, j)
                                == before.cell_at(i, j)
                        },
                    forall|k: int|
                        0 <= k < out@.len() ==> {
                            &&& before.in_grid((#[trigger] out@[k]).x as int, out@[k].y as int)
                            &&& position_before(
                                out@[k].x as int,
                                out@[k].y as int,
                                x as int,
                                y as int,
                            )
                            &&& out@[k] == before.cell_at(out@[k].x as int, out@[k].y as int)
                            &&& out@[k].changed
                        },
                    forall|k: int, l: int|
                        0 <= k < l < out@.len() ==> position_before(
                            (#[trigger] out@[k]).x as int,
                            out@[k].y as int,
                            (#[trigger] out@[l]).x as int,
                            out@[l].y as int,
                        ),
                    forall|i: int, j: int|
                        before.in_grid(i, j) && position_before(i, j, x as int, y as int) && (
                        #[trigger] before.cell_at(i, j)).changed ==> exists|k: int|
                            0 <= k < out@.len() && out@[k].x == i && out@[k].y == j,
                decreases self.size_y - y,
            {
                let ghost prev = *self;
                let ghost prev_out = out@;
                assert(before.in_grid(x as int, y as int));
                assert(self.cell_at(x as int, y as int) == before.cell_at(x as int, y as int));
                let current: Cell = self.cells[x][y];
                if current.changed {
                    out.push(current);
                    let cell = &mut self.cells[x][y];
                    cell.changed = false;
                }
                assert(forall|i: int, j: int|
                    before.in_grid(i, j) && (i != x || j != y) ==> #[trigger] self.cell_at(i, j)
                        == prev.cell_at(i, j));
                assert forall|i: int, j: int|
                    before.in_grid(i, j) && position_before(i, j, x as int, y as int + 1) && (
                    #[trigger] before.cell_at(i, j)).changed implies exists|k: int|
                        0 <= k < out@.len() && out@[k].x == i && out@[k].y == j by {
                    if i == x && j == y {
                        assert(out@[out@.len() - 1].x == i && out@[out@.len() - 1].y == j);
                    } else {
                        let k = choose|k: int|
                            0 <= k < prev_out.len() && prev_out[k].x == i && prev_out[k].y == j;
                        assert(out@[k] == prev_out[k]);
                    }
                }
                y = y + 1;
            }
            x = x + 1;
        }
        out
    }

    /// Whether `(x, y)` is a live cell of the grid; false outside it.
    pub fn is_living(&self, x: u32, y: u32) -> (r: bool)
        requires
            self.wf(),
        ensures
            r == self.alive_at(x as int, y as int),
    {
        self.living_at(x as i64, y as i64)
    }
}

} // verus!
