use vstd::prelude::*;

verus! {

/// One automaton unit: its alive/dead state, its fixed grid position, and a
/// flag telling a renderer that the state differs from what it last drew.
#[derive(Clone, Copy, Debug)]
pub struct Cell {
    /// Whether the cell is dead; change it through `kill` and `revive`.
    pub dead: bool,
    /// Column of the cell in its grid.
    pub x: u32,
    /// Row of the cell in its grid.
    pub y: u32,
    /// Set when the state flips; cleared by whoever draws the cell.
    pub changed: bool,
}

impl Cell {
    /// Whether the cell is alive.
    pub open spec fn alive(&self) -> bool {
        !self.dead
    }

    pub fn is_dead(&self) -> (r: bool)
        ensures
            r == !self.alive(),
    {
        self.dead
    }

    /// A dead cell at `(x, y)`, marked changed so that a first render draws it.
    pub fn new(x: u32, y: u32) -> (r: Cell)
        ensures
            !r.alive(),
            r.x == x,
            r.y == y,
            r.changed,
    {
        Cell { dead: true, x, y, changed: true }
    }

    /// Makes the cell dead; marks it changed only if it was alive.
    pub fn kill(&mut self)
        ensures
            !final(self).alive(),
            final(self).changed == (old(self).changed || old(self).alive()),
            final(self).x == old(self).x,
            final(self).y == old(self).y,
    {
        if !self.dead {
            self.dead = true;
            self.changed = true;
        }
    }

    /// Makes the cell alive; marks it changed only if it was dead.
    pub fn revive(&mut self)
        ensures
            final(self).alive(),
            final(self).changed == (old(self).changed || !old(self).alive()),
            final(self).x == old(self).x,
            final(self).y == old(self).y,
    {
        if self.dead {
            self.dead = false;
            self.changed = true;
        }
    }
}

} // verus!
