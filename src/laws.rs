use vstd::prelude::*;

use crate::game::{stepped, GameContext, next_alive, weight};

verus! {

/// Neighbours outside the grid are never counted: around the corner `(0, 0)`
/// only the three cells to its right, below it and diagonally between count.
pub proof fn lemma_corner_neighbors(g: GameContext)
    requires
        g.wf(),
    ensures
        g.neighbors(0, 0) == weight(g.alive_at(1, 0)) + weight(g.alive_at(0, 1)) + weight(
            g.alive_at(1, 1),
        ),
{
}

/// A dead cell with exactly three live neighbours is alive after a generation.
pub proof fn lemma_birth(before: GameContext, after: GameContext, x: int, y: int)
    requires
        stepped(before, after),
        before.in_grid(x, y),
        !before.alive_at(x, y),
        before.neighbors(x, y) == 3,
    ensures
        after.alive_at(x, y),
{
    assert(after.cell_at(x, y).alive());
}

/// A live cell with two or three live neighbours is still alive after a
/// generation.
pub proof fn lemma_survival(before: GameContext, after: GameContext, x: int, y: int)
    requires
        stepped(before, after),
        before.in_grid(x, y),
        before.alive_at(x, y),
        before.neighbors(x, y) == 2 || before.neighbors(x, y) == 3,
    ensures
        after.alive_at(x, y),
{
    assert(after.cell_at(x, y).alive());
}

/// A live cell with fewer than two or more than three live neighbours is dead
/// after a generation, and a dead cell without exactly three stays dead.
pub proof fn lemma_death(before: GameContext, after: GameContext, x: int, y: int)
    requires
        stepped(before, after),
        before.in_grid(x, y),
        before.alive_at(x, y) ==> before.neighbors(x, y) != 2 && before.neighbors(x, y) != 3,
        !before.alive_at(x, y) ==> before.neighbors(x, y) != 3,
    ensures
        !after.alive_at(x, y),
{
    assert(!after.cell_at(x, y).alive());
}

/// Once a renderer has cleared every dirty flag, a generation that changes no
/// cell's state leaves every flag clear.
pub proof fn lemma_still_generation_stays_clean(before: GameContext, after: GameContext)
    requires
        stepped(before, after),
        forall|x: int, y: int| before.in_grid(x, y) ==> !(#[trigger] before.cell_at(x, y)).changed,
        forall|x: int, y: int|
            before.in_grid(x, y) ==> next_alive(
                (#[trigger] before.cell_at(x, y)).alive(),
                before.neighbors(x, y),
            ) == before.cell_at(x, y).alive(),
    ensures
        forall|x: int, y: int| after.in_grid(x, y) ==> !(#[trigger] after.cell_at(x, y)).changed,
{
    assert forall|x: int, y: int| after.in_grid(x, y) implies !(#[trigger] after.cell_at(
        x,
        y,
    )).changed by {
        assert(before.in_grid(x, y));
        assert(!before.cell_at(x, y).changed);
    }
}

} // verus!
