use vstd::prelude::*;

use crate::game::GameContext;
use crate::layout::{cell_index, get_cell_coord_by_cursor, CELL_HEIGHT, CELL_WIDTH};

verus! {

/// Nanoseconds between two polls of the input, about sixty per second.
pub const FRAME_NANOS: u32 = 1_000_000_000 / 60;

/// Nanoseconds of accumulated time between two generations.
pub const TICK_NANOS: u32 = 50_000_000;

/// An input event, reduced to what the loop decides on. Positions are in
/// window pixels.
#[derive(Clone, Copy, Debug, PartialEq, Eq, Structural)]
pub enum InputEvent {
    /// The window was closed or Escape was pressed.
    Quit,
    /// A mouse button went down; `left` tells the left button from the others.
    ButtonDown { left: bool, x: i32, y: i32 },
    /// A mouse button went up.
    ButtonUp,
    /// The mouse moved with the given buttons held.
    Motion { left: bool, right: bool, x: i32, y: i32 },
    /// Anything else.
    Other,
}

/// What the loop remembers between frames.
#[derive(Clone, Copy, Debug, PartialEq, Eq, Structural)]
pub struct LoopState {
    /// Time accumulated towards the next generation, in nanoseconds.
    pub time: u32,
    /// Whether the grid has been edited, so that each frame redraws.
    pub redraw: bool,
    /// Whether a mouse button is held, which pauses the simulation.
    pub freeze: bool,
}

/// The cell that pixel `(x, y)` lies in, if any.
pub open spec fn cursor_cell(x: i32, y: i32) -> Option<(int, int)> {
    match (cell_index(x as int, CELL_WIDTH as int), cell_index(y as int, CELL_HEIGHT as int)) {
        (Some(cx), Some(cy)) => Some((cx, cy)),
        _ => None,
    }
}

/// `after` is `before` with the cell under `(x, y)`, if it is one, set alive
/// or dead by `living`.
pub open spec fn edited(before: GameContext, after: GameContext, x: i32, y: i32, living: bool) -> bool {
    &&& after.wf()
    &&& after.size_x == before.size_x
    &&& after.size_y == before.size_y
    &&& forall|i: int, j: int|
        before.in_grid(i, j) && cursor_cell(x, y) != Some((i, j)) ==> #[trigger] after.cell_at(i, j)
            == before.cell_at(i, j)
    &&& forall|i: int, j: int|
        before.in_grid(i, j) && cursor_cell(x, y) == Some((i, j)) ==> {
            &&& (#[trigger] after.cell_at(i, j)).alive() == living
            &&& after.cell_at(i, j).changed == (before.cell_at(i, j).changed
                || before.cell_at(i, j).alive() != living)
            &&& after.cell_at(i, j).x == before.cell_at(i, j).x
            &&& after.cell_at(i, j).y == before.cell_at(i, j).y
        }
}

impl LoopState {
    /// The state when the loop starts: no time, nothing edited, not paused.
    pub fn new() -> (r: LoopState)
        ensures
            r == (LoopState { time: 0, redraw: false, freeze: false }),
    {
        LoopState { time: 0, redraw: false, freeze: false }
    }
}

/// Edits the cell under the cursor, if there is one; tells whether it was.
fn edit_at_cursor(game: &mut GameContext, x: i32, y: i32, living: bool) -> (r: bool)
    requires
        old(game).wf(),
    ensures
        edited(*old(game), *final(game), x, y, living),
        r == cursor_cell(x, y) is Some,
{
    match get_cell_coord_by_cursor(x, y) {
        Some((cell_x, cell_y)) => {
            game.set_living(cell_x, cell_y, living);
            true
        },
        None => false,
    }
}

/// Applies one input event to the grid and the loop state; returns false
/// when the loop must stop. A button press paints the cell under it (alive
/// for the left button, dead for the others) and pauses the simulation; a
/// release resumes it; a move with a button held paints like a press.
pub fn handle_event(state: &mut LoopState, game: &mut GameContext, event: InputEvent) -> (r: bool)
    requires
        old(game).wf(),
    ensures
        final(game).wf(),
        final(state).time == old(state).time,
        r == (event != InputEvent::Quit),
        match event {
            InputEvent::ButtonDown { left, x, y } => {
                &&& edited(*old(game), *final(game), x, y, left)
                &&& final(state).freeze
                &&& final(state).redraw == (old(state).redraw || cursor_cell(x, y) is Some)
            },
            InputEvent::Motion { left, right, x, y } => {
                &&& (left || right) ==> edited(*old(game), *final(game), x, y, left)
                &&& !(left || right) ==> *final(game) == *old(game)
                &&& final(state).freeze == old(state).freeze
                &&& final(state).redraw == (old(state).redraw || ((left || right) && cursor_cell(
                    x,
                    y,
                ) is Some))
            },
            InputEvent::ButtonUp => {
                &&& *final(game) == *old(game)
                &&& !final(state).freeze
                &&& final(state).redraw == old(state).redraw
            },
            _ => {
                &&& *final(game) == *old(game)
                &&& *final(state) == *old(state)
            },
        },
{
    match event {
        InputEvent::Quit => false,
        InputEvent::ButtonDown { left, x, y } => {
            if edit_at_cursor(game, x, y, left) {
                state.redraw = true;
            }
            state.freeze = true;
            true
        },
        InputEvent::ButtonUp => {
            state.freeze = false;
            true
        },
        InputEvent::Motion { left, right, x, y } => {
            if left || right {
                if edit_at_cursor(game, x, y, left) {
                    state.redraw = true;
                }
            }
            true
        },
        InputEvent::Other => true,
    }
}

/// Moves the loop's clock on by one frame; returns whether a generation is
/// due now. Once more than `TICK_NANOS` has accumulated, one period is taken
/// off and a generation runs unless the simulation is paused; otherwise a
/// frame's time is added.
pub fn advance_clock(state: &mut LoopState) -> (r: bool)
    requires
        old(state).time <= TICK_NANOS + FRAME_NANOS,
    ensures
        final(state).time <= TICK_NANOS + FRAME_NANOS,
        final(state).redraw == old(state).redraw,
        final(state).freeze == old(state).freeze,
        old(state).time > TICK_NANOS ==> final(state).time == old(state).time - TICK_NANOS,
        old(state).time <= TICK_NANOS ==> final(state).time == old(state).time + FRAME_NANOS,
        r == (old(state).time > TICK_NANOS && !old(state).freeze),
{
    if state.time > TICK_NANOS {
        state.time = state.time - TICK_NANOS;
        !state.freeze
    } else {
        state.time = state.time + FRAME_NANOS;
        false
    }
}

} // verus!
