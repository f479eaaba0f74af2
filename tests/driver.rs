use life_game::driver::{advance_clock, handle_event, InputEvent, LoopState, FRAME_NANOS, TICK_NANOS};
use life_game::game::GameContext;

#[test]
fn left_press_revives_and_pauses() {
    let mut g = GameContext::new(4, 4).unwrap();
    let mut s = LoopState::new();
    assert!(handle_event(&mut s, &mut g, InputEvent::ButtonDown { left: true, x: 22, y: 43 }));
    assert!(g.is_living(1, 2));
    assert!(s.freeze);
    assert!(s.redraw);
    assert!(handle_event(&mut s, &mut g, InputEvent::ButtonUp));
    assert!(!s.freeze);
}

#[test]
fn press_on_a_line_pauses_without_edit() {
    let mut g = GameContext::new(4, 4).unwrap();
    let mut s = LoopState::new();
    assert!(handle_event(&mut s, &mut g, InputEvent::ButtonDown { left: true, x: 21, y: 43 }));
    assert!(s.freeze);
    assert!(!s.redraw);
    assert!(!g.is_living(1, 2));
}

#[test]
fn press_beyond_the_grid_is_ignored() {
    let mut g = GameContext::new(2, 2).unwrap();
    let mut s = LoopState::new();
    assert!(handle_event(&mut s, &mut g, InputEvent::ButtonDown { left: true, x: 100, y: 1 }));
    for x in 0..2 {
        for y in 0..2 {
            assert!(!g.is_living(x, y));
        }
    }
}

#[test]
fn right_drag_kills() {
    let mut g = GameContext::new(4, 4).unwrap();
    g.set_living(1, 1, true);
    let mut s = LoopState::new();
    handle_event(&mut s, &mut g, InputEvent::Motion { left: false, right: true, x: 25, y: 25 });
    assert!(!g.is_living(1, 1));
    assert!(s.redraw);
}

#[test]
fn motion_without_buttons_does_nothing() {
    let mut g = GameContext::new(4, 4).unwrap();
    let mut s = LoopState::new();
    handle_event(&mut s, &mut g, InputEvent::Motion { left: false, right: false, x: 25, y: 25 });
    assert!(!g.is_living(1, 1));
    assert!(!s.redraw);
}

#[test]
fn quit_stops_the_loop() {
    let mut g = GameContext::new(1, 1).unwrap();
    let mut s = LoopState::new();
    assert!(!handle_event(&mut s, &mut g, InputEvent::Quit));
    assert!(handle_event(&mut s, &mut g, InputEvent::Other));
}

#[test]
fn clock_runs_a_generation_after_enough_time() {
    let mut s = LoopState::new();
    let mut frames = 0;
    while !advance_clock(&mut s) {
        frames += 1;
        assert!(frames < 10);
    }
    assert_eq!(frames, 4);
    assert_eq!(s.time, 4 * FRAME_NANOS - TICK_NANOS);
}

#[test]
fn paused_clock_runs_no_generation() {
    let mut s = LoopState { time: TICK_NANOS + 1, redraw: false, freeze: true };
    assert!(!advance_clock(&mut s));
    assert_eq!(s.time, 1);
    assert!(!advance_clock(&mut s));
    assert_eq!(s.time, 1 + FRAME_NANOS);
}
