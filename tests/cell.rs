use life_game::cell::Cell;

#[test]
fn new_cell_is_dead_and_changed() {
    let c = Cell::new(3, 4);
    assert!(c.is_dead());
    assert!(c.changed);
    assert_eq!(c.x, 3);
    assert_eq!(c.y, 4);
}

#[test]
fn kill_on_dead_cell_keeps_changed_clear() {
    let mut c = Cell::new(0, 0);
    c.changed = false;
    c.kill();
    assert!(c.is_dead());
    assert!(!c.changed);
}

#[test]
fn revive_on_live_cell_keeps_changed_clear() {
    let mut c = Cell::new(0, 0);
    c.revive();
    c.changed = false;
    c.revive();
    assert!(!c.is_dead());
    assert!(!c.changed);
}

#[test]
fn revive_on_dead_cell_sets_alive_and_changed() {
    let mut c = Cell::new(1, 2);
    c.changed = false;
    c.revive();
    assert!(!c.is_dead());
    assert!(c.changed);
    assert_eq!((c.x, c.y), (1, 2));
}

#[test]
fn kill_on_live_cell_sets_dead_and_changed() {
    let mut c = Cell::new(1, 2);
    c.revive();
    c.changed = false;
    c.kill();
    assert!(c.is_dead());
    assert!(c.changed);
    assert_eq!((c.x, c.y), (1, 2));
}
