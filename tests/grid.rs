use life_game::game::{GameContext, GridError};

fn grid(w: u32, h: u32, live: &[(u32, u32)]) -> GameContext {
    let mut g = GameContext::new(w, h).unwrap();
    for &(x, y) in live {
        g.set_living(x, y, true);
    }
    g
}

fn living(g: &GameContext) -> Vec<(u32, u32)> {
    let mut out = Vec::new();
    for x in 0..g.size_x {
        for y in 0..g.size_y {
            if g.is_living(x, y) {
                out.push((x, y));
            }
        }
    }
    out
}

fn clear_marks(g: &mut GameContext) {
    for column in g.cells.iter_mut() {
        for cell in column.iter_mut() {
            cell.changed = false;
        }
    }
}

fn all_clean(g: &GameContext) -> bool {
    g.cells.iter().all(|column| column.iter().all(|cell| !cell.changed))
}

#[test]
fn zero_dimensions_are_rejected() {
    assert_eq!(GameContext::new(0, 5).err(), Some(GridError::InvalidDimensions));
    assert_eq!(GameContext::new(5, 0).err(), Some(GridError::InvalidDimensions));
    assert_eq!(GameContext::new(0, 0).err(), Some(GridError::InvalidDimensions));
}

#[test]
fn new_grid_is_dead_and_marked() {
    let g = GameContext::new(3, 2).unwrap();
    assert_eq!(g.size_x, 3);
    assert_eq!(g.size_y, 2);
    assert_eq!(g.cells.len(), 3);
    for x in 0..3u32 {
        assert_eq!(g.cells[x as usize].len(), 2);
        for y in 0..2u32 {
            let c = &g.cells[x as usize][y as usize];
            assert!(c.is_dead());
            assert!(c.changed);
            assert_eq!((c.x, c.y), (x, y));
        }
    }
}

#[test]
fn single_live_cell_does_not_count_itself() {
    let g = grid(5, 5, &[(2, 2)]);
    assert_eq!(g.count_living_cells(2, 2), 0);
    assert_eq!(g.count_living_cells(1, 1), 1);
    assert_eq!(g.count_living_cells(3, 2), 1);
    assert_eq!(g.count_living_cells(4, 4), 0);
}

#[test]
fn three_live_neighbours_are_counted() {
    let g = grid(5, 5, &[(1, 1), (1, 2), (1, 3)]);
    assert_eq!(g.count_living_cells(2, 2), 3);
}

#[test]
fn full_neighbourhood_counts_eight() {
    let mut g = grid(3, 3, &[]);
    for x in 0..3 {
        for y in 0..3 {
            g.set_living(x, y, true);
        }
    }
    assert_eq!(g.count_living_cells(1, 1), 8);
    assert_eq!(g.count_living_cells(0, 0), 3);
}

#[test]
fn corner_counts_only_cells_inside_the_grid() {
    for n in [2u32, 3, 6] {
        let g = grid(n, n, &[(1, 1)]);
        assert_eq!(g.count_living_cells(0, 0), 1);
    }
    let g = grid(4, 4, &[(3, 3)]);
    assert_eq!(g.count_living_cells(0, 0), 0);
    assert_eq!(g.count_living_cells(-1, -1), 0);
    assert_eq!(g.count_living_cells(4, 4), 1);
}

#[test]
fn dead_cell_with_three_neighbours_is_born() {
    let mut g = grid(5, 5, &[(1, 1), (1, 2), (1, 3)]);
    assert!(!g.is_living(2, 2));
    g.tick();
    assert!(g.is_living(2, 2));
    assert!(g.cells[2][2].changed);
}

#[test]
fn live_cell_with_two_neighbours_survives() {
    let mut g = grid(5, 5, &[(1, 1), (2, 2), (3, 3)]);
    g.tick();
    assert!(g.is_living(2, 2));
}

#[test]
fn live_cell_with_three_neighbours_survives() {
    let mut g = grid(5, 5, &[(1, 1), (1, 3), (3, 1), (2, 2)]);
    assert_eq!(g.count_living_cells(2, 2), 3);
    g.tick();
    assert!(g.is_living(2, 2));
}

#[test]
fn lonely_cells_die() {
    let mut g = grid(5, 5, &[(2, 2)]);
    g.tick();
    assert!(!g.is_living(2, 2));
    let mut g = grid(5, 5, &[(2, 2), (2, 3)]);
    g.tick();
    assert!(!g.is_living(2, 2));
}

#[test]
fn crowded_cell_dies() {
    let mut g = grid(5, 5, &[(2, 2), (1, 1), (1, 3), (3, 1), (3, 3)]);
    assert_eq!(g.count_living_cells(2, 2), 4);
    g.tick();
    assert!(!g.is_living(2, 2));
}

#[test]
fn dead_cell_with_two_neighbours_stays_dead() {
    let mut g = grid(5, 5, &[(1, 1), (3, 3)]);
    clear_marks(&mut g);
    g.tick();
    assert!(!g.is_living(2, 2));
    assert!(!g.cells[2][2].changed);
}

#[test]
fn blinker_oscillates() {
    let vertical = vec![(2, 1), (2, 2), (2, 3)];
    let horizontal = vec![(1, 2), (2, 2), (3, 2)];
    let mut g = grid(5, 5, &vertical);
    g.tick();
    assert_eq!(living(&g), horizontal);
    g.tick();
    assert_eq!(living(&g), vertical);
}

#[test]
fn out_of_bounds_edit_is_ignored() {
    let mut g = grid(4, 3, &[(1, 1)]);
    clear_marks(&mut g);
    g.set_living(4, 0, true);
    g.set_living(0, 3, true);
    g.set_living(100, 100, false);
    assert_eq!(living(&g), vec![(1, 1)]);
    assert!(all_clean(&g));
}

#[test]
fn set_living_marks_only_real_changes() {
    let mut g = grid(3, 3, &[]);
    clear_marks(&mut g);
    g.set_living(1, 1, false);
    assert!(all_clean(&g));
    g.set_living(1, 1, true);
    assert!(g.is_living(1, 1));
    assert!(g.cells[1][1].changed);
    assert!(!g.cells[0][0].changed);
}

#[test]
fn still_life_tick_leaves_marks_clear() {
    let mut g = grid(6, 6, &[(1, 1), (1, 2), (2, 1), (2, 2)]);
    let drawn = g.take_changed();
    assert_eq!(drawn.len(), 36);
    assert!(all_clean(&g));
    g.tick();
    assert!(all_clean(&g));
    assert_eq!(living(&g), vec![(1, 1), (1, 2), (2, 1), (2, 2)]);
}

#[test]
fn tick_marks_exactly_the_flipped_cells() {
    let mut g = grid(5, 5, &[(2, 1), (2, 2), (2, 3)]);
    clear_marks(&mut g);
    g.tick();
    let drawn: Vec<(u32, u32, bool)> =
        g.take_changed().iter().map(|c| (c.x, c.y, c.is_dead())).collect();
    assert_eq!(drawn, vec![(1, 2, false), (2, 1, true), (2, 3, true), (3, 2, false)]);
}

#[test]
fn take_changed_hands_out_marked_cells_in_order_once() {
    let mut g = grid(3, 3, &[]);
    clear_marks(&mut g);
    g.set_living(2, 0, true);
    g.set_living(0, 2, true);
    let drawn: Vec<(u32, u32)> = g.take_changed().iter().map(|c| (c.x, c.y)).collect();
    assert_eq!(drawn, vec![(0, 2), (2, 0)]);
    assert!(g.take_changed().is_empty());
    assert!(g.is_living(2, 0));
    assert!(g.is_living(0, 2));
}
