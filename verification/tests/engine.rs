use krida::game::MainState;

/// All live cells of the grid, in row-major order.
fn live_cells(s: &MainState) -> Vec<(usize, usize)> {
    let mut cells = Vec::new();
    for y in 0..s.height() {
        for x in 0..s.width() {
            if s.is_alive(x, y) {
                cells.push((x, y));
            }
        }
    }
    cells
}

fn engine_120x90() -> MainState {
    MainState::new(120, 90)
}

/// A cleared default-size engine, with the given cells then toggled alive.
fn engine_with_cells(cells: &[(usize, usize)]) -> MainState {
    let mut s = engine_120x90();
    s.clear();
    for &(x, y) in cells {
        s.toggle_cell(x, y);
    }
    s
}

#[test]
fn new_starts_paused_with_default_delays() {
    let s = engine_120x90();
    assert!(s.paused());
    assert_eq!(s.update_delay_ms(), 100);
    assert_eq!(s.delay_step_ms(), 100);
    assert_eq!(s.width(), 120);
    assert_eq!(s.height(), 90);
}

#[test]
fn new_seeds_the_five_cell_glider() {
    let s = engine_120x90();
    assert_eq!(live_cells(&s), vec![(2, 1), (3, 2), (1, 3), (2, 3), (3, 3)]);
}

#[test]
fn clear_kills_every_cell_and_keeps_parameters() {
    let mut s = engine_120x90();
    s.randomize(true);
    s.adjust_update_delay(true);
    s.clear();
    assert_eq!(live_cells(&s).len(), 0);
    assert!(s.paused());
    assert_eq!(s.update_delay_ms(), 200);
    assert_eq!(s.delay_step_ms(), 100);
}

#[test]
fn advance_on_all_dead_grid_stays_all_dead() {
    let mut s = engine_with_cells(&[]);
    s.advance_generation();
    assert_eq!(live_cells(&s).len(), 0);
    s.advance_generation();
    assert_eq!(live_cells(&s).len(), 0);
}

#[test]
fn glider_translates_one_cell_diagonally_in_four_generations() {
    let mut s = engine_120x90();
    let before = live_cells(&s);
    for _ in 0..4 {
        s.advance_generation();
    }
    let after = live_cells(&s);
    let translated: Vec<(usize, usize)> = before.iter().map(|&(x, y)| (x + 1, y + 1)).collect();
    assert_eq!(after, translated);
}

#[test]
fn lone_live_cell_dies_of_underpopulation() {
    let mut s = engine_with_cells(&[(10, 10)]);
    s.advance_generation();
    assert!(!s.is_alive(10, 10));
}

#[test]
fn live_cell_with_four_neighbors_dies_of_overpopulation() {
    // A plus shape: the center has four live neighbors.
    let mut s = engine_with_cells(&[(4, 4), (3, 4), (5, 4), (4, 3), (4, 5)]);
    s.advance_generation();
    assert!(!s.is_alive(4, 4));
}

#[test]
fn dead_cell_with_three_neighbors_is_born() {
    // (3, 3) is dead with exactly three live neighbors.
    let mut s = engine_with_cells(&[(2, 2), (3, 2), (2, 3)]);
    s.advance_generation();
    assert!(s.is_alive(3, 3));
}

#[test]
fn dead_cell_with_two_neighbors_stays_dead() {
    // (20, 21) is dead with exactly two live neighbors.
    let mut s = engine_with_cells(&[(19, 20), (21, 20)]);
    s.advance_generation();
    assert!(!s.is_alive(20, 21));
}

#[test]
fn block_is_a_still_life() {
    let block = [(4, 4), (5, 4), (4, 5), (5, 5)];
    let mut s = engine_with_cells(&block);
    s.advance_generation();
    assert_eq!(live_cells(&s), vec![(4, 4), (5, 4), (4, 5), (5, 5)]);
}

#[test]
fn blinker_oscillates_with_period_two() {
    let mut s = engine_with_cells(&[(3, 4), (4, 4), (5, 4)]);
    s.advance_generation();
    assert_eq!(live_cells(&s), vec![(4, 3), (4, 4), (4, 5)]);
    s.advance_generation();
    assert_eq!(live_cells(&s), vec![(3, 4), (4, 4), (5, 4)]);
}

#[test]
fn neighbor_count_wraps_across_the_vertical_seam() {
    // A vertical blinker in column 0: the cell across the seam in column
    // w - 1 sees its three live cells as neighbors and is born, while the
    // blinker's own center survives.
    let mut s = engine_with_cells(&[(0, 3), (0, 4), (0, 5)]);
    s.advance_generation();
    assert!(s.is_alive(119, 4));
    assert!(s.is_alive(1, 4));
    assert!(s.is_alive(0, 4));
    assert!(!s.is_alive(0, 3));
    assert!(!s.is_alive(0, 5));
}

#[test]
fn neighbor_count_wraps_across_the_horizontal_seam() {
    // A horizontal blinker in row 0 is seen across the seam in row h - 1.
    let mut s = engine_with_cells(&[(3, 0), (4, 0), (5, 0)]);
    s.advance_generation();
    assert!(s.is_alive(4, 89));
    assert!(s.is_alive(4, 1));
    assert!(s.is_alive(4, 0));
}

#[test]
fn toggle_cell_twice_restores_the_grid() {
    let mut s = engine_120x90();
    let before = live_cells(&s);
    s.toggle_cell(7, 8);
    s.toggle_cell(7, 8);
    // Toggling a live seed cell twice restores it as well.
    s.toggle_cell(2, 1);
    s.toggle_cell(2, 1);
    assert_eq!(live_cells(&s), before);
}

#[test]
fn toggle_cell_flips_exactly_one_cell() {
    let mut s = engine_120x90();
    assert!(!s.is_alive(7, 8));
    s.toggle_cell(7, 8);
    assert!(s.is_alive(7, 8));
    assert_eq!(live_cells(&s).len(), 6);
}

#[test]
fn toggle_cell_out_of_bounds_is_ignored() {
    let mut s = engine_120x90();
    let before = live_cells(&s);
    s.toggle_cell(120, 0);
    s.toggle_cell(0, 90);
    s.toggle_cell(usize::MAX, usize::MAX);
    assert_eq!(live_cells(&s), before);
}

#[test]
fn is_alive_out_of_bounds_is_false() {
    let s = engine_120x90();
    assert!(!s.is_alive(120, 0));
    assert!(!s.is_alive(0, 90));
    assert!(!s.is_alive(usize::MAX, 0));
}

#[test]
fn toggle_pause_flips_the_flag() {
    let mut s = engine_120x90();
    assert!(s.paused());
    s.toggle_pause();
    assert!(!s.paused());
    s.toggle_pause();
    assert!(s.paused());
}

#[test]
fn engine_works_on_other_dimensions() {
    let mut s = MainState::new(8, 6);
    assert_eq!(s.width(), 8);
    assert_eq!(s.height(), 6);
    s.clear();
    s.toggle_cell(7, 5);
    assert!(s.is_alive(7, 5));
    assert!(!s.is_alive(8, 5));
    // A corner blinker wraps around both seams at once.
    s.toggle_cell(0, 5);
    s.toggle_cell(1, 5);
    // Live: (7,5), (0,5), (1,5) -- a row-5 blinker crossing the corner.
    s.advance_generation();
    assert!(s.is_alive(0, 5));
    assert!(s.is_alive(0, 4));
    assert!(s.is_alive(0, 0));
    assert!(!s.is_alive(7, 5));
    assert!(!s.is_alive(1, 5));
}
