use krida::game::MainState;

#[test]
fn decrease_never_drives_update_delay_to_or_below_the_floor() {
    let mut s = MainState::new(120, 90);
    // At the floor itself every decrease is a no-op.
    for _ in 0..50 {
        s.adjust_update_delay(false);
        assert_eq!(s.update_delay_ms(), 100);
    }
    // From above the floor, decreases stop before reaching it.
    for _ in 0..3 {
        s.adjust_update_delay(true);
    }
    assert_eq!(s.update_delay_ms(), 400);
    for _ in 0..50 {
        s.adjust_update_delay(false);
        assert!(s.update_delay_ms() > 100);
    }
    // 400 -> 300 -> 200; 200 - 100 would land at the floor, so it stays.
    assert_eq!(s.update_delay_ms(), 200);
}

#[test]
fn increase_update_delay_adds_the_current_step() {
    let mut s = MainState::new(120, 90);
    s.adjust_delay_step(false);
    s.adjust_delay_step(false);
    assert_eq!(s.delay_step_ms(), 80);
    s.adjust_update_delay(true);
    assert_eq!(s.update_delay_ms(), 180);
    s.adjust_update_delay(true);
    assert_eq!(s.update_delay_ms(), 260);
}

#[test]
fn delay_step_stays_clamped_between_10_and_100() {
    let mut s = MainState::new(120, 90);
    for i in 0..20 {
        s.adjust_delay_step(false);
        let step = s.delay_step_ms();
        assert!((10..=100).contains(&step));
        if i >= 9 {
            assert_eq!(step, 10);
        }
    }
    for i in 0..20 {
        s.adjust_delay_step(true);
        let step = s.delay_step_ms();
        assert!((10..=100).contains(&step));
        if i >= 9 {
            assert_eq!(step, 100);
        }
    }
}

#[test]
fn reset_delay_restores_both_defaults() {
    let mut s = MainState::new(120, 90);
    for _ in 0..7 {
        s.adjust_update_delay(true);
    }
    for _ in 0..4 {
        s.adjust_delay_step(false);
    }
    assert_ne!(s.update_delay_ms(), 100);
    assert_ne!(s.delay_step_ms(), 100);
    s.reset_delay();
    assert_eq!(s.update_delay_ms(), 100);
    assert_eq!(s.delay_step_ms(), 100);
}

#[test]
fn delay_adjustments_leave_the_grid_alone() {
    let mut s = MainState::new(120, 90);
    s.adjust_update_delay(true);
    s.adjust_delay_step(false);
    s.reset_delay();
    assert!(s.is_alive(2, 1));
    assert!(s.is_alive(3, 3));
    assert!(!s.is_alive(0, 0));
}

fn count_alive(s: &MainState) -> usize {
    let mut count = 0;
    for y in 0..s.height() {
        for x in 0..s.width() {
            if s.is_alive(x, y) {
                count += 1;
            }
        }
    }
    count
}

#[test]
fn randomize_sparse_yields_about_ten_percent_alive() {
    // 10800 cells at p ~ 0.1: mean 1080, standard deviation ~ 31. The
    // bounds below are more than nine standard deviations wide.
    let mut s = MainState::new(120, 90);
    s.randomize(false);
    let alive = count_alive(&s);
    assert!(
        (780..=1380).contains(&alive),
        "sparse randomize: {alive} of 10800 cells alive"
    );
}

#[test]
fn randomize_dense_yields_about_half_alive() {
    // 10800 cells at p ~ 0.5: mean 5400, standard deviation ~ 52.
    let mut s = MainState::new(120, 90);
    s.randomize(true);
    let alive = count_alive(&s);
    assert!(
        (4900..=5900).contains(&alive),
        "dense randomize: {alive} of 10800 cells alive"
    );
}

#[test]
fn randomize_keeps_pause_and_timing() {
    let mut s = MainState::new(120, 90);
    s.adjust_update_delay(true);
    s.randomize(true);
    assert!(s.paused());
    assert_eq!(s.update_delay_ms(), 200);
    assert_eq!(s.delay_step_ms(), 100);
    s.randomize(false);
    assert_eq!(s.update_delay_ms(), 200);
}
