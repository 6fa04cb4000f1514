use genuary::circles::{
    cycle_angle, cycle_cycle, wrap, Model, ANGLE_BOUND, CYCLE_BOUND, CYCLE_STEP, RECORD_SECS, SEPARATION_LIMIT,
    SPEED_LIMIT, START_LIMIT,
};
use genuary::framework::{Key, RunMode};

fn in_bounds(m: &Model) -> bool {
    [m.red_angle, m.green_angle, m.blue_angle].iter().all(|a| a.abs() <= ANGLE_BOUND)
        && [m.red_speed, m.green_speed, m.blue_speed].iter().all(|s| s.abs() <= SPEED_LIMIT)
        && m.cycle.abs() <= CYCLE_BOUND
}

#[test]
fn wrap_reflects_by_full_range() {
    assert_eq!(wrap(361_000, 360_000), -359_000);
    assert_eq!(wrap(-361_000, 360_000), 359_000);
    assert_eq!(wrap(360_000, 360_000), 360_000);
    assert_eq!(wrap(-360_000, 360_000), -360_000);
    assert_eq!(wrap(12, 360_000), 12);
}

#[test]
fn angle_step_stays_in_range() {
    assert_eq!(cycle_angle(359_800, 500), -359_700);
    assert_eq!(cycle_angle(-359_800, -500), 359_700);
    assert_eq!(cycle_angle(1_000, -573), 427);
    for a in [-ANGLE_BOUND, -1, 0, 1, ANGLE_BOUND] {
        for s in [-2 * ANGLE_BOUND + 1, -SPEED_LIMIT, 0, SPEED_LIMIT, 2 * ANGLE_BOUND - 1] {
            let r = cycle_angle(a, s);
            assert!(-ANGLE_BOUND <= r && r <= ANGLE_BOUND);
        }
    }
}

#[test]
fn cycle_wraps_at_both_ends() {
    assert_eq!(cycle_cycle(100_500), -99_500);
    assert_eq!(cycle_cycle(-100_500), 99_500);
    assert_eq!(cycle_cycle(100_000), 100_000);
    assert_eq!(cycle_cycle(0), 0);
}

#[test]
fn cycle_does_not_drift_over_many_steps() {
    for start in [-CYCLE_BOUND, -55_555, 0, 99_999, CYCLE_BOUND] {
        let mut v = start;
        for _ in 0..1000 {
            v = cycle_cycle(v + CYCLE_STEP);
            assert!(-CYCLE_BOUND <= v && v <= CYCLE_BOUND);
        }
    }
}

#[test]
fn set_values_places_siblings_around_base() {
    let mut m = Model::from_draws(RunMode::Production, "c".to_string(), 0, 0, 0, 0);
    m.set_values(1_000, 2_000, -300, 50_000);
    assert_eq!((m.red_angle, m.green_angle, m.blue_angle), (1_000, 3_000, -1_000));
    assert_eq!((m.red_speed, m.green_speed, m.blue_speed), (-300, -300, -300));
    assert_eq!(m.cycle, 50_000);
}

#[test]
fn update_advances_every_channel() {
    let mut m = Model::from_draws(RunMode::Debug, "c".to_string(), 179_900, 200, 400, 99_500);
    m.update(0);
    assert_eq!(m.red_angle, 180_300);
    assert_eq!(m.green_angle, 180_500);
    assert_eq!(m.blue_angle, 180_100);
    assert_eq!(m.cycle, -99_500);
    assert!(m.control.recording);
    m.update(RECORD_SECS + 1);
    assert!(!m.control.recording);
}

#[test]
fn regenerate_then_advance_stays_bounded() {
    let mut m = Model::new(RunMode::Production, "c".to_string());
    assert!(m.control.recording);
    for _ in 0..200 {
        m.new_values();
        assert!(in_bounds(&m));
        assert!(m.red_angle >= -START_LIMIT && m.red_angle < START_LIMIT);
        assert!((m.green_angle - m.red_angle).abs() <= SEPARATION_LIMIT);
        m.advance();
        assert!(in_bounds(&m));
    }
    let extreme = [
        (START_LIMIT - 1, SEPARATION_LIMIT - 1, SPEED_LIMIT - 1, CYCLE_BOUND - 1),
        (-START_LIMIT, -SEPARATION_LIMIT, -SPEED_LIMIT, -CYCLE_BOUND),
    ];
    for (start, sep, speed, cycle) in extreme {
        m.set_values(start, sep, speed, cycle);
        m.advance();
        assert!(in_bounds(&m));
    }
}

#[test]
fn space_regenerates_other_keys_do_not() {
    let mut m = Model::from_draws(RunMode::Production, "c".to_string(), 5, 6, 7, 8);
    m.key_released(Key::Other);
    assert_eq!((m.red_angle, m.green_angle, m.cycle), (5, 11, 8));
    m.key_released(Key::S);
    assert!(m.control.save_frame);
    assert_eq!((m.red_angle, m.green_angle, m.cycle), (5, 11, 8));
    m.key_released(Key::M);
    assert_eq!(m.control.run_mode, RunMode::Debug);
    assert!(!m.sketch_key_released(Key::M));
    assert!(m.sketch_key_released(Key::Space));
    assert!(in_bounds(&m));
    assert_eq!(m.green_angle - m.red_angle, m.red_angle - m.blue_angle);
}
