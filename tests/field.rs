use falling_emitters::field::{
    drift, has_fallen, new_wave, wave_at, Emitter, FLOOR_Y, SPAWN_X_MAX, SPAWN_X_MIN, SPAWN_Y,
    UNIT, WAVE_SIZE,
};

#[test]
fn drift_one_second_drops_ten_units() {
    assert_eq!(drift(30 * UNIT, 1_000_000), 20 * UNIT);
}

#[test]
fn drift_by_a_frame() {
    assert_eq!(drift(0, 16_667), -166_670);
}

#[test]
fn drift_zero_time_keeps_height() {
    assert_eq!(drift(1234, 0), 1234);
}

#[test]
fn drift_saturates_at_lowest_height() {
    assert_eq!(drift(i64::MIN + 5, 1), i64::MIN);
    assert_eq!(drift(0, u64::MAX), i64::MIN);
    assert_eq!(drift(i64::MAX, u64::MAX), i64::MIN);
}

#[test]
fn drift_in_two_frames_equals_one() {
    let y = SPAWN_Y;
    assert_eq!(drift(drift(y, 10_000), 25_000), drift(y, 35_000));
}

#[test]
fn floor_is_strict() {
    assert!(!has_fallen(FLOOR_Y));
    assert!(has_fallen(FLOOR_Y - 1));
    assert!(!has_fallen(0));
    assert_eq!(FLOOR_Y, -25_000_000);
}

#[test]
fn emitter_falls_past_floor_after_five_and_a_half_seconds() {
    let mut e = Emitter::spawned_at(7);
    e.fall(5_500_000);
    assert_eq!(e, Emitter { x: 7, y: FLOOR_Y });
    assert!(!e.is_fallen());
    e.fall(1);
    assert_eq!(e.y, FLOOR_Y - 10);
    assert!(e.is_fallen());
}

#[test]
fn spawned_emitter_is_at_spawn_height() {
    let e = Emitter::spawned_at(-3 * UNIT);
    assert_eq!(e.x, -3_000_000);
    assert_eq!(e.y, 30_000_000);
}

#[test]
fn wave_at_keeps_offsets_in_order() {
    let w = wave_at(&vec![5, -5, 0]);
    assert_eq!(
        w,
        vec![
            Emitter { x: 5, y: SPAWN_Y },
            Emitter { x: -5, y: SPAWN_Y },
            Emitter { x: 0, y: SPAWN_Y }
        ]
    );
}

#[test]
fn wave_at_empty() {
    assert!(wave_at(&Vec::new()).is_empty());
}

#[test]
fn new_wave_has_ten_emitters_in_range() {
    let w = new_wave();
    assert_eq!(w.len(), WAVE_SIZE);
    assert_eq!(WAVE_SIZE, 10);
    for e in &w {
        assert_eq!(e.y, SPAWN_Y);
        assert!(SPAWN_X_MIN <= e.x && e.x < SPAWN_X_MAX);
        assert!(-50_000_000 <= e.x && e.x < 50_000_000);
    }
}

#[test]
fn new_wave_draws_offsets() {
    let mut seen_other = false;
    for _ in 0..20 {
        let w = new_wave();
        if w.iter().any(|e| e.x != w[0].x) {
            seen_other = true;
        }
    }
    assert!(seen_other);
}
