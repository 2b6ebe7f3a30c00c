use walkers::position::{mul_div_trunc, sat_add_i64, AdjustedPosition, Pixels, Position};

#[test]
fn saturating_add_clamps_at_the_ends() {
    assert_eq!(sat_add_i64(1, 2), 3);
    assert_eq!(sat_add_i64(-5, 2), -3);
    assert_eq!(sat_add_i64(i64::MAX, 1), i64::MAX);
    assert_eq!(sat_add_i64(i64::MAX - 1, 1), i64::MAX);
    assert_eq!(sat_add_i64(i64::MIN, -1), i64::MIN);
    assert_eq!(sat_add_i64(i64::MIN + 1, -1), i64::MIN);
}

#[test]
fn scaled_division_truncates_toward_zero() {
    assert_eq!(mul_div_trunc(7, 500, 1000), 3);
    assert_eq!(mul_div_trunc(-7, 500, 1000), -3);
    assert_eq!(mul_div_trunc(1000, 1000, 1000), 1000);
    assert_eq!(mul_div_trunc(0, 999, 1000), 0);
    assert_eq!(mul_div_trunc(i64::MIN, 1000, 1000), i64::MIN);
}

#[test]
fn pixels_scale_by_thousandths() {
    let v = Pixels::new(10_000, -2_000);
    assert_eq!(v.scaled_milli(250), Pixels::new(2_500, -500));
    assert_eq!(v.scaled_milli(1000), v);
    assert_eq!(v.scaled_milli(0), Pixels::new(0, 0));
}

#[test]
fn adjusted_position_shift_touches_only_the_offset() {
    let ap = AdjustedPosition::new(Position::new(7, 8), Pixels::new(100, 200));
    let moved = ap.shift(Pixels::new(-30, 5));
    assert_eq!(moved.position, Position::new(7, 8));
    assert_eq!(moved.offset, Pixels::new(70, 205));
}
