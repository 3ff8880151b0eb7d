use voxel_engine::camera::Camera3D;

#[test]
fn rotate_right_wraps_yaw_below_zero() {
    // 90 raw units at 0.1 degrees per unit turn the view by -9 degrees,
    // which normalises to 351.0 degrees, i.e. 3510 tenths.
    let mut c = Camera3D::new();
    c.rotate_xy(90, 0);
    assert_eq!(c.yaw, 3510);
    assert_eq!(c.pitch, 0);
}

#[test]
fn rotate_left_stays_below_full_turn() {
    let mut c = Camera3D::new();
    c.rotate_xy(-900, 0);
    assert_eq!(c.yaw, 900);
}

#[test]
fn rotate_full_turn_returns_to_start() {
    let mut c = Camera3D::new();
    c.rotate_xy(-3600, 0);
    assert_eq!(c.yaw, 0);
    c.rotate_xy(7200, 0);
    assert_eq!(c.yaw, 0);
}

#[test]
fn yaw_stays_in_range_over_any_sequence() {
    let mut c = Camera3D::new();
    let deltas: Vec<(i64, i64)> = vec![
        (90, 10),
        (-123456789, 4),
        (3599, -2),
        (1, 1),
        (i64::MAX, 0),
        (i64::MIN, 0),
        (-7, 100000),
    ];
    for (dx, dy) in deltas {
        c.rotate_xy(dx, dy);
        assert!(c.yaw < 3600);
        assert!(-890 <= c.pitch && c.pitch <= 890);
    }
}

#[test]
fn pitch_snaps_exactly_to_upper_bound() {
    // Pitch decreases by the delta, so a huge negative delta pushes it up;
    // it must land exactly on the bound, not wrap past it.
    let mut c = Camera3D::new();
    c.rotate_xy(0, -100_000);
    assert_eq!(c.pitch, 890);
}

#[test]
fn pitch_snaps_exactly_to_lower_bound() {
    let mut c = Camera3D::new();
    c.rotate_xy(0, 100_000);
    assert_eq!(c.pitch, -890);
}

#[test]
fn pitch_moves_exactly_inside_the_bounds() {
    let mut c = Camera3D::new();
    c.rotate_xy(0, 50);
    assert_eq!(c.pitch, -50);
    c.rotate_xy(0, -300);
    assert_eq!(c.pitch, 250);
}
