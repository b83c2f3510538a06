use rotary_dial::angle::resolve_angle;

#[test]
fn angle_at_midpoint() {
    // Raw counter at 64 of a 128 period, zero offset: half a turn.
    assert_eq!(resolve_angle(64, 0), 180);
}

#[test]
fn angle_at_zero() {
    assert_eq!(resolve_angle(0, 0), 0);
}

#[test]
fn wraparound_at_period() {
    // period - 1 resolves to the last whole-degree step...
    assert_eq!(resolve_angle(127, 0), 357);
    // ...and the period itself wraps to 0, not 360.
    assert_eq!(resolve_angle(0, 128), 0);
    assert_eq!(resolve_angle(28, 100), 0);
}

#[test]
fn wraparound_below_zero() {
    // One unit below zero wraps to period - 1, never to a negative angle.
    assert_eq!(resolve_angle(-1, 0), 357);
    assert_eq!(resolve_angle(99, -100), 357);
}

#[test]
fn whole_turns_are_discarded() {
    // The same angle whatever the number of full revolutions accumulated.
    assert_eq!(resolve_angle(64, 128), 180);
    assert_eq!(resolve_angle(64, -256), 180);
    assert_eq!(resolve_angle(64, 1280), 180);
}

#[test]
fn scaling_is_whole_degrees() {
    // One raw unit is 360/128 degrees, truncated to whole degrees.
    assert_eq!(resolve_angle(1, 0), 2);
    assert_eq!(resolve_angle(32, 0), 90);
    assert_eq!(resolve_angle(96, 0), 270);
}
