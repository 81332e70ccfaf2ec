use flappy_dragon::Player;

#[test]
fn new_player_is_at_rest() {
    let p = Player::new(5, 25);
    assert_eq!(p.x, 5);
    assert_eq!(p.y, 250);
    assert_eq!(p.velocity, 0);
    assert_eq!(p.frame, 0);
}

#[test]
fn gravity_integrates_deterministically() {
    // From rest, ten ticks accumulate velocities 1..=10 tenths of a cell.
    let mut p = Player::new(5, 25);
    for _ in 0..10 {
        p.gravity_and_mode();
    }
    assert_eq!(p.velocity, 10);
    assert_eq!(p.y, 250 + (1 + 2 + 3 + 4 + 5 + 6 + 7 + 8 + 9 + 10));
    assert_eq!(p.x, 15);
    assert_eq!(p.frame, 10 % 6);
}

#[test]
fn fall_is_monotonic_and_never_negative() {
    let mut p = Player::new(5, 25);
    let mut last_y = p.y;
    for _ in 0..100 {
        p.gravity_and_mode();
        assert!(p.y >= last_y);
        assert!(p.y >= 0);
        last_y = p.y;
    }
}

#[test]
fn velocity_caps_at_maximum_fall_speed() {
    let mut p = Player::new(5, 25);
    for _ in 0..50 {
        p.gravity_and_mode();
    }
    assert_eq!(p.velocity, 20);
    p.gravity_and_mode();
    assert_eq!(p.velocity, 20);
}

#[test]
fn flap_overrides_any_prior_velocity() {
    let mut p = Player::new(5, 25);
    p.flap();
    assert_eq!(p.velocity, -10);

    // Falling at the cap.
    for _ in 0..50 {
        p.gravity_and_mode();
    }
    assert_eq!(p.velocity, 20);
    p.flap();
    assert_eq!(p.velocity, -10);

    // Already rising: a second flap does not add, it overrides.
    p.flap();
    assert_eq!(p.velocity, -10);
}

#[test]
fn flap_then_one_tick_rises_by_nine_tenths() {
    let mut p = Player::new(5, 25);
    for _ in 0..10 {
        p.gravity_and_mode();
    }
    let pre_flap_y = p.y;
    assert_eq!(pre_flap_y, 305);
    p.flap();
    p.gravity_and_mode();
    assert_eq!(p.velocity, -9);
    assert_eq!(p.y, pre_flap_y - 9);
}

#[test]
fn vertical_position_clamps_at_top_of_screen() {
    let mut p = Player::new(5, 0);
    p.flap();
    p.gravity_and_mode();
    assert_eq!(p.y, 0);
    p.gravity_and_mode();
    assert_eq!(p.y, 0);
}

#[test]
fn animation_frame_cycles() {
    let mut p = Player::new(5, 25);
    for tick in 1..=13 {
        p.gravity_and_mode();
        assert_eq!(p.frame, tick % 6);
    }
}
