use bracket_lib::random::RandomNumberGenerator;
use flappy_dragon::GameMode;
use flappy_dragon::Input;
use flappy_dragon::State;

fn assert_fresh_session(s: &State, mode: GameMode) {
    assert_eq!(s.mode, mode);
    assert_eq!(s.score, 0);
    assert_eq!(s.frame_time, 0);
    assert_eq!(s.obstacles.len(), 1);
    assert_eq!(s.obstacles[0].x, 80);
    assert_eq!(s.player.x, 5);
    assert_eq!(s.player.y, 250);
    assert_eq!(s.player.velocity, 0);
    assert_eq!(s.player.frame, 0);
}

#[test]
fn new_session_starts_on_menu() {
    let s = State::new_with_gap(25);
    assert_fresh_session(&s, GameMode::Menu);
    assert!(!s.quitting);
}

#[test]
fn menu_play_starts_a_session() {
    let mut rng = RandomNumberGenerator::seeded(3);
    let mut s = State::new(&mut rng);
    assert_eq!(s.mode, GameMode::Menu);
    s.tick(&mut rng, Input::Play, 16);
    assert_fresh_session(&s, GameMode::Playing);
    assert!(20 <= s.obstacles[0].gap_y && s.obstacles[0].gap_y < 29);
}

#[test]
fn menu_quit_raises_the_quit_flag() {
    let mut rng = RandomNumberGenerator::seeded(3);
    let mut s = State::new_with_gap(25);
    assert!(!s.quitting);
    s.tick(&mut rng, Input::Quit, 16);
    assert!(s.quitting);
    assert_eq!(s.mode, GameMode::Menu);
}

#[test]
fn unrecognized_menu_input_changes_nothing() {
    let mut rng = RandomNumberGenerator::seeded(3);
    let mut s = State::new_with_gap(25);
    s.tick(&mut rng, Input::Flap, 16);
    s.tick(&mut rng, Input::Escape, 16);
    s.tick(&mut rng, Input::Idle, 16);
    assert_fresh_session(&s, GameMode::Menu);
    assert!(!s.quitting);
}

#[test]
fn restart_resets_from_every_screen() {
    for mode in [GameMode::Playing, GameMode::Paused, GameMode::Dead] {
        let mut s = State::new_with_gap(25);
        // Wander off the fresh state.
        s.play_with_draws(Input::Idle, 41, 21, 10);
        s.play_with_draws(Input::Idle, 41, 27, 10);
        s.score = 7;
        s.mode = mode;
        s.restart_with_gap(28);
        assert_fresh_session(&s, GameMode::Playing);
        assert_eq!(s.obstacles[0].gap_y, 28);
    }
}

#[test]
fn ten_ticks_integrate_then_flap_rises() {
    let mut s = State::new_with_gap(25);
    s.restart_with_gap(25);
    // Each frame of 41 ms crosses the 40 ms threshold: exactly one tick.
    for _ in 0..10 {
        s.play_with_draws(Input::Idle, 41, 25, 1);
    }
    assert_eq!(s.mode, GameMode::Playing);
    assert_eq!(s.score, 0);
    assert_eq!(s.player.y, 305);
    assert_eq!(s.player.velocity, 10);
    assert_eq!(s.player.x, 15);
    // The flap lands between ticks and the next tick integrates it.
    s.play_with_draws(Input::Flap, 0, 25, 1);
    assert_eq!(s.player.velocity, -10);
    assert_eq!(s.player.y, 305);
    s.play_with_draws(Input::Idle, 41, 25, 1);
    assert_eq!(s.player.velocity, -9);
    assert_eq!(s.player.y, 305 - 9);
}

#[test]
fn accumulator_fires_only_past_the_threshold() {
    let mut s = State::new_with_gap(25);
    s.restart_with_gap(25);
    s.play_with_draws(Input::Idle, 40, 25, 1);
    assert_eq!(s.frame_time, 40);
    assert_eq!(s.player.y, 250); // no tick yet
    s.play_with_draws(Input::Idle, 1, 25, 1);
    assert_eq!(s.frame_time, 0);
    assert_eq!(s.player.y, 251); // exactly one tick
}

#[test]
fn zero_elapsed_frames_do_not_tick() {
    let mut s = State::new_with_gap(25);
    s.restart_with_gap(25);
    for _ in 0..5 {
        s.play_with_draws(Input::Idle, 0, 25, 1);
    }
    assert_eq!(s.player.y, 250);
    assert_eq!(s.player.x, 5);
}

#[test]
fn zero_elapsed_frames_never_spawn() {
    // Right after a restart the accumulator sits at zero; frames of zero
    // duration must not spawn, however favorable the draw, because no tick
    // fired.
    let mut s = State::new_with_gap(25);
    s.restart_with_gap(25);
    for _ in 0..10 {
        s.play_with_draws(Input::Idle, 0, 25, 10);
        assert_eq!(s.obstacles.len(), 1);
    }
}

#[test]
fn spawned_gates_sit_one_screen_ahead() {
    let mut s = State::new_with_gap(25);
    s.restart_with_gap(25);
    // The frame's tick fires and the draw passes the one-in-ten rule: one
    // gate spawns, a full screen width ahead of the advanced player.
    s.play_with_draws(Input::Idle, 41, 21, 10);
    assert_eq!(s.obstacles.len(), 2);
    assert_eq!(s.obstacles[0].x, 80);
    assert_eq!(s.obstacles[1].x, 6 + 80);
    assert_eq!(s.obstacles[1].gap_y, 21);
    // A tick frame whose draw fails the rule spawns nothing.
    s.play_with_draws(Input::Idle, 41, 21, 11);
    assert_eq!(s.obstacles.len(), 2);
}

#[test]
fn pause_preserves_state_and_resume_continues() {
    let mut rng = RandomNumberGenerator::seeded(9);
    let mut s = State::new_with_gap(25);
    s.restart_with_gap(25);
    for _ in 0..3 {
        s.play_with_draws(Input::Idle, 41, 25, 1);
    }
    let y = s.player.y;
    s.play_with_draws(Input::Escape, 0, 25, 1);
    assert_eq!(s.mode, GameMode::Paused);
    assert_eq!(s.player.y, y);
    s.tick(&mut rng, Input::Idle, 16);
    assert_eq!(s.mode, GameMode::Paused);
    s.tick(&mut rng, Input::Escape, 16);
    assert_eq!(s.mode, GameMode::Playing);
    assert_eq!(s.player.y, y);
    assert_eq!(s.score, 0);
}

#[test]
fn pause_quit_raises_the_quit_flag() {
    let mut rng = RandomNumberGenerator::seeded(9);
    let mut s = State::new_with_gap(25);
    s.restart_with_gap(25);
    s.play_with_draws(Input::Escape, 0, 25, 1);
    assert_eq!(s.mode, GameMode::Paused);
    s.tick(&mut rng, Input::Quit, 16);
    assert!(s.quitting);
}

#[test]
fn passing_a_gate_scores_and_retires_it() {
    let mut s = State::new_with_gap(25);
    s.restart_with_gap(25);
    // Put the player one column past the only gate.
    s.player.x = 81;
    s.play_with_draws(Input::Idle, 0, 25, 1);
    assert_eq!(s.score, 1);
    assert_eq!(s.obstacles.len(), 0);
    assert_eq!(s.mode, GameMode::Playing);
}

#[test]
fn falling_past_the_bottom_kills_even_with_pending_input() {
    let mut s = State::new_with_gap(25);
    s.restart_with_gap(25);
    s.player.y = 510; // row 51, past the bottom boundary
    s.play_with_draws(Input::Flap, 0, 25, 1);
    assert_eq!(s.mode, GameMode::Dead);
}

#[test]
fn colliding_with_a_gate_wall_kills() {
    let mut s = State::new_with_gap(25);
    s.restart_with_gap(25);
    s.player.x = 80; // same column as the only obstacle
    s.player.y = 10; // row 1, above the gap
    s.play_with_draws(Input::Idle, 0, 25, 1);
    assert_eq!(s.mode, GameMode::Dead);
}

#[test]
fn flying_through_the_gap_survives() {
    let mut s = State::new_with_gap(25);
    s.restart_with_gap(25);
    s.player.x = 80;
    s.player.y = 250; // the gap's center
    s.play_with_draws(Input::Idle, 0, 25, 1);
    assert_eq!(s.mode, GameMode::Playing);
}

#[test]
fn dead_screen_play_restarts_and_quit_quits() {
    let mut rng = RandomNumberGenerator::seeded(11);
    let mut s = State::new_with_gap(25);
    s.restart_with_gap(25);
    s.player.y = 510;
    s.play_with_draws(Input::Idle, 0, 25, 1);
    assert_eq!(s.mode, GameMode::Dead);
    s.tick(&mut rng, Input::Flap, 16);
    assert_eq!(s.mode, GameMode::Dead);
    s.tick(&mut rng, Input::Play, 16);
    assert_fresh_session(&s, GameMode::Playing);

    s.player.y = 510;
    s.play_with_draws(Input::Idle, 0, 25, 1);
    assert_eq!(s.mode, GameMode::Dead);
    s.tick(&mut rng, Input::Quit, 16);
    assert!(s.quitting);
}

#[test]
fn stream_stays_in_strict_column_order() {
    // Spawn on every tick frame (draw 10 passes the one-in-ten rule) and let
    // gates retire as the player passes them.
    let mut s = State::new_with_gap(25);
    s.restart_with_gap(25);
    for _ in 0..300 {
        s.play_with_draws(Input::Flap, 41, 25, 10);
        for w in s.obstacles.windows(2) {
            assert!(w[0].x < w[1].x);
        }
        for ob in &s.obstacles {
            assert!(ob.x <= s.player.x + 80);
        }
    }
    assert!(s.score > 0);
}

#[test]
fn random_session_keeps_its_invariants() {
    let mut rng = RandomNumberGenerator::seeded(1234);
    let mut s = State::new(&mut rng);
    s.tick(&mut rng, Input::Play, 16);
    assert_eq!(s.mode, GameMode::Playing);
    for frame in 0..2000 {
        if s.mode != GameMode::Playing {
            break;
        }
        let input = if frame % 23 == 0 { Input::Flap } else { Input::Idle };
        s.tick(&mut rng, input, 16);
        assert!(s.score >= 0);
        assert!(s.player.y >= 0);
        for ob in &s.obstacles {
            assert!(20 <= ob.gap_y && ob.gap_y < 29);
            assert!(ob.x <= s.player.x + 80);
        }
        for w in s.obstacles.windows(2) {
            assert!(w[0].x < w[1].x);
        }
    }
}
