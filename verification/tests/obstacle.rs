use bracket_lib::random::RandomNumberGenerator;
use flappy_dragon::Obstacle;
use flappy_dragon::Player;

fn player_at(x: i32, y_tenths: i32) -> Player {
    let mut p = Player::new(x, 0);
    p.y = y_tenths;
    p
}

#[test]
fn random_gap_stays_in_band() {
    let mut rng = RandomNumberGenerator::seeded(7);
    for _ in 0..200 {
        let ob = Obstacle::new(&mut rng, 80);
        assert_eq!(ob.x, 80);
        assert_eq!(ob.size, 40);
        assert!(20 <= ob.gap_y && ob.gap_y < 29);
        // The whole gap lies on the playable rows, above the ground row.
        assert!(ob.gap_y - ob.size / 2 >= 0);
        assert!(ob.gap_y + ob.size / 2 < 49);
    }
}

#[test]
fn no_hit_when_columns_differ() {
    let ob = Obstacle::with_gap(10, 25);
    // Rows far outside the gap, but the columns never match.
    assert!(!ob.hit_obstacle(&player_at(9, 0)));
    assert!(!ob.hit_obstacle(&player_at(11, 0)));
    assert!(!ob.hit_obstacle(&player_at(9, 490)));
    assert!(!ob.hit_obstacle(&player_at(0, 490)));
}

#[test]
fn hit_iff_strictly_outside_gap() {
    // Gap centered on row 25 with half-size 20: rows 5 through 45 pass.
    let ob = Obstacle::with_gap(10, 25);
    assert!(ob.hit_obstacle(&player_at(10, 40))); // row 4, above the gap
    assert!(!ob.hit_obstacle(&player_at(10, 50))); // row 5, the gap's edge
    assert!(!ob.hit_obstacle(&player_at(10, 250))); // row 25, the center
    assert!(!ob.hit_obstacle(&player_at(10, 450))); // row 45, the gap's edge
    assert!(ob.hit_obstacle(&player_at(10, 460))); // row 46, below the gap
}

#[test]
fn partial_rows_truncate_to_cells() {
    let ob = Obstacle::with_gap(10, 25);
    // Row 4.9 still truncates to cell 4, above the gap.
    assert!(ob.hit_obstacle(&player_at(10, 49)));
    // Row 45.9 truncates to cell 45, still inside the gap.
    assert!(!ob.hit_obstacle(&player_at(10, 459)));
}
