use flappy_dragon::draw::{Color, Draw};
use flappy_dragon::player::{
    Player, FLAP_VELOCITY, GRAVITY, PLAYER_COLUMN, PLAYER_GLYPH, TERMINAL_VELOCITY,
    VELOCITY_SCALE,
};

fn rows_per_step(player: &Player) -> f64 {
    f64::from(player.velocity) / f64::from(VELOCITY_SCALE)
}

#[test]
fn new_player_is_at_rest_where_it_was_put() {
    let player = Player::new(5, 25);
    assert_eq!(player, Player { x: 5, y: 25, velocity: 0 });
}

#[test]
fn velocity_constants_are_in_tenths_of_a_row() {
    assert_eq!(VELOCITY_SCALE, 10);
    assert_eq!(f64::from(GRAVITY) / f64::from(VELOCITY_SCALE), 0.2);
    assert_eq!(f64::from(TERMINAL_VELOCITY) / f64::from(VELOCITY_SCALE), 2.0);
    assert_eq!(f64::from(FLAP_VELOCITY) / f64::from(VELOCITY_SCALE), -2.0);
}

#[test]
fn first_step_from_rest_gains_speed_but_no_row() {
    let mut player = Player::new(5, 25);
    player.gravity_and_move();
    assert_eq!(rows_per_step(&player), 0.2);
    assert_eq!(player.y, 25);
    assert_eq!(player.x, 6);
}

#[test]
fn gravity_adds_a_fifth_of_a_row_per_step_up_to_the_cap() {
    let mut player = Player::new(0, 0);
    let mut seen = Vec::new();
    for _ in 0..14 {
        player.gravity_and_move();
        seen.push(player.velocity);
    }
    assert_eq!(seen, vec![2, 4, 6, 8, 10, 12, 14, 16, 18, 20, 20, 20, 20, 20]);
}

#[test]
fn fall_moves_by_whole_rows_only() {
    let mut player = Player::new(0, 0);
    let mut rows = Vec::new();
    for _ in 0..12 {
        player.gravity_and_move();
        rows.push(player.y);
    }
    // velocities 0.2 .. 0.8 move nothing, 1.0 .. 1.8 one row, 2.0 two rows
    assert_eq!(rows, vec![0, 0, 0, 0, 1, 2, 3, 4, 5, 7, 9, 11]);
}

#[test]
fn rise_after_a_flap_moves_by_whole_rows_only() {
    let mut player = Player::new(0, 40);
    player.flap();
    let mut rows = Vec::new();
    for _ in 0..11 {
        player.gravity_and_move();
        rows.push(player.y);
    }
    // velocities -1.8 .. -1.0 move one row up, -0.8 .. 0.2 move nothing
    assert_eq!(rows, vec![39, 38, 37, 36, 35, 35, 35, 35, 35, 35, 35]);
    assert_eq!(player.velocity, 2);
}

#[test]
fn negative_velocity_is_cut_towards_zero() {
    let mut player = Player { x: 0, y: 10, velocity: -10 };
    player.gravity_and_move();
    assert_eq!(player.velocity, -8);
    assert_eq!(player.y, 10);
    let mut player = Player { x: 0, y: 10, velocity: -12 };
    player.gravity_and_move();
    assert_eq!(player.velocity, -10);
    assert_eq!(player.y, 9);
}

#[test]
fn step_at_terminal_velocity_keeps_the_velocity() {
    let mut player = Player { x: 3, y: 7, velocity: TERMINAL_VELOCITY };
    player.gravity_and_move();
    assert_eq!(player, Player { x: 4, y: 9, velocity: TERMINAL_VELOCITY });
}

#[test]
fn dragon_never_rises_above_the_top_row() {
    let mut player = Player { x: 0, y: 0, velocity: FLAP_VELOCITY };
    for _ in 0..6 {
        player.gravity_and_move();
        assert_eq!(player.y, 0);
    }
    let mut player = Player { x: 0, y: 1, velocity: FLAP_VELOCITY };
    player.gravity_and_move();
    assert_eq!(player.y, 0);
    player.gravity_and_move();
    assert_eq!(player.y, 0);
}

#[test]
fn every_step_advances_exactly_one_column() {
    let mut player = Player::new(5, 25);
    for step in 1..=100 {
        player.gravity_and_move();
        if step % 7 == 0 {
            player.flap();
        }
        assert_eq!(player.x, 5 + step);
    }
}

#[test]
fn flap_sets_velocity_whatever_it_was() {
    for before in [-20, -18, -2, 0, 2, 10, 18, 20] {
        let mut player = Player { x: 9, y: 30, velocity: before };
        player.flap();
        assert_eq!(player, Player { x: 9, y: 30, velocity: -20 });
        assert_eq!(rows_per_step(&player), -2.0);
    }
}

#[test]
fn dragon_is_drawn_in_its_column_at_its_row() {
    let player = Player { x: 77, y: 13, velocity: 4 };
    let mut draws = vec![Draw::Clear];
    player.render(&mut draws);
    assert_eq!(
        draws,
        vec![
            Draw::Clear,
            // 64 stands for '@' in code page 437
            Draw::Glyph { x: 0, y: 13, fg: Color::Yellow, bg: Color::Black, glyph: 64 },
        ]
    );
    assert_eq!(PLAYER_COLUMN, 0);
    assert_eq!(PLAYER_GLYPH, '@');
}
