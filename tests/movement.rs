use tile_walker::direction::{resolve_direction, Direction};
use tile_walker::player::{mid, Player};

#[test]
fn to_delta_of_each_direction() {
    assert_eq!(Direction::North.to_delta(), (0, 1));
    assert_eq!(Direction::West.to_delta(), (1, 0));
    assert_eq!(Direction::South.to_delta(), (0, -1));
    assert_eq!(Direction::East.to_delta(), (-1, 0));
}

#[test]
fn up_and_down_together_resolve_to_south() {
    assert_eq!(resolve_direction(Direction::West, false, false, true, true), Direction::South);
}

#[test]
fn single_buttons_resolve_to_their_direction() {
    assert_eq!(resolve_direction(Direction::North, true, false, false, false), Direction::West);
    assert_eq!(resolve_direction(Direction::North, false, true, false, false), Direction::East);
    assert_eq!(resolve_direction(Direction::East, false, false, true, false), Direction::North);
    assert_eq!(resolve_direction(Direction::North, false, false, false, true), Direction::South);
}

#[test]
fn later_buttons_override_earlier_ones() {
    assert_eq!(resolve_direction(Direction::North, true, true, false, false), Direction::East);
    assert_eq!(resolve_direction(Direction::South, true, true, true, false), Direction::North);
    assert_eq!(resolve_direction(Direction::North, true, true, true, true), Direction::South);
}

#[test]
fn no_button_keeps_the_facing() {
    assert_eq!(resolve_direction(Direction::East, false, false, false, false), Direction::East);
    assert_eq!(resolve_direction(Direction::South, false, false, false, false), Direction::South);
}

#[test]
fn mid_picks_the_middle_value() {
    assert_eq!(mid(0, -3, 14), 0);
    assert_eq!(mid(0, 7, 14), 7);
    assert_eq!(mid(0, 15, 14), 14);
    assert_eq!(mid(5, 1, 3), 3);
    assert_eq!(mid(2, 2, 9), 2);
}

#[test]
fn new_player_starts_at_one_one_facing_west() {
    let p = Player::new();
    assert_eq!((p.x(), p.y()), (1, 1));
    assert_eq!(p.direction(), Direction::West);
    assert_eq!(p.move_cooldown_max(), 30);
    assert_eq!(p.move_cooldown(), 30);
    let d = Player::default();
    assert_eq!((d.x(), d.y(), d.direction(), d.move_cooldown()), (1, 1, Direction::West, 30));
}

#[test]
fn thirty_west_frames_move_one_tile() {
    let mut p = Player::new();
    for _ in 0..29 {
        p.update(Direction::West);
        assert_eq!((p.x(), p.y()), (1, 1));
    }
    assert_eq!(p.move_cooldown(), 1);
    p.update(Direction::West);
    assert_eq!((p.x(), p.y()), (2, 1));
    assert_eq!(p.move_cooldown(), 30);
}

#[test]
fn one_move_in_each_window_of_thirty_frames() {
    let mut p = Player::new();
    for _ in 0..10 {
        p.update(Direction::North);
    }
    assert_eq!((p.x(), p.y(), p.move_cooldown()), (1, 1, 20));
    let mut moves = 0;
    let mut last = (p.x(), p.y());
    for _ in 0..30 {
        p.update(Direction::North);
        let now = (p.x(), p.y());
        if now != last {
            assert_eq!(now, (last.0, last.1 + 1));
            moves += 1;
        }
        last = now;
    }
    assert_eq!(moves, 1);
    assert_eq!((p.x(), p.y()), (1, 2));
}

#[test]
fn facing_changes_even_without_a_move() {
    let mut p = Player::new();
    p.update(Direction::South);
    assert_eq!(p.direction(), Direction::South);
    assert_eq!((p.x(), p.y(), p.move_cooldown()), (1, 1, 29));
}

#[test]
fn position_stays_clamped_at_the_low_edge() {
    let mut p = Player::new();
    for _ in 0..30 {
        p.update(Direction::East);
    }
    assert_eq!((p.x(), p.y()), (0, 1));
    for frame in 1..=95 {
        p.update(Direction::East);
        assert_eq!((p.x(), p.y()), (0, 1));
        let expected = if frame % 30 == 0 { 30 } else { 30 - frame % 30 };
        assert_eq!(p.move_cooldown(), expected);
    }
    for _ in 0..30 {
        p.update(Direction::South);
    }
    assert_eq!((p.x(), p.y()), (0, 0));
    for _ in 0..90 {
        p.update(Direction::South);
        assert!(p.y() == 0);
    }
}

#[test]
fn position_stays_clamped_at_the_high_edge() {
    let mut p = Player::new();
    for _ in 0..(30 * 20) {
        p.update(Direction::West);
        assert!(p.x() >= 0 && p.x() <= 14);
    }
    assert_eq!(p.x(), 14);
    for _ in 0..(30 * 20) {
        p.update(Direction::North);
        assert!(p.y() >= 0 && p.y() <= 14);
    }
    assert_eq!((p.x(), p.y()), (14, 14));
    assert_eq!(p.move_cooldown(), 30);
}
