use space_debris::input::{DecodedKey, KeyCode};
use space_debris::player::{GameStatus, Player};

#[test]
fn player_default_pose() {
    let p = Player::default();
    assert_eq!(p.col, 20);
    assert_eq!(p.row, 12);
    assert_eq!(p.dy, 0);
    assert!(p.game_status == GameStatus::GameStopped);
}

#[test]
fn player_row_wraps_at_both_edges() {
    let mut p = Player { col: 20, row: 1, dy: -1, game_status: GameStatus::GameRunning };
    let r = p.tick();
    assert_eq!(p.row, 0);
    assert!(r == Some(GameStatus::GameRunning));
    p.tick();
    assert_eq!(p.row, 24);
    p.handle_raw(KeyCode::ArrowDown);
    assert_eq!(p.dy, 1);
    p.tick();
    assert_eq!(p.row, 0);
    p.tick();
    assert_eq!(p.row, 1);
}

#[test]
fn player_at_rest_stays_put() {
    let mut p = Player { col: 20, row: 7, dy: 0, game_status: GameStatus::GameRunning };
    for _ in 0..5 {
        p.tick();
        assert_eq!(p.row, 7);
    }
}

#[test]
fn velocity_never_returns_to_zero() {
    let mut p = Player { col: 20, row: 12, dy: 0, game_status: GameStatus::GameRunning };
    p.key(DecodedKey::RawKey(KeyCode::ArrowUp));
    assert_eq!(p.dy, -1);
    let inputs = [
        KeyCode::ArrowDown,
        KeyCode::Other,
        KeyCode::ArrowUp,
        KeyCode::Other,
        KeyCode::ArrowDown,
    ];
    for k in inputs {
        p.handle_raw(k);
        assert_ne!(p.dy, 0);
    }
    p.key(DecodedKey::Unicode('x'));
    assert_ne!(p.dy, 0);
    assert_eq!(p.dy, 1);
}

#[test]
fn input_ignored_while_stopped() {
    let mut p = Player::default();
    p.key(DecodedKey::RawKey(KeyCode::ArrowUp));
    assert_eq!(p.dy, 0);
    p.handle_raw(KeyCode::ArrowDown);
    assert_eq!(p.dy, 0);
}

#[test]
fn collide_is_idempotent() {
    let mut p = Player { col: 20, row: 12, dy: 1, game_status: GameStatus::GameRunning };
    p.collide();
    assert!(p.game_status == GameStatus::GameStopped);
    let snapshot = p;
    p.collide();
    assert_eq!(p, snapshot);
}
