use space_debris::debris::{Debris, DebrisStatus};
use space_debris::game::SpaceDebrisGame;
use space_debris::input::{DecodedKey, KeyCode};
use space_debris::player::GameStatus;

/// On the 80x25 grid, with the player at its (row 12, column 20) spawn, the
/// first debris of a Nightmare round (row 11, one skipped tick per column
/// step) crosses the score column on the exact tick its column becomes 18 —
/// scoring once, not again while it sits there — and leaves the pool on the
/// tick its column reaches 0.
#[test]
fn first_debris_scores_once_then_leaves() {
    let mut g = SpaceDebrisGame::default();
    g.key(DecodedKey::Unicode('3'));
    assert_eq!((g.player.row, g.player.col), (12, 20));
    for t in 1..=161u64 {
        g.update();
        assert!(g.player.game_status == GameStatus::GameRunning);
        match t {
            3 => {
                assert_eq!(g.debris.len(), 0);
            },
            4 => {
                // the countdown ran out: the first spawn, seeded with 8
                assert_eq!(g.debris.len(), 1);
                let d = &g.debris[0];
                assert_eq!((d.col, d.row, d.dx), (79, 11, 1));
            },
            124 => {
                assert_eq!(g.score, 0);
                assert_eq!(g.debris[0].col, 19);
            },
            125 => {
                assert_eq!(g.score, 1);
                assert_eq!(g.debris[0].col, 18);
                assert_eq!(g.debris[0].row, 11);
            },
            126 => {
                // still parked on the score column, but no second point
                assert_eq!(g.score, 1);
                assert_eq!(g.debris[0].col, 18);
            },
            160 => {
                assert_eq!(g.debris[0].col, 1);
                assert_eq!(g.debris[0].row, 11);
                assert_eq!(g.debris.len(), 40);
            },
            161 => {
                // its column reached 0 this tick: gone from the pool
                assert_eq!(g.debris.len(), 39);
                assert_eq!(g.debris[0].row, 20);
                assert_eq!(g.score, 10);
            },
            _ => {},
        }
    }
}

/// A debris one column right of the player moves onto the player's cell on
/// the next tick: the round stops on that tick and no further velocity
/// changes are accepted until a reset.
#[test]
fn collision_freezes_round_until_reset() {
    let mut g = SpaceDebrisGame::default();
    g.key(DecodedKey::Unicode('1'));
    assert_eq!((g.player.row, g.player.col), (12, 20));
    let forced = Debris { col: 21, row: 12, dx: 1, dx_tick: 0, color: 0, debris_status: DebrisStatus::Normal };
    let _ = g.debris.push(forced);
    g.update();
    assert!(g.player.game_status == GameStatus::GameStopped);
    assert_eq!(g.player.dy, 0);
    g.key(DecodedKey::RawKey(KeyCode::ArrowUp));
    assert_eq!(g.player.dy, 0);
    g.update();
    g.key(DecodedKey::RawKey(KeyCode::ArrowDown));
    assert_eq!(g.player.dy, 0);
    g.key(DecodedKey::Unicode('1'));
    assert!(g.player.game_status == GameStatus::GameRunning);
    g.key(DecodedKey::RawKey(KeyCode::ArrowUp));
    assert_eq!(g.player.dy, -1);
}

/// The documented tie-break: the pool ticks in spawn order, so a debris that
/// crosses the score column before the collision lands still scores, while a
/// pending point reached after the round stops is discarded.
#[test]
fn pending_point_after_collision_is_discarded() {
    let crossing = Debris { col: 19, row: 3, dx: 1, dx_tick: 0, color: 0, debris_status: DebrisStatus::Normal };
    let colliding = Debris { col: 21, row: 12, dx: 1, dx_tick: 0, color: 0, debris_status: DebrisStatus::Normal };

    let mut g = SpaceDebrisGame::default();
    g.key(DecodedKey::Unicode('1'));
    let _ = g.debris.push(crossing);
    let _ = g.debris.push(colliding);
    g.update();
    assert!(g.player.game_status == GameStatus::GameStopped);
    assert_eq!(g.score, 1);

    let mut h = SpaceDebrisGame::default();
    h.key(DecodedKey::Unicode('1'));
    let _ = h.debris.push(colliding);
    let _ = h.debris.push(crossing);
    h.update();
    assert!(h.player.game_status == GameStatus::GameStopped);
    assert_eq!(h.score, 0);
}

/// High scores only ever grow: a finished round folds its score in on the
/// next tick, a reset keeps them, and a worse second round never lowers
/// them.
#[test]
fn high_scores_only_grow_across_rounds() {
    let mut g = SpaceDebrisGame::default();
    g.key(DecodedKey::Unicode('3'));
    let mut guard = 0u32;
    while g.player.game_status == GameStatus::GameRunning {
        g.update();
        guard += 1;
        assert!(guard < 4000);
    }
    assert_eq!(g.score, 37);
    assert_eq!(g.debris.len(), 10);
    assert_eq!(g.n_high_score, 0);
    g.update();
    assert_eq!(g.n_high_score, 37);
    g.key(DecodedKey::Unicode('3'));
    assert_eq!((g.score, g.n_high_score), (0, 37));
    let mut guard2 = 0u32;
    while g.player.game_status == GameStatus::GameRunning {
        g.update();
        guard2 += 1;
        assert!(guard2 < 4000);
    }
    // the second round ends worse; the high score must not fall
    assert_eq!(g.score, 5);
    g.update();
    assert_eq!(g.n_high_score, 37);
    for _ in 0..5 {
        g.update();
        assert_eq!(g.n_high_score, 37);
    }
    assert_eq!((g.cw_high_score, g.rmt_high_score), (0, 0));
}

/// A difficulty key pressed right after the collision — before the next tick
/// has zeroed the velocity — still starts the new round with the player at
/// rest and the spawn countdown reloaded: a reset restores the whole spawn
/// pose.
#[test]
fn reset_restores_spawn_velocity() {
    let mut g = SpaceDebrisGame::default();
    g.key(DecodedKey::Unicode('1'));
    g.key(DecodedKey::RawKey(KeyCode::ArrowDown));
    assert_eq!(g.player.dy, 1);
    // the player drifts to row 13 this tick and the debris lands on it there
    let forced = Debris { col: 21, row: 13, dx: 1, dx_tick: 0, color: 0, debris_status: DebrisStatus::Normal };
    let _ = g.debris.push(forced);
    g.update();
    assert!(g.player.game_status == GameStatus::GameStopped);
    assert_eq!(g.player.dy, 1);
    g.key(DecodedKey::Unicode('2'));
    assert!(g.player.game_status == GameStatus::GameRunning);
    assert_eq!((g.player.row, g.player.col, g.player.dy), (12, 20, 0));
    assert_eq!((g.spawn_rate, g.spawn_countdown), (6, 6));
}
