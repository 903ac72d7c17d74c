use space_debris::debris::Debris;
use space_debris::game::{Difficulty, SpaceDebrisGame};
use space_debris::grid::{BUFFER_HEIGHT, BUFFER_WIDTH, SCORE_COLUMN};
use space_debris::input::{DecodedKey, KeyCode};
use space_debris::player::GameStatus;

#[test]
fn grid_constants() {
    assert_eq!(BUFFER_WIDTH, 80);
    assert_eq!(BUFFER_HEIGHT, 25);
    assert_eq!(SCORE_COLUMN, 18);
}

#[test]
fn fresh_game_state() {
    let g = SpaceDebrisGame::default();
    assert_eq!(g.score, 0);
    assert_eq!(g.debris.len(), 0);
    assert!(g.difficulty == Difficulty::Undefined);
    assert!(g.player.game_status == GameStatus::GameStopped);
    assert_eq!((g.cw_high_score, g.rmt_high_score, g.n_high_score), (0, 0, 0));
    assert_eq!((g.spawn_countdown, g.spawn_rate, g.seed_count), (0, 0, 0));
}

#[test]
fn difficulty_keys_reset_round() {
    let picks = [
        ('1', Difficulty::Cakewalk, 8u32),
        ('2', Difficulty::Rmt, 6u32),
        ('3', Difficulty::Nightmare, 3u32),
    ];
    for (c, diff, rate) in picks {
        let mut g = SpaceDebrisGame::default();
        g.key(DecodedKey::Unicode(c));
        assert!(g.difficulty == diff);
        assert_eq!(g.spawn_rate, rate);
        assert_eq!(g.spawn_countdown, rate);
        assert_eq!(g.score, 0);
        assert_eq!(g.debris.len(), 0);
        assert_eq!((g.player.row, g.player.col, g.player.dy), (12, 20, 0));
        assert!(g.player.game_status == GameStatus::GameRunning);
    }
}

#[test]
fn unrecognized_keys_are_no_ops() {
    let mut g = SpaceDebrisGame::default();
    g.key(DecodedKey::Unicode('4'));
    g.key(DecodedKey::Unicode('r'));
    assert!(g.difficulty == Difficulty::Undefined);
    assert!(g.player.game_status == GameStatus::GameStopped);
}

#[test]
fn difficulty_keys_ignored_while_running() {
    let mut g = SpaceDebrisGame::default();
    g.key(DecodedKey::Unicode('1'));
    for _ in 0..9 {
        g.update();
    }
    assert_eq!(g.debris.len(), 1);
    g.key(DecodedKey::Unicode('3'));
    assert!(g.difficulty == Difficulty::Cakewalk);
    assert_eq!(g.spawn_rate, 8);
    assert_eq!(g.debris.len(), 1);
}

#[test]
fn arrows_steer_through_game_key() {
    let mut g = SpaceDebrisGame::default();
    g.key(DecodedKey::Unicode('2'));
    g.key(DecodedKey::RawKey(KeyCode::ArrowUp));
    assert_eq!(g.player.dy, -1);
    g.update();
    assert_eq!(g.player.row, 11);
    g.key(DecodedKey::RawKey(KeyCode::ArrowDown));
    assert_eq!(g.player.dy, 1);
    g.update();
    assert_eq!(g.player.row, 12);
}

#[test]
fn spawn_schedule_follows_rate() {
    let mut g = SpaceDebrisGame::default();
    g.key(DecodedKey::Unicode('3'));
    let mut counts = Vec::new();
    for _ in 0..13 {
        g.update();
        counts.push(g.debris.len());
    }
    // countdown 3, 2, 1, then a spawn on the tick it stands at zero
    assert_eq!(counts, vec![0, 0, 0, 1, 1, 1, 1, 2, 2, 2, 2, 3, 3]);
}

#[test]
fn first_spawn_seed_follows_the_tick_count() {
    let mut g = SpaceDebrisGame::default();
    g.key(DecodedKey::Unicode('1'));
    for _ in 0..9 {
        g.update();
    }
    // two seed steps per tick, so the spawn on the ninth tick uses seed 18
    assert_eq!(g.seed_count, 18);
    assert_eq!(g.debris.len(), 1);
    let d = &g.debris[0];
    assert_eq!((d.col, d.row, d.dx, d.color), (79, 21, 3, 8));
    assert_eq!(Debris::new(18, 3, 7), *d);
}

#[test]
fn title_screen_churns_one_debris() {
    let mut g = SpaceDebrisGame::default();
    for t in 1..=4u32 {
        g.update();
        assert_eq!(g.debris.len(), 1);
        assert_eq!(g.score, 0);
        assert_eq!(g.seed_count, 2 * t);
        assert!(g.player.game_status == GameStatus::GameStopped);
    }
}

#[test]
fn seed_counter_wraps_around() {
    let mut g = SpaceDebrisGame::default();
    g.seed_count = u32::MAX;
    g.update();
    assert_eq!(g.seed_count, 1);
}
