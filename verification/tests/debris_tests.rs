use space_debris::debris::{Debris, DebrisStatus};
use space_debris::player::{GameStatus, Player};

fn running_player() -> Player {
    Player { col: 20, row: 12, dy: 0, game_status: GameStatus::GameRunning }
}

#[test]
fn spawn_is_deterministic() {
    for seed in 0..50u32 {
        let a = Debris::new(seed, 3, 7);
        let b = Debris::new(seed, 3, 7);
        assert_eq!(a, b);
    }
}

#[test]
fn spawn_exact_values() {
    let d = Debris::new(2, 3, 7);
    assert_eq!((d.col, d.row, d.dx, d.dx_tick, d.color), (79, 19, 5, 0, 10));
    assert!(d.debris_status == DebrisStatus::Normal);
    let e = Debris::new(0, 3, 7);
    assert_eq!((e.row, e.dx, e.color), (6, 4, 2));
    assert_ne!((d.row, d.dx, d.color), (e.row, e.dx, e.color));
}

#[test]
fn spawn_within_bounds() {
    for seed in 0..200u32 {
        let d = Debris::new(seed, 2, 5);
        assert_eq!(d.col, 79);
        assert!(d.row >= 2 && d.row < 25);
        assert!(d.dx >= 2 && d.dx < 5);
        assert!(d.color < 13);
        assert_eq!(d.dx_tick, 0);
    }
}

#[test]
fn column_steps_after_speed_skips() {
    let mut p = running_player();
    let mut d = Debris { col: 40, row: 3, dx: 2, dx_tick: 0, color: 0, debris_status: DebrisStatus::Normal };
    let r = d.tick(&mut p);
    assert_eq!((d.col, d.dx_tick), (39, 2));
    assert!(r == Some(DebrisStatus::Normal));
    d.tick(&mut p);
    assert_eq!((d.col, d.dx_tick), (39, 1));
    d.tick(&mut p);
    assert_eq!((d.col, d.dx_tick), (39, 0));
    d.tick(&mut p);
    assert_eq!((d.col, d.dx_tick), (38, 2));
}

#[test]
fn scores_exactly_once_then_destroyed_at_zero() {
    let mut p = running_player();
    let mut d = Debris { col: 79, row: 3, dx: 1, dx_tick: 0, color: 0, debris_status: DebrisStatus::Normal };
    let mut points = 0;
    let mut destroys = 0;
    for _ in 0..400 {
        match d.tick(&mut p) {
            Some(DebrisStatus::ScorePoint) => {
                points += 1;
                assert_eq!(d.col, 18);
                assert_eq!(d.dx_tick, 1);
            },
            Some(DebrisStatus::Destroy) => {
                destroys += 1;
                assert_eq!(d.col, 0);
                break;
            },
            _ => {},
        }
    }
    assert_eq!(points, 1);
    assert_eq!(destroys, 1);
}

#[test]
fn coincidence_stops_round() {
    let mut p = running_player();
    let mut d = Debris { col: 21, row: 12, dx: 1, dx_tick: 0, color: 0, debris_status: DebrisStatus::Normal };
    let r = d.tick(&mut p);
    assert_eq!(d.col, 20);
    assert!(p.game_status == GameStatus::GameStopped);
    assert!(r == Some(DebrisStatus::Normal));
}

#[test]
fn near_miss_leaves_round_running() {
    let mut p = running_player();
    let mut d = Debris { col: 21, row: 11, dx: 1, dx_tick: 0, color: 0, debris_status: DebrisStatus::Normal };
    d.tick(&mut p);
    assert_eq!(d.col, 20);
    assert!(p.game_status == GameStatus::GameRunning);
}

#[test]
fn stopped_round_drains_debris() {
    let mut p = running_player();
    p.collide();
    let mut d = Debris { col: 40, row: 3, dx: 2, dx_tick: 1, color: 5, debris_status: DebrisStatus::Normal };
    let snapshot = d;
    let r = d.tick(&mut p);
    assert!(r == Some(DebrisStatus::Destroy));
    assert_eq!(d, snapshot);
}
