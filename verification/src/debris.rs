//! A debris entity: spawned at the right edge on a seeded row, it drifts one
//! column left every `dx + 1` ticks, awards a point the tick it moves onto
//! the score column, collides with the player on coincidence, and asks to be
//! destroyed once its column reaches zero or the round has stopped.

use vstd::prelude::*;
use crate::grid::{sub1, BUFFER_HEIGHT, BUFFER_WIDTH, SCORE_COLUMN};
use crate::player::{GameStatus, Player};
use crate::rng::{rolls_of, seeded_rolls};

verus! {

/// Lowest row a debris can spawn on (the rows above hold the score header).
pub const DEBRIS_ROW_MIN: u32 = 2;

/// Number of colors in the debris palette.
pub const DEBRIS_COLOR_COUNT: u32 = 13;

/// Per-tick classification of a debris, reported to the pool pass; it is not
/// persisted state.
#[derive(Copy, Clone, PartialEq, Eq, Structural, Debug)]
pub enum DebrisStatus {
    Normal,
    ScorePoint,
    Destroy,
}

/// A debris: a cell on the grid, a speed given as the number of ticks skipped
/// between column decrements (`dx`, counted down by `dx_tick`), and a
/// cosmetic palette index.
#[derive(Copy, Clone, PartialEq, Eq, Structural, Debug)]
pub struct Debris {
    pub col: usize,
    pub row: usize,
    /// Ticks skipped between two column decrements; higher is slower.
    pub dx: usize,
    /// Countdown until the next column decrement; the debris moves on the
    /// ticks where this is zero, and it is then reloaded from `dx`.
    pub dx_tick: usize,
    /// Index into the 13-color palette; purely cosmetic.
    pub color: u8,
    pub debris_status: DebrisStatus,
}

/// A debris value that can tick safely: its cell lies on the grid.
pub open spec fn debris_wf(d: Debris) -> bool {
    &&& d.col < BUFFER_WIDTH
    &&& d.row < BUFFER_HEIGHT
}

/// The debris that spawn seed `seed` produces for a speed range
/// `[lower, upper)`: rightmost column, seeded row, speed and color, delay
/// counter at zero, classified `Normal`.
pub open spec fn spawn_debris(seed: u32, lower: u32, upper: u32) -> Debris {
    let rolls = rolls_of(seed, DEBRIS_ROW_MIN, BUFFER_HEIGHT as u32, lower, upper, DEBRIS_COLOR_COUNT);
    Debris {
        col: (BUFFER_WIDTH - 1) as usize,
        row: rolls.0 as usize,
        dx: rolls.1 as usize,
        dx_tick: 0,
        color: rolls.2 as u8,
        debris_status: DebrisStatus::Normal,
    }
}

/// One tick of debris motion: on the ticks where the delay counter is zero
/// the column moves one left (wrapping at the grid edge) and the counter
/// reloads from the speed; on the others the counter just counts down.
pub open spec fn debris_move(d: Debris) -> Debris {
    if d.dx_tick == 0 {
        Debris {
            col: ((d.col + BUFFER_WIDTH - 1) % (BUFFER_WIDTH as int)) as usize,
            dx_tick: d.dx,
            ..d
        }
    } else {
        Debris { dx_tick: (d.dx_tick - 1) as usize, ..d }
    }
}

/// One full debris tick against the player: while the round runs the debris
/// moves, stops the round if it lands on the player's cell, and is classified
/// (`ScorePoint` exactly on the tick it moves onto the score column,
/// `Destroy` once its column is zero, `Normal` otherwise).  Once the round
/// has stopped the debris does not move and asks to be destroyed, so a
/// stopped round drains its pool.
pub open spec fn debris_step(d: Debris, p: Player) -> (Debris, Player, DebrisStatus) {
    if p.game_status == GameStatus::GameRunning {
        let d2 = debris_move(d);
        let p2 = if d2.col == p.col && d2.row == p.row {
            Player { game_status: GameStatus::GameStopped, ..p }
        } else {
            p
        };
        let status = if d.dx_tick == 0 && d2.col == SCORE_COLUMN {
            DebrisStatus::ScorePoint
        } else if d2.col == 0 {
            DebrisStatus::Destroy
        } else {
            DebrisStatus::Normal
        };
        (d2, p2, status)
    } else {
        (d, p, DebrisStatus::Destroy)
    }
}

impl Debris {
    /// Spawn a debris from a seed.  Deterministic: the same seed and speed
    /// range always yield the same debris.
    pub fn new(num: u32, lower_speed: u32, upper_speed: u32) -> (d: Self)
        requires
            lower_speed < upper_speed,
        ensures
            d == spawn_debris(num, lower_speed, upper_speed),
            d.col == BUFFER_WIDTH - 1,
            DEBRIS_ROW_MIN <= d.row < BUFFER_HEIGHT,
            lower_speed <= d.dx < upper_speed,
            d.dx_tick == 0,
            d.color < DEBRIS_COLOR_COUNT,
            d.debris_status == DebrisStatus::Normal,
            debris_wf(d),
    {
        let rolls = seeded_rolls(
            num,
            DEBRIS_ROW_MIN,
            BUFFER_HEIGHT as u32,
            lower_speed,
            upper_speed,
            DEBRIS_COLOR_COUNT,
        );
        Self {
            col: BUFFER_WIDTH - 1,
            row: rolls.0 as usize,
            dx: rolls.1 as usize,
            dx_tick: 0,
            color: rolls.2 as u8,
            debris_status: DebrisStatus::Normal,
        }
    }

    /// One tick against the player, exactly as `debris_step` lays it out.
    /// The round is resolved in this order: motion, then collision, then
    /// classification, so a tick that stops the round still classifies this
    /// debris, and the pool pass decides whether the point still counts.
    pub fn tick(&mut self, player: &mut Player) -> (r: Option<DebrisStatus>)
        requires
            old(self).col < BUFFER_WIDTH,
        ensures
            ({
                let (d2, p2, status) = debris_step(*old(self), *old(player));
                *final(self) == d2 && *final(player) == p2 && r == Some(status)
            }),
            final(self).col < BUFFER_WIDTH,
            final(self).row == old(self).row,
            final(self).dx == old(self).dx,
            old(player).game_status == GameStatus::GameStopped ==> *final(self) == *old(self)
                && *final(player) == *old(player) && r == Some(DebrisStatus::Destroy),
    {
        if player.game_status == GameStatus::GameRunning {
            let moved = self.dx_tick == 0;
            self.update_location();
            if self.col == player.col && self.row == player.row {
                player.collide();
            }
            if moved && self.col == SCORE_COLUMN {
                return Some(DebrisStatus::ScorePoint);
            }
            if self.col == 0 {
                return Some(DebrisStatus::Destroy);
            }
            return Some(DebrisStatus::Normal);
        }
        Some(DebrisStatus::Destroy)
    }

    /// Move the column or count the delay down, as `debris_move` lays it out.
    pub fn update_location(&mut self)
        requires
            old(self).col < BUFFER_WIDTH,
        ensures
            *final(self) == debris_move(*old(self)),
            final(self).col < BUFFER_WIDTH,
    {
        if self.dx_tick == 0 {
            self.col = sub1::<BUFFER_WIDTH>(self.col);
            self.dx_tick = self.dx;
        } else {
            self.dx_tick -= 1;
        }
    }
}

} // verus!
