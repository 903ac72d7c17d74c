//! The player entity: a marker on a fixed column that drifts vertically under
//! key control, wrapping at the grid's top and bottom edges, until a debris
//! reaches its cell and stops the round.

use vstd::prelude::*;
use crate::grid::{add1, sub1, BUFFER_HEIGHT, BUFFER_WIDTH};
use crate::input::{DecodedKey, KeyCode};

verus! {

/// Whether the round is still being played.
#[derive(Copy, Clone, PartialEq, Eq, Structural, Debug)]
pub enum GameStatus {
    GameRunning,
    GameStopped,
}

/// The player: a fixed column, a row that drifts by `dy` each tick, and the
/// round status.
#[derive(Copy, Clone, PartialEq, Eq, Structural, Debug)]
pub struct Player {
    pub col: usize,
    pub row: usize,
    /// Vertical velocity, always -1, 0 or 1.  Once a key makes it non-zero it
    /// never returns to zero for the rest of the round.
    pub dy: isize,
    pub game_status: GameStatus,
}

/// Validity of a player value: on the grid, with a unit velocity.
pub open spec fn player_wf(p: Player) -> bool {
    &&& p.row < BUFFER_HEIGHT
    &&& p.col < BUFFER_WIDTH
    &&& (p.dy == -1 || p.dy == 0 || p.dy == 1)
}

/// The player's spawn pose: row at the vertical midpoint, column at one
/// quarter of the grid width, at rest, waiting on the title screen.
pub open spec fn default_player() -> Player {
    Player {
        col: (BUFFER_WIDTH / 4) as usize,
        row: (BUFFER_HEIGHT / 2) as usize,
        dy: 0,
        game_status: GameStatus::GameStopped,
    }
}

/// One tick of player motion: the row moves by `dy`, modulo the grid height.
pub open spec fn player_step(p: Player) -> Player {
    if p.dy < 0 {
        Player { row: ((p.row + BUFFER_HEIGHT - 1) % (BUFFER_HEIGHT as int)) as usize, ..p }
    } else if p.dy > 0 {
        Player { row: ((p.row + 1) % (BUFFER_HEIGHT as int)) as usize, ..p }
    } else {
        p
    }
}

/// Effect of one raw key on the player: while the round runs, an arrow key
/// steers the velocity to -1 or 1; everything else is ignored.  No key ever
/// sets the velocity back to zero.
pub open spec fn player_raw_step(p: Player, code: KeyCode) -> Player {
    if p.game_status == GameStatus::GameRunning {
        match code {
            KeyCode::ArrowUp => Player { dy: -1isize, ..p },
            KeyCode::ArrowDown => Player { dy: 1isize, ..p },
            KeyCode::Other => p,
        }
    } else {
        p
    }
}

/// Effect of one decoded key on the player: only raw keys steer it.
pub open spec fn player_key_step(p: Player, key: DecodedKey) -> Player {
    match key {
        DecodedKey::RawKey(code) => player_raw_step(p, code),
        DecodedKey::Unicode(_) => p,
    }
}

impl Default for Player {
    /// A player in its spawn pose.
    fn default() -> (p: Self)
        ensures
            p == default_player(),
            player_wf(p),
    {
        Self {
            col: BUFFER_WIDTH / 4,
            row: BUFFER_HEIGHT / 2,
            dy: 0,
            game_status: GameStatus::GameStopped,
        }
    }
}

impl Player {
    /// One simulation tick: move the row by the velocity (wrapping at the
    /// grid edges) and report the round status.
    pub fn tick(&mut self) -> (r: Option<GameStatus>)
        requires
            old(self).row < BUFFER_HEIGHT,
        ensures
            *final(self) == player_step(*old(self)),
            r == Some(final(self).game_status),
            final(self).row < BUFFER_HEIGHT,
            final(self).col == old(self).col,
            final(self).dy == old(self).dy,
            final(self).game_status == old(self).game_status,
    {
        self.update_location();
        if self.game_status == GameStatus::GameStopped {
            return Some(GameStatus::GameStopped);
        }
        Some(GameStatus::GameRunning)
    }

    /// Move the row one step in the direction of the velocity, wrapping past
    /// the top edge to the bottom and vice versa.
    pub fn update_location(&mut self)
        requires
            old(self).row < BUFFER_HEIGHT,
        ensures
            *final(self) == player_step(*old(self)),
            final(self).row < BUFFER_HEIGHT,
    {
        if self.dy < 0 {
            self.row = sub1::<BUFFER_HEIGHT>(self.row);
        } else if self.dy > 0 {
            self.row = add1::<BUFFER_HEIGHT>(self.row);
        }
    }

    /// Stop the round.  Idempotent: a second collision changes nothing.
    pub fn collide(&mut self)
        ensures
            *final(self) == (Player { game_status: GameStatus::GameStopped, ..*old(self) }),
    {
        self.game_status = GameStatus::GameStopped;
    }

    /// Feed one decoded key event to the player.
    pub fn key(&mut self, key: DecodedKey)
        ensures
            *final(self) == player_key_step(*old(self), key),
            old(self).dy != 0 ==> final(self).dy != 0,
    {
        if let DecodedKey::RawKey(code) = key {
            self.handle_raw(code);
        }
    }

    /// Steer the velocity with an arrow key while the round runs.  A later
    /// key may re-steer the velocity, but never back to zero.
    pub fn handle_raw(&mut self, key: KeyCode)
        ensures
            *final(self) == player_raw_step(*old(self), key),
            old(self).dy != 0 ==> final(self).dy != 0,
    {
        if self.game_status == GameStatus::GameRunning {
            match key {
                KeyCode::ArrowUp => {
                    self.dy = -1;
                },
                KeyCode::ArrowDown => {
                    self.dy = 1;
                },
                KeyCode::Other => {},
            }
        }
    }
}

} // verus!
