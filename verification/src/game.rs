//! The game controller: it owns the player, the debris pool, the score and
//! the per-difficulty high scores, and runs the per-tick update order — the
//! player moves first, then every debris ticks in spawn order (scoring and
//! collisions resolved as it goes), spent debris are removed, and finally the
//! spawn countdown runs.  A key event selects a difficulty and resets the
//! round while it is stopped, and always steers the player.

use vstd::prelude::*;
use crate::debris::{debris_step, spawn_debris, Debris, DebrisStatus};
use crate::pass::{
    destroy_indices, filter_flags, lemma_destroy_indices_facts, lemma_remove_desc_is_filter,
    lemma_sorted_gap, remove_desc,
};
use crate::grid::{BUFFER_HEIGHT, BUFFER_WIDTH};
use crate::input::DecodedKey;
use crate::player::{default_player, player_key_step, player_step, player_wf, GameStatus, Player};
use crate::pool::{
    pool_clear, pool_get, pool_len, pool_new, pool_push, pool_remove, pool_seq, pool_set,
    POOL_CAPACITY,
};

verus! {

/// Ticks between spawn attempts on Cakewalk difficulty.
pub const CW_SPAWN_RATE: u32 = 8;

/// Ticks between spawn attempts on Road Most Travelled difficulty.
pub const RMT_SPAWN_RATE: u32 = 6;

/// Ticks between spawn attempts on Nightmare difficulty.
pub const N_SPAWN_RATE: u32 = 3;

/// Speed range (ticks skipped per column step) on Cakewalk: slow debris.
pub const CW_LOWER_SPEED: u32 = 3;
pub const CW_UPPER_SPEED: u32 = 7;

/// Speed range on Road Most Travelled.
pub const RMT_LOWER_SPEED: u32 = 2;
pub const RMT_UPPER_SPEED: u32 = 5;

/// Speed range on Nightmare: the fastest debris.
pub const N_LOWER_SPEED: u32 = 1;
pub const N_UPPER_SPEED: u32 = 2;

/// Speed range used before any difficulty has been chosen.
pub const DEFAULT_LOWER_SPEED: u32 = 1;
pub const DEFAULT_UPPER_SPEED: u32 = 5;

/// The difficulty tier; `Undefined` only before the first round starts.
#[derive(Copy, Clone, PartialEq, Eq, Structural, Debug)]
pub enum Difficulty {
    Undefined,
    Cakewalk,
    Rmt,
    Nightmare,
}

/// The whole game state: player, debris pool, scores, and spawn scheduling.
pub struct SpaceDebrisGame {
    pub player: Player,
    pub debris: heapless::Vec<Debris, 50>,
    pub score: u32,
    pub cw_high_score: u32,
    pub rmt_high_score: u32,
    pub n_high_score: u32,
    /// Ticks left until the next spawn attempt.
    pub spawn_countdown: u32,
    /// Value the countdown reloads to after a spawn; set from the difficulty.
    pub spawn_rate: u32,
    /// Monotonically stepped counter that seeds each spawn.
    pub seed_count: u32,
    pub difficulty: Difficulty,
}

/// The mathematical model of the game state: the same fields, with the pool
/// as the sequence of debris it holds, oldest first.
#[verifier::ext_equal]
pub ghost struct GameView {
    pub player: Player,
    pub debris: Seq<Debris>,
    pub score: u32,
    pub cw_high_score: u32,
    pub rmt_high_score: u32,
    pub n_high_score: u32,
    pub spawn_countdown: u32,
    pub spawn_rate: u32,
    pub seed_count: u32,
    pub difficulty: Difficulty,
}

impl View for SpaceDebrisGame {
    type V = GameView;

    open spec fn view(&self) -> GameView {
        GameView {
            player: self.player,
            debris: pool_seq(self.debris),
            score: self.score,
            cw_high_score: self.cw_high_score,
            rmt_high_score: self.rmt_high_score,
            n_high_score: self.n_high_score,
            spawn_countdown: self.spawn_countdown,
            spawn_rate: self.spawn_rate,
            seed_count: self.seed_count,
            difficulty: self.difficulty,
        }
    }
}

/// Validity of a debris that sits in the pool: strictly inside the grid (a
/// debris whose column reaches 0 is removed the same pass), below the score
/// header rows, with a positive speed delay.
pub open spec fn pooled_debris_wf(d: Debris) -> bool {
    &&& 0 < d.col < BUFFER_WIDTH
    &&& 2 <= d.row < BUFFER_HEIGHT
    &&& 1 <= d.dx
}

/// Validity of the whole game state.
pub open spec fn game_wf(g: GameView) -> bool {
    &&& player_wf(g.player)
    &&& g.debris.len() <= POOL_CAPACITY
    &&& forall|i: int| 0 <= i < g.debris.len() ==> pooled_debris_wf(#[trigger] g.debris[i])
}

/// The freshly constructed game: title state, empty pool, all counters zero.
pub open spec fn default_game() -> GameView {
    GameView {
        player: default_player(),
        debris: Seq::<Debris>::empty(),
        score: 0,
        cw_high_score: 0,
        rmt_high_score: 0,
        n_high_score: 0,
        spawn_countdown: 0,
        spawn_rate: 0,
        seed_count: 0,
        difficulty: Difficulty::Undefined,
    }
}

/// The speed range debris spawn with at each difficulty.
pub open spec fn spec_speed_range(d: Difficulty) -> (u32, u32) {
    match d {
        Difficulty::Undefined => (DEFAULT_LOWER_SPEED, DEFAULT_UPPER_SPEED),
        Difficulty::Cakewalk => (CW_LOWER_SPEED, CW_UPPER_SPEED),
        Difficulty::Rmt => (RMT_LOWER_SPEED, RMT_UPPER_SPEED),
        Difficulty::Nightmare => (N_LOWER_SPEED, N_UPPER_SPEED),
    }
}

/// The spawn interval of each chosen difficulty.
pub open spec fn spec_spawn_rate(d: Difficulty) -> u32 {
    match d {
        Difficulty::Undefined => 0,
        Difficulty::Cakewalk => CW_SPAWN_RATE,
        Difficulty::Rmt => RMT_SPAWN_RATE,
        Difficulty::Nightmare => N_SPAWN_RATE,
    }
}

/// Fold the round's score into the high score of the active difficulty;
/// a high score only ever grows.
pub open spec fn fold_high_scores(g: GameView) -> GameView {
    match g.difficulty {
        Difficulty::Undefined => g,
        Difficulty::Cakewalk => if g.score > g.cw_high_score {
            GameView { cw_high_score: g.score, ..g }
        } else {
            g
        },
        Difficulty::Rmt => if g.score > g.rmt_high_score {
            GameView { rmt_high_score: g.score, ..g }
        } else {
            g
        },
        Difficulty::Nightmare => if g.score > g.n_high_score {
            GameView { n_high_score: g.score, ..g }
        } else {
            g
        },
    }
}

/// The score after one debris classification is tallied: a `ScorePoint`
/// counts exactly when the round is still running at tally time.
pub open spec fn tally(status: DebrisStatus, p: Player, score: u32) -> u32 {
    if status == DebrisStatus::ScorePoint && p.game_status == GameStatus::GameRunning {
        (score + 1) as u32
    } else {
        score
    }
}

/// One pass over the pool in spawn order: each debris ticks against the
/// player as it stands at that moment, points are tallied, and the debris
/// classified `Destroy` are dropped.  Returns the surviving pool (in order),
/// the player, and the score.
pub open spec fn pool_pass(ds: Seq<Debris>, p: Player, score: u32) -> (Seq<Debris>, Player, u32)
    decreases ds.len(),
{
    if ds.len() == 0 {
        (Seq::<Debris>::empty(), p, score)
    } else {
        let (d2, p2, status) = debris_step(ds[0], p);
        let s2 = tally(status, p2, score);
        let rest = pool_pass(ds.drop_first(), p2, s2);
        let kept = if status == DebrisStatus::Destroy {
            rest.0
        } else {
            seq![d2] + rest.0
        };
        (kept, rest.1, rest.2)
    }
}

/// The first phase of a tick: the seed counter steps (wrapping), the player
/// moves, and if the round stands stopped the velocity is zeroed and the
/// score is folded into the high scores.
pub open spec fn player_phase_spec(g: GameView) -> GameView {
    let g1 = GameView { seed_count: g.seed_count.wrapping_add(1), ..g };
    let p1 = player_step(g1.player);
    if p1.game_status == GameStatus::GameStopped {
        fold_high_scores(GameView { player: Player { dy: 0isize, ..p1 }, ..g1 })
    } else {
        GameView { player: p1, ..g1 }
    }
}

/// The second phase of a tick: the pool pass.
pub open spec fn pool_phase_spec(g: GameView) -> GameView {
    let r = pool_pass(g.debris, g.player, g.score);
    GameView { debris: r.0, player: r.1, score: r.2, ..g }
}

/// The last phase of a tick: the seed counter steps again and the spawn
/// countdown runs; at zero one debris is spawned from the current seed with
/// the active difficulty's speed range (dropped if the pool is full) and the
/// countdown reloads from the spawn rate.
pub open spec fn create_step(g: GameView) -> GameView {
    let g1 = GameView { seed_count: g.seed_count.wrapping_add(1), ..g };
    if g1.spawn_countdown == 0 {
        let range = spec_speed_range(g1.difficulty);
        let d = spawn_debris(g1.seed_count, range.0, range.1);
        let ds = if g1.debris.len() < POOL_CAPACITY {
            g1.debris.push(d)
        } else {
            g1.debris
        };
        GameView { debris: ds, spawn_countdown: g1.spawn_rate, ..g1 }
    } else {
        GameView { spawn_countdown: (g1.spawn_countdown - 1) as u32, ..g1 }
    }
}

/// One whole tick of the game, phase by phase.
pub open spec fn update_step(g: GameView) -> GameView {
    create_step(pool_phase_spec(player_phase_spec(g)))
}

/// What a reset yields: score zero, pool empty, player back in its spawn
/// pose — at rest, with the round running — and the spawn interval of the
/// chosen difficulty loaded into both the spawn rate and the countdown.
/// High scores and the seed counter survive a reset.
pub open spec fn reset_spec(g: GameView) -> GameView {
    GameView {
        player: Player {
            col: (BUFFER_WIDTH / 4) as usize,
            row: (BUFFER_HEIGHT / 2) as usize,
            dy: 0isize,
            game_status: GameStatus::GameRunning,
        },
        debris: Seq::<Debris>::empty(),
        score: 0,
        spawn_countdown: if g.difficulty == Difficulty::Undefined {
            g.spawn_countdown
        } else {
            spec_spawn_rate(g.difficulty)
        },
        spawn_rate: if g.difficulty == Difficulty::Undefined {
            g.spawn_rate
        } else {
            spec_spawn_rate(g.difficulty)
        },
        ..g
    }
}

/// Effect of one key event on the whole game: while the round is stopped the
/// difficulty keys pick a tier and reset the round; every key is then handed
/// to the player.
pub open spec fn game_key_step(g: GameView, key: DecodedKey) -> GameView {
    let g1 = if g.player.game_status == GameStatus::GameStopped {
        if key == DecodedKey::Unicode('1') {
            reset_spec(GameView { difficulty: Difficulty::Cakewalk, ..g })
        } else if key == DecodedKey::Unicode('2') {
            reset_spec(GameView { difficulty: Difficulty::Rmt, ..g })
        } else if key == DecodedKey::Unicode('3') {
            reset_spec(GameView { difficulty: Difficulty::Nightmare, ..g })
        } else {
            g
        }
    } else {
        g
    };
    GameView { player: player_key_step(g1.player, key), ..g1 }
}

impl Default for SpaceDebrisGame {
    /// A fresh game on the title screen.
    fn default() -> (g: Self)
        ensures
            g@ == default_game(),
            g.wf(),
    {
        let g = Self {
            player: Player::default(),
            debris: pool_new(),
            score: 0,
            cw_high_score: 0,
            rmt_high_score: 0,
            n_high_score: 0,
            spawn_countdown: 0,
            spawn_rate: 0,
            seed_count: 0,
            difficulty: Difficulty::Undefined,
        };
        proof {
            assert(g@ =~= default_game());
        }
        g
    }
}

impl SpaceDebrisGame {
    /// Validity of this game state.
    pub open spec fn wf(&self) -> bool {
        game_wf(self@)
    }

    /// Feed one decoded key event to the game: while the round is stopped,
    /// '1', '2' and '3' choose a difficulty and reset the round; the key is
    /// then handed to the player in either case.
    pub fn key(&mut self, key: DecodedKey)
        requires
            old(self).wf(),
        ensures
            final(self).wf(),
            final(self)@ == game_key_step(old(self)@, key),
            final(self)@.cw_high_score == old(self)@.cw_high_score,
            final(self)@.rmt_high_score == old(self)@.rmt_high_score,
            final(self)@.n_high_score == old(self)@.n_high_score,
    {
        if self.player.game_status == GameStatus::GameStopped {
            match key {
                DecodedKey::Unicode(c) => {
                    if c == '1' {
                        self.difficulty = Difficulty::Cakewalk;
                        self.reset();
                    } else if c == '2' {
                        self.difficulty = Difficulty::Rmt;
                        self.reset();
                    } else if c == '3' {
                        self.difficulty = Difficulty::Nightmare;
                        self.reset();
                    }
                },
                DecodedKey::RawKey(_) => {},
            }
        }
        self.player.key(key);
        proof {
            assert(self@ =~= game_key_step(old(self)@, key));
        }
    }

    /// Tally one point if the round still runs (a pending point from the
    /// pool pass is discarded once the round stands stopped).
    fn increment_score(&mut self)
        requires
            old(self).player.game_status == GameStatus::GameRunning ==> old(self).score
                < u32::MAX,
        ensures
            final(self).score == tally(
                DebrisStatus::ScorePoint,
                old(self).player,
                old(self).score,
            ),
            final(self).player == old(self).player,
            final(self).debris == old(self).debris,
            final(self).cw_high_score == old(self).cw_high_score,
            final(self).rmt_high_score == old(self).rmt_high_score,
            final(self).n_high_score == old(self).n_high_score,
            final(self).spawn_countdown == old(self).spawn_countdown,
            final(self).spawn_rate == old(self).spawn_rate,
            final(self).seed_count == old(self).seed_count,
            final(self).difficulty == old(self).difficulty,
    {
        if self.player.game_status == GameStatus::GameRunning {
            self.score += 1;
        }
    }

    /// Fold the round's score into the active difficulty's high score.
    fn update_high_score(&mut self)
        ensures
            final(self)@ == fold_high_scores(old(self)@),
    {
        match self.difficulty {
            Difficulty::Undefined => {},
            Difficulty::Cakewalk => {
                if self.score > self.cw_high_score {
                    self.cw_high_score = self.score;
                }
            },
            Difficulty::Rmt => {
                if self.score > self.rmt_high_score {
                    self.rmt_high_score = self.score;
                }
            },
            Difficulty::Nightmare => {
                if self.score > self.n_high_score {
                    self.n_high_score = self.score;
                }
            },
        }
        proof {
            assert(self@ =~= fold_high_scores(old(self)@));
        }
    }

    /// The speed range of the active difficulty.
    fn speed_range(&self) -> (r: (u32, u32))
        ensures
            r == spec_speed_range(self.difficulty),
            r.0 < r.1,
            1 <= r.0,
    {
        match self.difficulty {
            Difficulty::Undefined => (DEFAULT_LOWER_SPEED, DEFAULT_UPPER_SPEED),
            Difficulty::Cakewalk => (CW_LOWER_SPEED, CW_UPPER_SPEED),
            Difficulty::Rmt => (RMT_LOWER_SPEED, RMT_UPPER_SPEED),
            Difficulty::Nightmare => (N_LOWER_SPEED, N_UPPER_SPEED),
        }
    }

    /// Run the spawn countdown: at zero, spawn one debris from the stepped
    /// seed (dropped if the pool is full) and reload the countdown.
    fn create_debris(&mut self)
        requires
            old(self).wf(),
        ensures
            final(self).wf(),
            final(self)@ == create_step(old(self)@),
    {
        self.seed_count = self.seed_count.wrapping_add(1);
        if self.spawn_countdown == 0 {
            let range = self.speed_range();
            let d = Debris::new(self.seed_count, range.0, range.1);
            let _dropped = pool_push(&mut self.debris, d);
            self.spawn_countdown = self.spawn_rate;
        } else {
            self.spawn_countdown = self.spawn_countdown - 1;
        }
        proof {
            assert(self@ =~= create_step(old(self)@));
        }
    }

    /// One pass over the pool: tick every debris in spawn order against the
    /// player (tallying points, resolving collisions), collect the indices
    /// classified `Destroy`, and remove them from the highest to the lowest.
    fn pool_phase(&mut self)
        requires
            old(self).wf(),
            old(self)@.score + old(self)@.debris.len() <= u32::MAX,
        ensures
            final(self).wf(),
            final(self)@ == pool_phase_spec(old(self)@),
            old(self)@.score <= final(self)@.score,
            final(self)@.score <= old(self)@.score + old(self)@.debris.len(),
            old(self).player.game_status == GameStatus::GameStopped
                ==> final(self).player.game_status == GameStatus::GameStopped,
    {
        let ghost pre: GameView = self@;
        let ghost orig: Seq<Debris> = self@.debris;
        let ghost p0: Player = self.player;
        let ghost s0: u32 = self.score;
        let len = pool_len(&self.debris);
        let mut deleted: Vec<usize> = Vec::new();
        let ghost mut upd: Seq<Debris> = Seq::<Debris>::empty();
        let ghost mut flags: Seq<DebrisStatus> = Seq::<DebrisStatus>::empty();
        let ghost mut kept: Seq<Debris> = Seq::<Debris>::empty();
        let mut i: usize = 0;
        proof {
            assert(orig.subrange(0, len as int) =~= orig);
            assert(Seq::<Debris>::empty() + pool_pass(orig, p0, s0).0 =~= pool_pass(
                orig,
                p0,
                s0,
            ).0);
        }
        while i < len
            invariant
                i <= len,
                len == orig.len(),
                self.cw_high_score == pre.cw_high_score,
                self.rmt_high_score == pre.rmt_high_score,
                self.n_high_score == pre.n_high_score,
                self.spawn_countdown == pre.spawn_countdown,
                self.spawn_rate == pre.spawn_rate,
                self.seed_count == pre.seed_count,
                self.difficulty == pre.difficulty,
                self.player.col == p0.col,
                self.player.row == p0.row,
                self.player.dy == p0.dy,
                p0.game_status == GameStatus::GameStopped ==> self.player.game_status
                    == GameStatus::GameStopped,
                player_wf(p0),
                player_wf(self.player),
                forall|k: int| 0 <= k < orig.len() ==> pooled_debris_wf(#[trigger] orig[k]),
                s0 + orig.len() <= u32::MAX,
                upd.len() == i,
                flags.len() == i,
                pool_seq(self.debris) == upd + orig.subrange(i as int, len as int),
                s0 <= self.score <= s0 + i,
                deleted@.len() == destroy_indices(flags).len(),
                forall|k: int|
                    0 <= k < deleted@.len() ==> #[trigger] deleted@[k] as int == destroy_indices(
                        flags,
                    )[k],
                kept == filter_flags(upd, flags),
                kept.len() <= i,
                forall|k: int| 0 <= k < kept.len() ==> pooled_debris_wf(#[trigger] kept[k]),
                pool_pass(orig, p0, s0).0 == kept + pool_pass(
                    orig.subrange(i as int, len as int),
                    self.player,
                    self.score,
                ).0,
                pool_pass(orig, p0, s0).1 == pool_pass(
                    orig.subrange(i as int, len as int),
                    self.player,
                    self.score,
                ).1,
                pool_pass(orig, p0, s0).2 == pool_pass(
                    orig.subrange(i as int, len as int),
                    self.player,
                    self.score,
                ).2,
            decreases len - i,
        {
            let ghost p_pre = self.player;
            let ghost s_pre = self.score;
            let ghost tail = orig.subrange(i as int, len as int);
            let ghost upd0 = upd;
            let ghost flags0 = flags;
            let ghost kept0 = kept;
            proof {
                assert(tail[0] == orig[i as int]);
                assert(tail.drop_first() =~= orig.subrange(i as int + 1, len as int));
            }
            let mut d = pool_get(&self.debris, i);
            proof {
                assert(d == (upd0 + tail)[i as int]);
                assert(d == orig[i as int]);
                assert(pooled_debris_wf(d));
            }
            let status_opt = d.tick(&mut self.player);
            pool_set(&mut self.debris, i, d);
            let ghost step = debris_step(orig[i as int], p_pre);
            match status_opt {
                Some(DebrisStatus::ScorePoint) => {
                    self.increment_score();
                },
                Some(DebrisStatus::Destroy) => {
                    deleted.push(i);
                },
                _ => {},
            }
            proof {
                upd = upd0.push(step.0);
                flags = flags0.push(step.2);
                if step.2 != DebrisStatus::Destroy {
                    kept = kept0.push(step.0);
                }
                assert(upd.drop_last() =~= upd0);
                assert(flags.drop_last() =~= flags0);
                assert(pool_seq(self.debris) =~= upd + orig.subrange(i as int + 1, len as int));
                assert(self.score == tally(step.2, step.1, s_pre));
                // the pass on the tail unfolds one step
                let rest = pool_pass(tail.drop_first(), step.1, tally(step.2, step.1, s_pre));
                assert(pool_pass(tail, p_pre, s_pre).1 == rest.1);
                assert(pool_pass(tail, p_pre, s_pre).2 == rest.2);
                if step.2 == DebrisStatus::Destroy {
                    assert(pool_pass(tail, p_pre, s_pre).0 == rest.0);
                } else {
                    assert(pool_pass(tail, p_pre, s_pre).0 == seq![step.0] + rest.0);
                    assert(kept0 + (seq![step.0] + rest.0) =~= kept + rest.0);
                    assert(step.2 != DebrisStatus::Destroy ==> pooled_debris_wf(step.0));
                }
                assert(pool_pass(orig, p0, s0).0 == kept + rest.0);
            }
            i += 1;
        }
        proof {
            assert(orig.subrange(len as int, len as int) =~= Seq::<Debris>::empty());
            assert(pool_pass(orig, p0, s0).0 =~= kept);
            assert(pool_seq(self.debris) =~= upd);
            lemma_destroy_indices_facts(flags);
        }
        let ghost dead: Seq<int> = destroy_indices(flags);
        let ghost p_done: Player = self.player;
        let ghost s_done: u32 = self.score;
        let dn = deleted.len();
        let mut j: usize = dn;
        proof {
            assert(dead.subrange(0, dead.len() as int) =~= dead);
        }
        while j > 0
            invariant
                j <= dn,
                dn == deleted@.len(),
                dn == dead.len(),
                dead == destroy_indices(flags),
                upd.len() == flags.len(),
                forall|k: int| 0 <= k < dn ==> #[trigger] deleted@[k] as int == dead[k],
                forall|k: int| 0 <= k < dead.len() ==> 0 <= #[trigger] dead[k] < upd.len(),
                forall|k1: int, k2: int|
                    0 <= k1 < k2 < dead.len() ==> dead[k1] < dead[k2],
                self.player == p_done,
                self.score == s_done,
                self.cw_high_score == pre.cw_high_score,
                self.rmt_high_score == pre.rmt_high_score,
                self.n_high_score == pre.n_high_score,
                self.spawn_countdown == pre.spawn_countdown,
                self.spawn_rate == pre.spawn_rate,
                self.seed_count == pre.seed_count,
                self.difficulty == pre.difficulty,
                pool_seq(self.debris).len() == upd.len() - (dead.len() - j),
                remove_desc(upd, dead) == remove_desc(
                    pool_seq(self.debris),
                    dead.subrange(0, j as int),
                ),
            decreases j,
        {
            j = j - 1;
            let idx = deleted[j];
            let ghost cur0 = pool_seq(self.debris);
            proof {
                if j as int + 1 <= dead.len() - 1 {
                    lemma_sorted_gap(dead, j as int, dead.len() - 1);
                }
                assert(idx as int == dead[j as int]);
                assert(idx < cur0.len());
            }
            let _removed = pool_remove(&mut self.debris, idx);
            proof {
                let sub_old = dead.subrange(0, j as int + 1);
                assert(sub_old.last() == dead[j as int]);
                assert(sub_old.drop_last() =~= dead.subrange(0, j as int));
                assert(remove_desc(cur0, sub_old) == remove_desc(
                    pool_seq(self.debris),
                    dead.subrange(0, j as int),
                ));
            }
        }
        proof {
            assert(dead.subrange(0, 0) =~= Seq::<int>::empty());
            assert(remove_desc(upd, dead) == pool_seq(self.debris));
            lemma_remove_desc_is_filter(upd, flags);
            assert(pool_seq(self.debris) == kept);
            assert(self@ =~= pool_phase_spec(pre));
        }
    }

    /// One whole simulation tick, in the order `update_step` lays out: the
    /// seed counter steps, the player moves (a stopped round zeroes the
    /// velocity and folds the score into the high scores), the pool passes,
    /// and the spawn countdown runs.  Collisions are resolved while the pool
    /// passes, so a pending point still counts only if the round is still
    /// running when its debris is tallied.
    pub fn update(&mut self)
        requires
            old(self).wf(),
            old(self)@.score + old(self)@.debris.len() <= u32::MAX,
        ensures
            final(self).wf(),
            final(self)@ == update_step(old(self)@),
            final(self)@.cw_high_score >= old(self)@.cw_high_score,
            final(self)@.rmt_high_score >= old(self)@.rmt_high_score,
            final(self)@.n_high_score >= old(self)@.n_high_score,
            old(self)@.player.game_status == GameStatus::GameStopped
                ==> final(self)@.player.game_status == GameStatus::GameStopped,
    {
        self.seed_count = self.seed_count.wrapping_add(1);
        if let Some(event) = self.player.tick() {
            match event {
                GameStatus::GameRunning => {},
                GameStatus::GameStopped => {
                    self.player.dy = 0;
                    self.update_high_score();
                },
            }
        }
        proof {
            assert(self@ =~= player_phase_spec(old(self)@));
        }
        self.pool_phase();
        self.create_debris();
    }

    /// Start a round: empty the pool, zero the score, put the player back in
    /// its spawn pose at rest with the round running, and load the chosen
    /// difficulty's spawn interval into the spawn rate and the countdown.
    fn reset(&mut self)
        requires
            old(self).wf(),
        ensures
            final(self).wf(),
            final(self)@ == reset_spec(old(self)@),
    {
        self.player.game_status = GameStatus::GameRunning;
        match self.difficulty {
            Difficulty::Undefined => {},
            Difficulty::Cakewalk => {
                self.spawn_rate = CW_SPAWN_RATE;
                self.spawn_countdown = CW_SPAWN_RATE;
            },
            Difficulty::Rmt => {
                self.spawn_rate = RMT_SPAWN_RATE;
                self.spawn_countdown = RMT_SPAWN_RATE;
            },
            Difficulty::Nightmare => {
                self.spawn_rate = N_SPAWN_RATE;
                self.spawn_countdown = N_SPAWN_RATE;
            },
        }
        pool_clear(&mut self.debris);
        self.score = 0;
        self.player.row = BUFFER_HEIGHT / 2;
        self.player.col = BUFFER_WIDTH / 4;
        self.player.dy = 0;
        proof {
            assert(self@ =~= reset_spec(old(self)@));
        }
    }
}

} // verus!
