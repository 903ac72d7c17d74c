//! The laws of the simulation, proved once and for all over the step
//! functions that the executable contracts are stated against.

use vstd::prelude::*;
use crate::debris::{debris_move, debris_step, Debris, DebrisStatus};
use crate::game::{
    fold_high_scores, game_key_step, game_wf, pool_pass, pooled_debris_wf, player_phase_spec,
    reset_spec, spec_spawn_rate, update_step, Difficulty, GameView,
};
use crate::pool::POOL_CAPACITY;
use crate::grid::{BUFFER_HEIGHT, BUFFER_WIDTH, SCORE_COLUMN};
use crate::input::DecodedKey;
use crate::player::{player_key_step, player_step, player_wf, GameStatus, Player};

verus! {

/// A running player's row moves by exactly its velocity each tick, modulo the
/// grid height, and never leaves the grid.
pub proof fn lemma_player_row_wraps(p: Player)
    requires
        player_wf(p),
    ensures
        player_step(p).row < BUFFER_HEIGHT,
        p.dy == 0 ==> player_step(p).row == p.row,
        p.dy == 1 ==> player_step(p).row as int == (p.row + 1) % (BUFFER_HEIGHT as int),
        p.dy == -1 ==> player_step(p).row as int == (p.row + BUFFER_HEIGHT - 1) % (
        BUFFER_HEIGHT as int),
        player_wf(player_step(p)),
{
}

/// The player state after a whole sequence of key events, applied in order.
pub open spec fn apply_keys(p: Player, keys: Seq<DecodedKey>) -> Player
    decreases keys.len(),
{
    if keys.len() == 0 {
        p
    } else {
        apply_keys(player_key_step(p, keys[0]), keys.drop_first())
    }
}

/// Once the player's velocity is non-zero, no sequence of key events returns
/// it to exactly zero.
pub proof fn lemma_velocity_never_returns_to_zero(p: Player, keys: Seq<DecodedKey>)
    requires
        p.dy != 0,
    ensures
        apply_keys(p, keys).dy != 0,
    decreases keys.len(),
{
    if keys.len() > 0 {
        lemma_velocity_never_returns_to_zero(player_key_step(p, keys[0]), keys.drop_first());
    }
}

/// While its column is still inside the grid, a debris moves exactly one
/// column left on the ticks where its delay counter is spent (reloading the
/// counter from its speed), and otherwise only counts the delay down.
pub proof fn lemma_debris_column_decreases(d: Debris)
    requires
        0 < d.col < BUFFER_WIDTH,
    ensures
        d.dx_tick == 0 ==> debris_move(d).col == d.col - 1 && debris_move(d).dx_tick == d.dx,
        d.dx_tick > 0 ==> debris_move(d).col == d.col && debris_move(d).dx_tick == d.dx_tick
            - 1,
        debris_move(d).row == d.row,
        debris_move(d).dx == d.dx,
{
}

/// A debris after `n` motion ticks.
pub open spec fn debris_move_n(d: Debris, n: nat) -> Debris
    decreases n,
{
    if n == 0 {
        d
    } else {
        debris_move_n(debris_move(d), (n - 1) as nat)
    }
}

/// From a freshly reloaded delay counter it takes exactly `speed` skipped
/// ticks and then one more tick for the column to step down by one.
pub proof fn lemma_debris_speed_delay(d: Debris)
    requires
        0 < d.col < BUFFER_WIDTH,
    ensures
        debris_move_n(d, (d.dx_tick + 1) as nat).col == d.col - 1,
        debris_move_n(d, (d.dx_tick + 1) as nat).dx_tick == d.dx,
        debris_move_n(d, (d.dx_tick + 1) as nat).row == d.row,
    decreases d.dx_tick,
{
    if d.dx_tick == 0 {
        assert(debris_move_n(debris_move(d), 0) == debris_move(d));
    } else {
        lemma_debris_speed_delay(Debris { dx_tick: (d.dx_tick - 1) as usize, ..d });
        assert(debris_move(d) == (Debris { dx_tick: (d.dx_tick - 1) as usize, ..d }));
    }
}

/// A pool pass never grows the pool, and every debris it keeps is still
/// strictly inside the grid: one whose column has reached zero is dropped by
/// the very pass that saw it reach zero.
pub proof fn lemma_pool_pass_drops_spent(ds: Seq<Debris>, p: Player, score: u32)
    requires
        forall|k: int| 0 <= k < ds.len() ==> pooled_debris_wf(#[trigger] ds[k]),
    ensures
        pool_pass(ds, p, score).0.len() <= ds.len(),
        forall|k: int|
            0 <= k < pool_pass(ds, p, score).0.len() ==> pooled_debris_wf(
                #[trigger] pool_pass(ds, p, score).0[k],
            ),
    decreases ds.len(),
{
    if ds.len() > 0 {
        let (d2, p2, status) = debris_step(ds[0], p);
        let s2 = crate::game::tally(status, p2, score);
        assert(forall|k: int|
            0 <= k < ds.drop_first().len() ==> pooled_debris_wf(#[trigger] ds.drop_first()[k]));
        lemma_pool_pass_drops_spent(ds.drop_first(), p2, s2);
        if status != DebrisStatus::Destroy {
            assert(pooled_debris_wf(d2));
        }
    }
}

/// A debris is classified `ScorePoint` exactly on a tick where the round is
/// running and its column moves onto the score column.
pub proof fn lemma_score_exactly_on_crossing(d: Debris, p: Player)
    ensures
        debris_step(d, p).2 == DebrisStatus::ScorePoint <==> (p.game_status
            == GameStatus::GameRunning && d.dx_tick == 0 && debris_step(d, p).0.col
            == SCORE_COLUMN),
{
}

/// Once a debris sits on or past the score column it can never be classified
/// `ScorePoint` again: its column only moves further left until it is
/// destroyed, so it awards at most one point in its lifetime.
pub proof fn lemma_at_most_one_crossing(d: Debris, p: Player)
    requires
        0 < d.col <= SCORE_COLUMN,
    ensures
        debris_step(d, p).2 != DebrisStatus::ScorePoint,
        debris_step(d, p).0.col <= SCORE_COLUMN,
{
}

/// Over one pool pass the score never falls, grows by at most one per debris,
/// and does not change at all once the round stands stopped.
pub proof fn lemma_pass_score_bounds(ds: Seq<Debris>, p: Player, score: u32)
    requires
        score + ds.len() <= u32::MAX,
    ensures
        score <= pool_pass(ds, p, score).2 <= score + ds.len(),
        p.game_status == GameStatus::GameStopped ==> pool_pass(ds, p, score).2 == score,
    decreases ds.len(),
{
    if ds.len() > 0 {
        let (d2, p2, status) = debris_step(ds[0], p);
        let s2 = crate::game::tally(status, p2, score);
        lemma_pass_score_bounds(ds.drop_first(), p2, s2);
    }
}

/// A debris that moves onto the player's cell while the round runs stops the
/// round on that very tick.
pub proof fn lemma_coincidence_stops_player(d: Debris, p: Player)
    requires
        p.game_status == GameStatus::GameRunning,
        debris_move(d).col == p.col,
        debris_move(d).row == p.row,
    ensures
        debris_step(d, p).1.game_status == GameStatus::GameStopped,
{
}

/// A stopped round stays stopped through a pool pass, and the pass leaves
/// the player entirely alone.
pub proof fn lemma_pass_preserves_stopped(ds: Seq<Debris>, p: Player, score: u32)
    requires
        p.game_status == GameStatus::GameStopped,
    ensures
        pool_pass(ds, p, score).1 == p,
    decreases ds.len(),
{
    if ds.len() > 0 {
        lemma_pass_preserves_stopped(ds.drop_first(), p, score);
    }
}

/// A pool pass can only stop the round, never restart it: collision is the
/// one transition, and it happens at most once per round.
pub proof fn lemma_pass_player_only_stops(ds: Seq<Debris>, p: Player, score: u32)
    ensures
        pool_pass(ds, p, score).1.game_status == GameStatus::GameRunning ==> p.game_status
            == GameStatus::GameRunning,
        pool_pass(ds, p, score).1.col == p.col,
        pool_pass(ds, p, score).1.row == p.row,
        pool_pass(ds, p, score).1.dy == p.dy,
    decreases ds.len(),
{
    if ds.len() > 0 {
        let (d2, p2, status) = debris_step(ds[0], p);
        let s2 = crate::game::tally(status, p2, score);
        lemma_pass_player_only_stops(ds.drop_first(), p2, s2);
    }
}

/// A whole tick never restarts a stopped round; only a reset does.
pub proof fn lemma_update_keeps_stopped(g: GameView)
    requires
        g.player.game_status == GameStatus::GameStopped,
    ensures
        update_step(g).player.game_status == GameStatus::GameStopped,
{
    let g1 = player_phase_spec(g);
    lemma_pass_preserves_stopped(g1.debris, g1.player, g1.score);
}

/// A reset always yields a fresh round: score zero, pool empty, the player
/// back in its spawn pose — at rest, with the round running — and the chosen
/// difficulty's spawn interval loaded into the spawn rate and the countdown.
/// High scores survive the reset untouched.
pub proof fn lemma_reset_round_fresh(g: GameView)
    ensures
        reset_spec(g).score == 0,
        reset_spec(g).debris.len() == 0,
        reset_spec(g).player.row == BUFFER_HEIGHT / 2,
        reset_spec(g).player.col == BUFFER_WIDTH / 4,
        reset_spec(g).player.dy == 0,
        reset_spec(g).player.game_status == GameStatus::GameRunning,
        g.difficulty != Difficulty::Undefined ==> reset_spec(g).spawn_rate == spec_spawn_rate(
            g.difficulty,
        ) && reset_spec(g).spawn_countdown == spec_spawn_rate(g.difficulty),
        reset_spec(g).cw_high_score == g.cw_high_score,
        reset_spec(g).rmt_high_score == g.rmt_high_score,
        reset_spec(g).n_high_score == g.n_high_score,
{
}

/// One tick leaves the pool exactly as the pass's survivors, in their spawn
/// order, with at most one freshly spawned debris appended at the end, and
/// never above the capacity: every debris the pass classified `Destroy` is
/// gone within the same tick.
pub proof fn lemma_update_pool_shape(g: GameView)
    requires
        game_wf(g),
    ensures
        ({
            let g1 = player_phase_spec(g);
            let survivors = pool_pass(g1.debris, g1.player, g1.score).0;
            let after = update_step(g).debris;
            &&& (after == survivors || (survivors.len() < POOL_CAPACITY && after.len()
                == survivors.len() + 1 && after.drop_last() == survivors))
            &&& after.len() <= POOL_CAPACITY
        }),
{
    let g1 = player_phase_spec(g);
    lemma_pool_pass_drops_spent(g1.debris, g1.player, g1.score);
    let survivors = pool_pass(g1.debris, g1.player, g1.score).0;
    let after = update_step(g).debris;
    if after.len() == survivors.len() + 1 {
        assert(after.drop_last() =~= survivors);
    }
}

/// Folding a round's score touches only the active difficulty's slot, and
/// leaves it at the maximum of its old value and the score; before a
/// difficulty is chosen nothing changes.
pub proof fn lemma_fold_high_scores_max(g: GameView)
    ensures
        g.difficulty == Difficulty::Undefined ==> fold_high_scores(g) == g,
        g.difficulty == Difficulty::Cakewalk ==> fold_high_scores(g).cw_high_score == (
        if g.score > g.cw_high_score {
            g.score
        } else {
            g.cw_high_score
        }) && fold_high_scores(g).rmt_high_score == g.rmt_high_score && fold_high_scores(
            g,
        ).n_high_score == g.n_high_score,
        g.difficulty == Difficulty::Rmt ==> fold_high_scores(g).rmt_high_score == (
        if g.score > g.rmt_high_score {
            g.score
        } else {
            g.rmt_high_score
        }) && fold_high_scores(g).cw_high_score == g.cw_high_score && fold_high_scores(
            g,
        ).n_high_score == g.n_high_score,
        g.difficulty == Difficulty::Nightmare ==> fold_high_scores(g).n_high_score == (
        if g.score > g.n_high_score {
            g.score
        } else {
            g.n_high_score
        }) && fold_high_scores(g).cw_high_score == g.cw_high_score && fold_high_scores(
            g,
        ).rmt_high_score == g.rmt_high_score,
{
}

/// High scores never decrease across a tick: the only thing a tick does to
/// them is fold in a better round score.
pub proof fn lemma_high_scores_monotone_update(g: GameView)
    ensures
        update_step(g).cw_high_score >= g.cw_high_score,
        update_step(g).rmt_high_score >= g.rmt_high_score,
        update_step(g).n_high_score >= g.n_high_score,
{
}

/// High scores never decrease across a key event either, even through the
/// reset a difficulty key triggers — so they only ever grow, across any
/// number of rounds.
pub proof fn lemma_high_scores_monotone_key(g: GameView, key: DecodedKey)
    ensures
        game_key_step(g, key).cw_high_score >= g.cw_high_score,
        game_key_step(g, key).rmt_high_score >= g.rmt_high_score,
        game_key_step(g, key).n_high_score >= g.n_high_score,
{
}

} // verus!
