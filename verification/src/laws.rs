//! The laws of the stepping engine, each proved from the contracts in
//! [`crate::context`] alone.

use vstd::prelude::*;

use rl_ball_sym::{Ball, Game};

use crate::context::{step_mode_of, step_n_of, trajectory_of};
use crate::physics::step_standard_of;

verus! {

/// Tick-count fidelity: a trajectory holds exactly one snapshot per requested
/// tick, for any tick count, zero included.
pub proof fn lemma_tick_count(ball: Ball, game: Game, heatseeker: bool, ticks: nat)
    ensures
        trajectory_of(ball, game, heatseeker, ticks).len() == ticks,
{
}

/// Determinism: two multi-tick results obtained from the same start ball,
/// arena, mode and tick count are the same sequence, however often the call
/// is repeated.
pub proof fn lemma_step_deterministic(
    r1: Seq<Ball>,
    r2: Seq<Ball>,
    ball: Ball,
    game: Game,
    heatseeker: bool,
    ticks: nat,
)
    requires
        r1 == trajectory_of(ball, game, heatseeker, ticks),
        r2 == trajectory_of(ball, game, heatseeker, ticks),
    ensures
        r1 == r2,
{
}

/// Single-step consistency: element `k` of a trajectory arises from `k + 1`
/// chained single-tick advances of the start ball — one advance beyond
/// element `k - 1` — so chained single steps reproduce the bulk trajectory.
pub proof fn lemma_single_step_consistency(
    ball: Ball,
    game: Game,
    heatseeker: bool,
    ticks: nat,
    k: int,
)
    requires
        0 <= k < ticks,
    ensures
        trajectory_of(ball, game, heatseeker, ticks)[k] == step_mode_of(
            step_n_of(ball, game, heatseeker, k as nat),
            game,
            heatseeker,
        ),
{
}

/// Single-step consistency, successor form: every element of a trajectory
/// past the first arises from the element just before it by exactly one
/// single-tick advance.
pub proof fn lemma_successive_elements(
    ball: Ball,
    game: Game,
    heatseeker: bool,
    ticks: nat,
    k: int,
)
    requires
        1 <= k < ticks,
    ensures
        trajectory_of(ball, game, heatseeker, ticks)[k] == step_mode_of(
            trajectory_of(ball, game, heatseeker, ticks)[k - 1],
            game,
            heatseeker,
        ),
{
    assert(trajectory_of(ball, game, heatseeker, ticks)[k] == step_n_of(
        ball,
        game,
        heatseeker,
        (k + 1) as nat,
    ));
}

/// The first element of a multi-tick result is exactly the single-step
/// result from the same start ball, arena and mode.
pub proof fn lemma_first_element_is_single_step(
    ball: Ball,
    game: Game,
    heatseeker: bool,
    ticks: nat,
)
    requires
        ticks >= 1,
    ensures
        trajectory_of(ball, game, heatseeker, ticks)[0] == step_mode_of(ball, game, heatseeker),
{
    assert(step_n_of(ball, game, heatseeker, 0) == ball);
    assert(trajectory_of(ball, game, heatseeker, ticks)[0] == step_n_of(ball, game, heatseeker, 1));
}

/// The ball after `n` ticks with the heatseeker flag clear, written without
/// the mode dispatch: the standard integrator alone.
pub open spec fn standard_step_n_of(ball: Ball, game: Game, n: nat) -> Ball
    decreases n,
{
    if n == 0 {
        ball
    } else {
        step_standard_of(standard_step_n_of(ball, game, (n - 1) as nat), game)
    }
}

/// Mode isolation, step form: with the heatseeker flag clear, stepping is
/// the standard integrator and nothing else — no heatseeker state can leak
/// into it. A load sets the whole triple at once, so after any sequence of
/// reloads ending in a non-heatseeker load the flag is clear and this law
/// applies.
pub proof fn lemma_mode_isolation_step(ball: Ball, game: Game, n: nat)
    ensures
        step_n_of(ball, game, false, n) == standard_step_n_of(ball, game, n),
    decreases n,
{
    if n > 0 {
        lemma_mode_isolation_step(ball, game, (n - 1) as nat);
    }
}

/// Mode isolation, trajectory form: with the heatseeker flag clear, every
/// element of a multi-tick result is a pure standard-integrator advance.
pub proof fn lemma_mode_isolation(ball: Ball, game: Game, ticks: nat)
    ensures
        forall|k: int|
            0 <= k < ticks ==> trajectory_of(ball, game, false, ticks)[k] == standard_step_n_of(
                ball,
                game,
                (k + 1) as nat,
            ),
{
    assert forall|k: int| 0 <= k < ticks implies trajectory_of(ball, game, false, ticks)[k]
        == standard_step_n_of(ball, game, (k + 1) as nat) by {
        lemma_mode_isolation_step(ball, game, (k + 1) as nat);
    }
}

} // verus!
