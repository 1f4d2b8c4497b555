//! The simulation context: the one mutable aggregate of the system, holding
//! the loaded arena, the ball template and the stepping mode, together with
//! the single- and multi-tick stepping entry points.

use vstd::prelude::*;

use rl_ball_sym::{Ball, Game, Vec3A};

use crate::physics::{
    ball_target_y_bits, ball_with_target, ball_with_target_reset, default_ball, load_dropshot_raw,
    load_heatseeker_raw, load_hoops_raw, load_standard_raw, load_throwback_raw, overlay,
    overlay_of, step_heatseeker_of, step_heatseeker_tick, step_standard_of, step_standard_tick,
    target_y_bits_of, with_gravity_z, with_gravity_z_of, with_target_of, with_target_reset_of,
    TARGET_Y_BITS_BLUE, TARGET_Y_BITS_NEUTRAL, TARGET_Y_BITS_ORANGE,
};

verus! {

/// The outcome of an operation that needs a loaded arena: it either ran, or
/// it found the context unloaded and left it untouched.
#[derive(Clone, Copy, Debug, PartialEq, Eq, Structural)]
pub enum OpStatus {
    Done,
    Unloaded,
}

/// One tick of the integrator for the given mode.
pub open spec fn step_mode_of(ball: Ball, game: Game, heatseeker: bool) -> Ball {
    if heatseeker {
        step_heatseeker_of(ball, game)
    } else {
        step_standard_of(ball, game)
    }
}

/// The ball after `n` chained ticks of the integrator for the given mode.
pub open spec fn step_n_of(ball: Ball, game: Game, heatseeker: bool, n: nat) -> Ball
    decreases n,
{
    if n == 0 {
        ball
    } else {
        step_mode_of(step_n_of(ball, game, heatseeker, (n - 1) as nat), game, heatseeker)
    }
}

/// The full multi-tick result: element `k` is the ball after `k + 1` ticks,
/// so the sequence holds exactly one snapshot per requested tick, in order.
pub open spec fn trajectory_of(ball: Ball, game: Game, heatseeker: bool, ticks: nat) -> Seq<Ball> {
    Seq::new(ticks, |k: int| step_n_of(ball, game, heatseeker, (k + 1) as nat))
}

/// The shared simulation state: an arena (absent until the first load), the
/// ball template whose internal fields (such as the heatseeker target) every
/// step starts from, and the flag selecting the heatseeker integrator.
///
/// A load replaces the whole triple at once, so the mode flag can never
/// drift apart from the arena it was loaded with.
pub struct SimContext {
    pub game: Option<Game>,
    pub ball: Ball,
    pub heatseeker: bool,
}

impl SimContext {
    /// Whether an arena has been loaded.
    pub open spec fn loaded(self) -> bool {
        self.game is Some
    }

    /// A fresh context: no arena yet, the standard default ball as template,
    /// standard stepping.
    pub fn new() -> (r: SimContext)
        ensures
            !r.loaded(),
            !r.heatseeker,
            target_y_bits_of(r.ball) == TARGET_Y_BITS_NEUTRAL,
    {
        SimContext { game: None, ball: default_ball(), heatseeker: false }
    }

    /// Loads the standard arena, replacing the whole triple: whatever was
    /// loaded before, the context leaves heatseeker mode and starts from a
    /// fresh ball with a neutral target.
    pub fn load_standard(&mut self)
        ensures
            final(self).loaded(),
            !final(self).heatseeker,
            target_y_bits_of(final(self).ball) == TARGET_Y_BITS_NEUTRAL,
    {
        let (game, ball) = load_standard_raw();
        *self = SimContext { game: Some(game), ball, heatseeker: false };
    }

    /// Loads the standard arena with the heatseeker ball and turns heatseeker
    /// stepping on, replacing the whole triple.
    pub fn load_heatseeker(&mut self)
        ensures
            final(self).loaded(),
            final(self).heatseeker,
            target_y_bits_of(final(self).ball) == TARGET_Y_BITS_NEUTRAL,
    {
        let (game, ball) = load_heatseeker_raw();
        *self = SimContext { game: Some(game), ball, heatseeker: true };
    }

    /// Loads the dropshot arena, replacing the whole triple; heatseeker
    /// stepping is off.
    pub fn load_dropshot(&mut self)
        ensures
            final(self).loaded(),
            !final(self).heatseeker,
            target_y_bits_of(final(self).ball) == TARGET_Y_BITS_NEUTRAL,
    {
        let (game, ball) = load_dropshot_raw();
        *self = SimContext { game: Some(game), ball, heatseeker: false };
    }

    /// Loads the hoops arena, replacing the whole triple; heatseeker stepping
    /// is off.
    pub fn load_hoops(&mut self)
        ensures
            final(self).loaded(),
            !final(self).heatseeker,
            target_y_bits_of(final(self).ball) == TARGET_Y_BITS_NEUTRAL,
    {
        let (game, ball) = load_hoops_raw();
        *self = SimContext { game: Some(game), ball, heatseeker: false };
    }

    /// Loads the throwback arena, replacing the whole triple; heatseeker
    /// stepping is off.
    pub fn load_standard_throwback(&mut self)
        ensures
            final(self).loaded(),
            !final(self).heatseeker,
            target_y_bits_of(final(self).ball) == TARGET_Y_BITS_NEUTRAL,
    {
        let (game, ball) = load_throwback_raw();
        *self = SimContext { game: Some(game), ball, heatseeker: false };
    }

    /// Replaces the z component of the loaded arena's gravity with the z
    /// component of `gravity`. Without a loaded arena this is a no-op that
    /// reports `Unloaded`.
    pub fn set_gravity(&mut self, gravity: Vec3A) -> (r: OpStatus)
        ensures
            !old(self).loaded() ==> r == OpStatus::Unloaded && *final(self) == *old(self),
            old(self).loaded() ==> r == OpStatus::Done && final(self).game == Some(
                with_gravity_z_of(old(self).game->Some_0, gravity),
            ) && final(self).ball == old(self).ball && final(self).heatseeker == old(
                self,
            ).heatseeker,
    {
        match self.game.take() {
            None => OpStatus::Unloaded,
            Some(g) => {
                self.game = Some(with_gravity_z(g, gravity));
                OpStatus::Done
            },
        }
    }

    /// Aims the template ball's heatseeker target at the blue goal (target y
    /// of `-5120.0`) or the orange goal (`5120.0`). Well defined in every
    /// mode; only heatseeker stepping reads the target.
    pub fn set_heatseeker_target(&mut self, blue_goal: bool)
        ensures
            final(self).ball == with_target_of(old(self).ball, blue_goal),
            target_y_bits_of(final(self).ball) == (if blue_goal {
                TARGET_Y_BITS_BLUE
            } else {
                TARGET_Y_BITS_ORANGE
            }),
            final(self).game == old(self).game,
            final(self).heatseeker == old(self).heatseeker,
    {
        self.ball = ball_with_target(&self.ball, blue_goal);
    }

    /// Returns the template ball's heatseeker target to neutral (target y of
    /// `0.0`).
    pub fn reset_heatseeker_target(&mut self)
        ensures
            final(self).ball == with_target_reset_of(old(self).ball),
            target_y_bits_of(final(self).ball) == TARGET_Y_BITS_NEUTRAL,
            final(self).game == old(self).game,
            final(self).heatseeker == old(self).heatseeker,
    {
        self.ball = ball_with_target_reset(&self.ball);
    }

    /// The y component of the template ball's heatseeker target, as its
    /// IEEE 754 bit pattern: the library keeps floating point outside its own
    /// signatures, so the scalar crosses as raw bits.
    pub fn get_heatseeker_target_y(&self) -> (r: u32)
        ensures
            r == target_y_bits_of(self.ball),
    {
        ball_target_y_bits(&self.ball)
    }

    /// Advances the caller's snapshot by exactly one tick: the snapshot is
    /// written over the stored template (which keeps internally tracked
    /// fields such as the heatseeker target), then stepped once in the
    /// current mode. The stored state is not changed. Without a loaded arena
    /// the result is `None`.
    pub fn step_once(&self, current: &Ball) -> (r: Option<Ball>)
        ensures
            r is Some <==> self.loaded(),
            self.loaded() ==> r->Some_0 == step_mode_of(
                overlay_of(self.ball, *current),
                self.game->Some_0,
                self.heatseeker,
            ),
    {
        match &self.game {
            None => None,
            Some(game) => {
                let start = overlay(&self.ball, current);
                Some(advance_tick(&start, game, self.heatseeker))
            },
        }
    }

    /// Advances the caller's snapshot by exactly `ticks` ticks, returning one
    /// snapshot per tick in order: element `k` is the ball after `k + 1`
    /// ticks from the overlaid start. For zero ticks the result is an empty,
    /// still-valid sequence. The stored state is not changed. Without a
    /// loaded arena the result is `None` and nothing is allocated.
    pub fn step(&self, current: &Ball, ticks: u16) -> (r: Option<Vec<Ball>>)
        ensures
            r is Some <==> self.loaded(),
            self.loaded() ==> r->Some_0@ == trajectory_of(
                overlay_of(self.ball, *current),
                self.game->Some_0,
                self.heatseeker,
                ticks as nat,
            ),
            self.loaded() ==> r->Some_0@.len() == ticks as nat,
    {
        let game = match &self.game {
            None => {
                return None;
            },
            Some(g) => g,
        };
        let mut ball = overlay(&self.ball, current);
        let ghost start = ball;
        let mut out: Vec<Ball> = Vec::new();
        let mut i: u16 = 0;
        while i < ticks
            invariant
                i <= ticks,
                out@.len() == i as nat,
                ball == step_n_of(start, *game, self.heatseeker, i as nat),
                forall|k: int|
                    0 <= k < i as int ==> out@[k] == step_n_of(
                        start,
                        *game,
                        self.heatseeker,
                        (k + 1) as nat,
                    ),
            decreases ticks - i,
        {
            ball = advance_tick(&ball, game, self.heatseeker);
            out.push(ball);
            i = i + 1;
        }
        proof {
            assert(out@ =~= trajectory_of(start, *game, self.heatseeker, ticks as nat));
        }
        Some(out)
    }
}

/// One tick of the integrator, dispatched on the mode flag.
pub(crate) fn advance_tick(ball: &Ball, game: &Game, heatseeker: bool) -> (r: Ball)
    ensures
        r == step_mode_of(*ball, *game, heatseeker),
{
    if heatseeker {
        step_heatseeker_tick(ball, game)
    } else {
        step_standard_tick(ball, game)
    }
}

} // verus!
