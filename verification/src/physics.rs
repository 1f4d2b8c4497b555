//! The trusted boundary to `rl_ball_sym`: the arena loaders, the single-tick
//! integrator calls, and the small ball-field operations the context needs.
//!
//! Every executable item here is `external_body`: its contract names the
//! outside function it relies on, and everything built on top is verified
//! against these contracts alone.

use vstd::prelude::*;

use rl_ball_sym::{Ball, Game, Vec3A};

verus! {

#[verifier::external_type_specification]
#[verifier::external_body]
pub struct ExBall(Ball);

#[verifier::external_type_specification]
#[verifier::external_body]
pub struct ExGame(Game);

#[verifier::external_type_specification]
#[verifier::external_body]
pub struct ExVec3A(Vec3A);

/// What `Ball::step` returns for a ball and arena at the fixed tick length
/// of one 120th of a second. The integrator is deterministic and pure in
/// these two values, so the result deserves a name.
pub uninterp spec fn step_standard_of(ball: Ball, game: Game) -> Ball;

/// What `Ball::step_heatseeker` returns for a ball and arena at the fixed
/// tick length of one 120th of a second.
pub uninterp spec fn step_heatseeker_of(ball: Ball, game: Game) -> Ball;

/// What `Ball::update` returns: the template ball with the caller's time,
/// position, linear velocity and angular velocity written over it, every
/// other field (radius, inertia, heatseeker target) kept from the template.
pub uninterp spec fn overlay_of(template: Ball, input: Ball) -> Ball;

/// What writing `gravity.z` returns: the arena with the z component of its
/// gravity replaced by the z component of `gravity`, all else unchanged.
pub uninterp spec fn with_gravity_z_of(game: Game, gravity: Vec3A) -> Game;

/// What `Ball::set_heatseeker_target` returns: the ball aimed at the blue
/// goal (negative y) or the orange goal (positive y).
pub uninterp spec fn with_target_of(ball: Ball, blue_goal: bool) -> Ball;

/// What `Ball::reset_heatseeker_target` returns: the ball with a neutral
/// target, behaving as if no goal were selected.
pub uninterp spec fn with_target_reset_of(ball: Ball) -> Ball;

/// The IEEE 754 bit pattern of the y component of `Ball::get_heatseeker_target`.
/// The library keeps floating point outside its own types, so the scalar
/// crosses this boundary as its raw bits.
pub uninterp spec fn target_y_bits_of(ball: Ball) -> u32;

/// Bits of `-5120.0`: the target y after aiming at the blue goal.
pub const TARGET_Y_BITS_BLUE: u32 = 0xC5A0_0000;

/// Bits of `5120.0`: the target y after aiming at the orange goal.
pub const TARGET_Y_BITS_ORANGE: u32 = 0x45A0_0000;

/// Bits of `0.0`: the target y of a ball whose target is neutral, as every
/// freshly loaded ball's is.
pub const TARGET_Y_BITS_NEUTRAL: u32 = 0;

/// Relies on `rl_ball_sym::load_standard`: a standard arena and its default
/// ball, whose heatseeker target direction starts neutral.
#[verifier::external_body]
pub(crate) fn load_standard_raw() -> (r: (Game, Ball))
    ensures
        target_y_bits_of(r.1) == TARGET_Y_BITS_NEUTRAL,
{
    rl_ball_sym::load_standard()
}

/// Relies on `rl_ball_sym::load_standard_heatseeker`: a standard arena and
/// the heatseeker default ball, whose target direction starts neutral.
#[verifier::external_body]
pub(crate) fn load_heatseeker_raw() -> (r: (Game, Ball))
    ensures
        target_y_bits_of(r.1) == TARGET_Y_BITS_NEUTRAL,
{
    rl_ball_sym::load_standard_heatseeker()
}

/// Relies on `rl_ball_sym::load_dropshot`: the dropshot arena and its default
/// ball, whose heatseeker target direction starts neutral.
#[verifier::external_body]
pub(crate) fn load_dropshot_raw() -> (r: (Game, Ball))
    ensures
        target_y_bits_of(r.1) == TARGET_Y_BITS_NEUTRAL,
{
    rl_ball_sym::load_dropshot()
}

/// Relies on `rl_ball_sym::load_hoops`: the hoops arena and its default ball,
/// whose heatseeker target direction starts neutral.
#[verifier::external_body]
pub(crate) fn load_hoops_raw() -> (r: (Game, Ball))
    ensures
        target_y_bits_of(r.1) == TARGET_Y_BITS_NEUTRAL,
{
    rl_ball_sym::load_hoops()
}

/// Relies on `rl_ball_sym::load_standard_throwback`: the throwback arena and
/// the standard default ball, whose heatseeker target direction starts neutral.
#[verifier::external_body]
pub(crate) fn load_throwback_raw() -> (r: (Game, Ball))
    ensures
        target_y_bits_of(r.1) == TARGET_Y_BITS_NEUTRAL,
{
    rl_ball_sym::load_standard_throwback()
}

/// Relies on `rl_ball_sym::Ball::DEFAULT_STANDARD`: the standard default
/// ball, whose heatseeker target direction starts neutral.
#[verifier::external_body]
pub(crate) fn default_ball() -> (r: Ball)
    ensures
        target_y_bits_of(r) == TARGET_Y_BITS_NEUTRAL,
{
    Ball::DEFAULT_STANDARD
}

/// Relies on `rl_ball_sym::Ball::get_ball_prediction_struct_for_slices` with
/// one slice: exactly one `Ball::step` call at the crate's own fixed tick
/// length. `Ball::step` leaves the heatseeker target direction untouched.
#[verifier::external_body]
pub(crate) fn step_standard_tick(ball: &Ball, game: &Game) -> (r: Ball)
    ensures
        r == step_standard_of(*ball, *game),
        target_y_bits_of(r) == target_y_bits_of(*ball),
{
    let mut slices = ball.get_ball_prediction_struct_for_slices(game, 1);
    slices.pop().unwrap()
}

/// Relies on `rl_ball_sym::Ball::get_heatseeker_prediction_struct_for_slices`
/// with one slice: exactly one `Ball::step_heatseeker` call at the crate's
/// own fixed tick length. A wall bounce may flip the target direction, so
/// nothing is claimed of the result's target.
#[verifier::external_body]
pub(crate) fn step_heatseeker_tick(ball: &Ball, game: &Game) -> (r: Ball)
    ensures
        r == step_heatseeker_of(*ball, *game),
{
    let mut slices = ball.get_heatseeker_prediction_struct_for_slices(game, 1);
    slices.pop().unwrap()
}

/// Relies on `rl_ball_sym::Ball::update`: writes the input's time, position,
/// linear velocity and angular velocity over the template and touches no
/// other field, so the target direction stays the template's.
#[verifier::external_body]
pub(crate) fn overlay(template: &Ball, input: &Ball) -> (r: Ball)
    ensures
        r == overlay_of(*template, *input),
        target_y_bits_of(r) == target_y_bits_of(*template),
{
    let mut ball = *template;
    ball.update(input.time, input.location, input.velocity, input.angular_velocity);
    ball
}

/// Relies on the public `gravity` field of `rl_ball_sym::Game`: replaces the
/// z component of the arena's gravity and nothing else.
#[verifier::external_body]
pub(crate) fn with_gravity_z(game: Game, gravity: Vec3A) -> (r: Game)
    ensures
        r == with_gravity_z_of(game, gravity),
{
    let mut g = game;
    g.gravity.z = gravity.z;
    g
}

/// Relies on `rl_ball_sym::Ball::set_heatseeker_target`: aims the ball at
/// the blue goal (target y of `-5120.0`) or the orange goal (`5120.0`).
#[verifier::external_body]
pub(crate) fn ball_with_target(ball: &Ball, blue_goal: bool) -> (r: Ball)
    ensures
        r == with_target_of(*ball, blue_goal),
        target_y_bits_of(r) == (if blue_goal {
            TARGET_Y_BITS_BLUE
        } else {
            TARGET_Y_BITS_ORANGE
        }),
{
    let mut b = *ball;
    b.set_heatseeker_target(blue_goal);
    b
}

/// Relies on `rl_ball_sym::Ball::reset_heatseeker_target`: clears the target
/// direction, so the target y returns to neutral.
#[verifier::external_body]
pub(crate) fn ball_with_target_reset(ball: &Ball) -> (r: Ball)
    ensures
        r == with_target_reset_of(*ball),
        target_y_bits_of(r) == TARGET_Y_BITS_NEUTRAL,
{
    let mut b = *ball;
    b.reset_heatseeker_target();
    b
}

/// Relies on `rl_ball_sym::Ball::get_heatseeker_target`: reads the target's
/// y component, handed out as its IEEE 754 bit pattern.
#[verifier::external_body]
pub(crate) fn ball_target_y_bits(ball: &Ball) -> (r: u32)
    ensures
        r == target_y_bits_of(*ball),
{
    ball.get_heatseeker_target().y.to_bits()
}

} // verus!
