//! A stateful predictor for a rigid ball inside a fixed arena.
//!
//! The heavy lifting — arena geometry and the rigid-body integrator — is done
//! by the `rl_ball_sym` crate and is treated as a deterministic black box.
//! This library owns everything around it: the simulation context that holds
//! the loaded arena, the ball template and the stepping mode, and the
//! multi-tick stepping loop whose output is pinned down, element by element,
//! by the contracts in [`context`] and the laws in [`laws`].

pub mod context;
pub mod laws;
pub mod physics;
