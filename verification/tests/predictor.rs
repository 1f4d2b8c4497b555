use ball_predictor::context::{OpStatus, SimContext};
use rl_ball_sym::{Ball, Vec3A};

fn make_ball(time: f32, loc: [f32; 3], vel: [f32; 3], ang: [f32; 3]) -> Ball {
    let mut b = Ball::DEFAULT_STANDARD;
    b.update(
        time,
        Vec3A::new(loc[0], loc[1], loc[2]),
        Vec3A::new(vel[0], vel[1], vel[2]),
        Vec3A::new(ang[0], ang[1], ang[2]),
    );
    b
}

fn assert_same_ball(a: &Ball, b: &Ball) {
    assert_eq!(a.time.to_bits(), b.time.to_bits());
    assert_eq!(a.location, b.location);
    assert_eq!(a.velocity, b.velocity);
    assert_eq!(a.angular_velocity, b.angular_velocity);
}

#[test]
fn unloaded_defaults() {
    let ctx = SimContext::new();
    let ball = make_ball(0.0, [0.0, 0.0, 100.0], [0.0, 0.0, 0.0], [0.0, 0.0, 0.0]);
    assert!(ctx.step_once(&ball).is_none());
    assert!(ctx.step(&ball, 4).is_none());
    assert_eq!(f32::from_bits(ctx.get_heatseeker_target_y()), 0.0);

    let mut ctx = ctx;
    assert_eq!(ctx.set_gravity(Vec3A::new(0.0, 0.0, -1300.0)), OpStatus::Unloaded);
    assert!(ctx.step_once(&ball).is_none());
}

#[test]
fn tick_count_exact() {
    let mut ctx = SimContext::new();
    ctx.load_standard();
    let ball = make_ball(0.0, [50.0, -30.0, 400.0], [10.0, 5.0, -20.0], [0.0, 1.0, 0.0]);
    let out = ctx.step(&ball, 5).unwrap();
    assert_eq!(out.len(), 5);
    let empty = ctx.step(&ball, 0).unwrap();
    assert_eq!(empty.len(), 0);
}

#[test]
fn deterministic_repeat_calls() {
    let mut ctx = SimContext::new();
    ctx.load_standard();
    let ball = make_ball(1.5, [0.0, 200.0, 300.0], [100.0, -40.0, 60.0], [0.5, 0.0, -0.5]);
    let a = ctx.step(&ball, 50).unwrap();
    let b = ctx.step(&ball, 50).unwrap();
    assert_eq!(a.len(), b.len());
    for (x, y) in a.iter().zip(b.iter()) {
        assert_same_ball(x, y);
    }
}

#[test]
fn chained_single_steps_match_bulk() {
    let mut ctx = SimContext::new();
    ctx.load_standard();
    let ball = make_ball(0.0, [0.0, 0.0, 500.0], [80.0, -120.0, 30.0], [1.0, 0.0, 0.0]);
    let bulk = ctx.step(&ball, 100).unwrap();
    assert_eq!(bulk.len(), 100);
    let mut chained = ball;
    for slice in &bulk {
        chained = ctx.step_once(&chained).unwrap();
        assert_same_ball(slice, &chained);
    }
}

#[test]
fn mode_isolation_across_reloads() {
    let ball = make_ball(0.0, [40.0, 40.0, 350.0], [-60.0, 90.0, 10.0], [0.0, 0.0, 2.0]);

    let mut ctx = SimContext::new();
    ctx.load_standard();
    let before = ctx.step(&ball, 30).unwrap();

    ctx.load_heatseeker();
    ctx.set_heatseeker_target(true);
    let _ = ctx.step(&ball, 30).unwrap();

    ctx.load_standard();
    let after = ctx.step(&ball, 30).unwrap();

    assert_eq!(before.len(), after.len());
    for (x, y) in before.iter().zip(after.iter()) {
        assert_same_ball(x, y);
    }
    assert_eq!(f32::from_bits(ctx.get_heatseeker_target_y()), 0.0);
}

#[test]
fn example_scenario_one_tick() {
    let mut ctx = SimContext::new();
    ctx.load_standard();

    // The integrator treats a ball whose linear and angular velocities are
    // both exactly zero as resting: only its clock advances.
    let resting = make_ball(0.0, [0.0, 0.0, 100.0], [0.0, 0.0, 0.0], [0.0, 0.0, 0.0]);
    let out = ctx.step_once(&resting).unwrap();
    assert_eq!(out.time, 1.0f32 / 120.0f32);
    assert_eq!(out.location.z, 100.0);

    // With any motion at all, one tick of free fall applies: gravity of
    // -650 over a 120th of a second, and the position drops accordingly.
    let falling = make_ball(0.0, [0.0, 0.0, 100.0], [0.0, 0.0, -0.1], [0.0, 0.0, 0.0]);
    let out = ctx.step_once(&falling).unwrap();
    assert_eq!(out.time, 1.0f32 / 120.0f32);
    assert!(out.location.z < 100.0);
    assert!(out.velocity.z < -5.0 && out.velocity.z > -6.0);
}

#[test]
fn gravity_override_changes_stepping() {
    let ball = make_ball(0.0, [0.0, 0.0, 600.0], [0.0, 0.0, -1.0], [0.0, 0.0, 0.0]);

    let mut ctx = SimContext::new();
    ctx.load_standard();
    let default_out = ctx.step_once(&ball).unwrap();

    assert_eq!(ctx.set_gravity(Vec3A::new(0.0, 0.0, -1300.0)), OpStatus::Done);
    let heavy_out = ctx.step_once(&ball).unwrap();

    assert!(heavy_out.velocity.z < default_out.velocity.z);
    assert!(heavy_out.velocity.z < -10.0);
}

#[test]
fn target_selection_round_trip() {
    let mut ctx = SimContext::new();
    ctx.load_heatseeker();
    assert_eq!(f32::from_bits(ctx.get_heatseeker_target_y()), 0.0);

    ctx.set_heatseeker_target(true);
    assert_eq!(f32::from_bits(ctx.get_heatseeker_target_y()), -5120.0);

    ctx.set_heatseeker_target(false);
    assert_eq!(f32::from_bits(ctx.get_heatseeker_target_y()), 5120.0);

    ctx.reset_heatseeker_target();
    assert_eq!(f32::from_bits(ctx.get_heatseeker_target_y()), 0.0);
}

#[test]
fn heatseeker_mode_steps_differently() {
    let ball = make_ball(0.0, [0.0, 0.0, 300.0], [0.0, 500.0, 0.0], [0.0, 0.0, 0.0]);

    let mut standard = SimContext::new();
    standard.load_standard();
    let std_out = standard.step_once(&ball).unwrap();

    let mut seeking = SimContext::new();
    seeking.load_heatseeker();
    seeking.set_heatseeker_target(true);
    let hs_out = seeking.step_once(&ball).unwrap();

    assert_ne!(std_out.velocity, hs_out.velocity);
}

#[test]
fn target_survives_standard_steps() {
    // A standard-mode step and the overlay both leave the template's target
    // alone: the target chosen before stepping is still readable after.
    let mut ctx = SimContext::new();
    ctx.load_standard();
    ctx.set_heatseeker_target(false);
    let ball = make_ball(0.0, [0.0, 0.0, 400.0], [30.0, 0.0, 0.0], [0.0, 0.0, 0.0]);
    let _ = ctx.step(&ball, 10).unwrap();
    assert_eq!(f32::from_bits(ctx.get_heatseeker_target_y()), 5120.0);
}
