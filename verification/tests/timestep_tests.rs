use salva_plugin::configuration::DEFAULT_MAX_DT;
use salva_plugin::configuration::GRAVITY_DEFAULT_Y_BITS;
use salva_plugin::configuration::SalvaConfiguration;
use salva_plugin::configuration::SimulationToRenderTime;
use salva_plugin::configuration::TIME_UNITS_PER_SECOND;
use salva_plugin::configuration::TimeScale;
use salva_plugin::configuration::TimestepMode;
use salva_plugin::engine::DEFAULT_PARTICLE_RADIUS_BITS;
use salva_plugin::engine::DEFAULT_SMOOTHING_FACTOR_BITS;
use salva_plugin::engine::FluidsEngine;
use salva_plugin::engine::SalvaContextInitialization;
use salva_plugin::fluid::FluidDensity;
use salva_plugin::fluid::FluidInteractionGroups;
use salva_plugin::fluid::Group;
use salva_plugin::fluid::NonPressureForce;
use salva_plugin::math::Scalar;
use salva_plugin::math::Vect;
use salva_plugin::salva_context::SalvaContext;
use salva_plugin::salva_context::SalvaContextEntityLink;

fn scalar(v: f32) -> Scalar {
    Scalar { bits: v.to_bits() }
}

fn vect(x: f32, y: f32, z: f32) -> Vect {
    Vect { x: scalar(x), y: scalar(y), z: scalar(z) }
}

/// One sixtieth of a second, exactly representable in time units.
const DT_60: i64 = TIME_UNITS_PER_SECOND / 60;
/// A fifty-hertz frame delta of one fiftieth of a second.
const DELTA_02: i64 = TIME_UNITS_PER_SECOND / 50;

fn context() -> SalvaContext {
    SalvaContext::new(scalar(0.05), scalar(2.0))
}

#[test]
fn fixed_policy_steps_twice_with_half_dt() {
    let mut ctx = context();
    let mut sim = SimulationToRenderTime::default();
    let gravity = vect(0.0, -9.81, 0.0);
    let mode = TimestepMode::Fixed { dt: DT_60, substeps: 2 };

    // The frame delta is irrelevant to the fixed policy.
    ctx.step_simulation(DELTA_02, gravity, mode, &mut sim);

    let advances = &ctx.liquid_world.advances;
    assert_eq!(advances.len(), 2);
    for a in advances.iter() {
        assert_eq!(a.dt, DT_60 / 2);
        assert_eq!(a.dt, TIME_UNITS_PER_SECOND / 120);
        assert_eq!(a.gravity, gravity);
        assert!(!a.coupled);
    }
    assert_eq!(sim.diff, 0);
}

#[test]
fn variable_policy_caps_at_max_dt() {
    let mut ctx = context();
    let mut sim = SimulationToRenderTime::default();
    let gravity = vect(0.0, -9.81, 0.0);
    let mode = TimestepMode::Variable {
        max_dt: DT_60,
        time_scale: TimeScale::one(),
        substeps: 2,
    };

    // The scaled frame delta exceeds the cap, so the cap wins.
    ctx.step_simulation(DELTA_02, gravity, mode, &mut sim);
    assert_eq!(ctx.liquid_world.advances.len(), 2);
    assert_eq!(ctx.liquid_world.advances[0].dt, DT_60 / 2);

    // A smaller scaled delta passes through.
    let short: i64 = TIME_UNITS_PER_SECOND / 120;
    ctx.step_simulation(short, gravity, mode, &mut sim);
    assert_eq!(ctx.liquid_world.advances.len(), 4);
    assert_eq!(ctx.liquid_world.advances[2].dt, short / 2);
}

#[test]
fn variable_policy_applies_time_scale() {
    let mut ctx = context();
    let mut sim = SimulationToRenderTime::default();
    let mode = TimestepMode::Variable {
        max_dt: DT_60,
        time_scale: TimeScale::new(1, 2),
        substeps: 1,
    };

    // Half speed: one fiftieth of a second scales to one hundredth.
    ctx.step_simulation(DELTA_02, vect(0.0, 0.0, 0.0), mode, &mut sim);
    assert_eq!(ctx.liquid_world.advances.len(), 1);
    assert_eq!(ctx.liquid_world.advances[0].dt, DELTA_02 / 2);
}

#[test]
fn interpolated_policy_catches_up_with_real_time() {
    let mut ctx = context();
    let mut sim = SimulationToRenderTime::default();
    let gravity = vect(0.0, -9.81, 0.0);
    let mode = TimestepMode::Interpolated {
        dt: DT_60,
        time_scale: TimeScale::one(),
        substeps: 1,
    };

    // Three frames of one fiftieth of a second feed the accumulator
    // with a surplus over the one-sixtieth timestep.  The catch-up
    // loop advances while the accumulator is positive, so the first
    // frame performs two advances and later frames one each, every
    // advance exactly one sixtieth of a second long.
    ctx.step_simulation(DELTA_02, gravity, mode, &mut sim);
    assert_eq!(ctx.liquid_world.advances.len(), 2);
    assert_eq!(sim.diff, DELTA_02 - 2 * DT_60);

    ctx.step_simulation(DELTA_02, gravity, mode, &mut sim);
    assert_eq!(ctx.liquid_world.advances.len(), 3);

    ctx.step_simulation(DELTA_02, gravity, mode, &mut sim);
    assert_eq!(ctx.liquid_world.advances.len(), 4);
    assert_eq!(sim.diff, 3 * DELTA_02 - 4 * DT_60);
    assert!(sim.diff <= 0);

    for a in ctx.liquid_world.advances.iter() {
        assert_eq!(a.dt, DT_60);
    }
}

#[test]
fn interpolated_policy_can_skip_a_frame() {
    let mut ctx = context();
    let mut sim = SimulationToRenderTime::default();
    let mode = TimestepMode::Interpolated {
        dt: DT_60,
        time_scale: TimeScale::one(),
        substeps: 1,
    };
    let tiny: i64 = TIME_UNITS_PER_SECOND / 300;

    // The first tiny frame still triggers one advance, leaving the
    // accumulator deep in debt; the second performs none.
    ctx.step_simulation(tiny, vect(0.0, 0.0, 0.0), mode, &mut sim);
    assert_eq!(ctx.liquid_world.advances.len(), 1);
    assert!(sim.diff < 0);

    ctx.step_simulation(tiny, vect(0.0, 0.0, 0.0), mode, &mut sim);
    assert_eq!(ctx.liquid_world.advances.len(), 1);
}

#[test]
fn two_contexts_step_independently() {
    let mut engine = FluidsEngine::new();
    let gravity_a = vect(0.0, -9.81, 0.0);
    let gravity_b = vect(0.0, -1.62, 0.0);
    let mode = TimestepMode::Fixed { dt: DT_60, substeps: 1 };
    engine.spawn_context(
        1,
        scalar(0.05),
        scalar(2.0),
        SalvaConfiguration::new(gravity_a),
        mode,
        None,
    );
    engine.spawn_context(
        2,
        scalar(0.05),
        scalar(2.0),
        SalvaConfiguration::new(gravity_b),
        mode,
        None,
    );

    let positions = salva_plugin::fluid::FluidParticlePositions {
        positions: vec![vect(0.0, 0.0, 0.0)],
    };
    let mut forces: Vec<NonPressureForce> = Vec::new();
    let in_a = engine
        .init_fluid(10, Some(SalvaContextEntityLink(1)), &positions, None, None, &mut forces)
        .unwrap();
    assert_eq!(in_a.context_entity, 1);

    // The fluid linked to context one never appears in context two's
    // reverse index.
    assert_eq!(engine.contexts[0].context.fluid_handle_of(10), Some(in_a.handle.0));
    assert_eq!(engine.contexts[1].context.fluid_handle_of(10), None);

    engine.step_simulation(DELTA_02);
    assert_eq!(engine.contexts[0].context.liquid_world.advances.len(), 1);
    assert_eq!(engine.contexts[1].context.liquid_world.advances.len(), 1);
    assert_eq!(engine.contexts[0].context.liquid_world.advances[0].gravity, gravity_a);
    assert_eq!(engine.contexts[1].context.liquid_world.advances[0].gravity, gravity_b);
    assert_eq!(engine.contexts[1].context.fluid_handle_of(10), None);
}

#[test]
fn inactive_and_delegated_contexts_do_not_step() {
    let mut engine = FluidsEngine::new();
    let mode = TimestepMode::Fixed { dt: DT_60, substeps: 1 };
    let mut paused = SalvaConfiguration::new(vect(0.0, -9.81, 0.0));
    paused.physics_pipeline_active = Some(false);
    let mut delegated = SalvaConfiguration::new(vect(0.0, -9.81, 0.0));
    delegated.physics_pipeline_active = None;
    engine.spawn_context(1, scalar(0.05), scalar(2.0), paused, mode, None);
    engine.spawn_context(2, scalar(0.05), scalar(2.0), delegated, mode, None);

    engine.step_simulation(DELTA_02);
    assert_eq!(engine.contexts[0].context.liquid_world.advances.len(), 0);
    assert_eq!(engine.contexts[1].context.liquid_world.advances.len(), 0);
}

#[test]
fn coupled_step_threads_the_coupling() {
    let mut engine = FluidsEngine::new();
    let init = SalvaContextInitialization::InitializeDefaultSalvaContext {
        particle_radius: scalar(0.05),
        smoothing_factor: scalar(2.0),
    };
    let mut config = SalvaConfiguration::default();
    config.physics_pipeline_active = None;
    let mode = TimestepMode::Fixed { dt: DT_60, substeps: 2 };
    engine.insert_default_world(&init, 1, config, mode);
    engine
        .link_default_contexts(&init, 500, vect(0.0, -9.81, 0.0))
        .unwrap();

    // The coupled rigid-body instance did not step: neither do we.
    assert!(!engine.step_simulation_rapier_coupling(1, DELTA_02, false));
    assert_eq!(engine.contexts[0].context.liquid_world.advances.len(), 0);

    // It stepped: the context advances with the coupling threaded.
    assert!(engine.step_simulation_rapier_coupling(1, DELTA_02, true));
    let advances = &engine.contexts[0].context.liquid_world.advances;
    assert_eq!(advances.len(), 2);
    assert!(advances.iter().all(|a| a.coupled));

    // An independent context is not driven by the coupled stage.
    let mut other = FluidsEngine::new();
    other.spawn_context(
        3,
        scalar(0.05),
        scalar(2.0),
        SalvaConfiguration::default(),
        mode,
        None,
    );
    assert!(!other.step_simulation_rapier_coupling(3, DELTA_02, true));
}

#[test]
fn writeback_round_trip_after_stepping() {
    let mut engine = FluidsEngine::new();
    let init = SalvaContextInitialization::InitializeDefaultSalvaContext {
        particle_radius: scalar(0.05),
        smoothing_factor: scalar(2.0),
    };
    engine.insert_default_world(
        &init,
        1,
        SalvaConfiguration::default(),
        TimestepMode::Fixed { dt: DT_60, substeps: 2 },
    );
    let written = vec![vect(1.5, 2.5, 3.5), vect(-1.0, 0.25, 9.81)];
    let positions = salva_plugin::fluid::FluidParticlePositions { positions: written.clone() };
    let mut forces: Vec<NonPressureForce> = Vec::new();
    let out = engine
        .init_fluid(7, None, &positions, None, None, &mut forces)
        .unwrap();

    engine.step_simulation(DELTA_02);

    // Until the solver's own results are installed, the positions read
    // back exactly as written.
    let link = SalvaContextEntityLink(out.context_entity);
    let (read, _, _) = engine.writeback_fluid(link, out.handle, false).unwrap();
    assert_eq!(read, written);
}

#[test]
fn writeback_is_gated_by_activity() {
    let mut engine = FluidsEngine::new();
    let init = SalvaContextInitialization::InitializeDefaultSalvaContext {
        particle_radius: scalar(0.05),
        smoothing_factor: scalar(2.0),
    };
    let mut config = SalvaConfiguration::default();
    config.physics_pipeline_active = None;
    engine.insert_default_world(&init, 1, config, TimestepMode::default());
    let positions =
        salva_plugin::fluid::FluidParticlePositions { positions: vec![vect(0.0, 0.0, 0.0)] };
    let mut forces: Vec<NonPressureForce> = Vec::new();
    let out = engine
        .init_fluid(7, None, &positions, None, None, &mut forces)
        .unwrap();
    let link = SalvaContextEntityLink(out.context_entity);

    // Delegated and uncoupled: no writeback, whatever the flag says.
    assert!(engine.writeback_fluid(link, out.handle, true).is_none());

    // Delegated and coupled: the rigid-body instance's activity
    // decides.
    engine
        .link_default_contexts(&init, 500, vect(0.0, -9.81, 0.0))
        .unwrap();
    assert!(engine.writeback_fluid(link, out.handle, false).is_none());
    assert!(engine.writeback_fluid(link, out.handle, true).is_some());
}

#[test]
fn default_encodings_match_the_machine_reals() {
    assert_eq!(FluidDensity::default().density0.bits, 1000.0f32.to_bits());
    assert_eq!(GRAVITY_DEFAULT_Y_BITS, (-9.81f32).to_bits());
    assert_eq!(SalvaConfiguration::default().gravity.y.bits, (-9.81f32).to_bits());
    assert_eq!(SalvaConfiguration::default().gravity.x.bits, 0.0f32.to_bits());
    assert_eq!(DEFAULT_PARTICLE_RADIUS_BITS, 0.05f32.to_bits());
    assert_eq!(DEFAULT_SMOOTHING_FACTOR_BITS, 2.0f32.to_bits());
    assert_eq!(Scalar::zero().bits, 0.0f32.to_bits());
    assert_eq!(DEFAULT_MAX_DT, TIME_UNITS_PER_SECOND / 60);
    assert_eq!(
        TimestepMode::default(),
        TimestepMode::Variable { max_dt: DEFAULT_MAX_DT, time_scale: TimeScale::one(), substeps: 1 }
    );
}

#[test]
fn interaction_groups_follow_the_mask_rule() {
    let a = FluidInteractionGroups::new(Group::new(0b01), Group::new(0b10));
    let b = FluidInteractionGroups::new(Group::new(0b10), Group::new(0b01));
    let c = FluidInteractionGroups::new(Group::new(0b01), Group::new(0b01));
    assert!(a.allows_interaction(b));
    assert!(b.allows_interaction(a));
    assert!(!a.allows_interaction(c));
    assert!(!c.allows_interaction(a));
    assert!(FluidInteractionGroups::default().allows_interaction(a));
    assert_eq!(Group::group(5).bits(), 1 << 4);
    assert_eq!(Group::all().bits(), u32::MAX);
    assert_eq!(Group::none().bits(), 0);
    assert_eq!(Group::new(0b01).union(Group::new(0b10)).bits(), 0b11);
}

#[test]
fn time_scale_is_exact_integer_arithmetic() {
    assert_eq!(TimeScale::one().apply(DELTA_02), DELTA_02);
    assert_eq!(TimeScale::new(1, 2).apply(DELTA_02), DELTA_02 / 2);
    assert_eq!(TimeScale::new(3, 2).apply(100), 150);
    assert_eq!(TimeScale::new(1, 3).apply(100), 33);
    assert_eq!(TimeScale::new(0, 1).apply(100), 0);
}
