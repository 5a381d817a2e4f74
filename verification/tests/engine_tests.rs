use salva_plugin::configuration::SalvaConfiguration;
use salva_plugin::configuration::TimestepMode;
use salva_plugin::engine::ContextResolutionError;
use salva_plugin::engine::FluidsEngine;
use salva_plugin::engine::SalvaContextInitialization;
use salva_plugin::fluid::FluidDensity;
use salva_plugin::fluid::FluidParticlePositions;
use salva_plugin::fluid::FluidVelocities;
use salva_plugin::fluid::NonPressureForce;
use salva_plugin::math::Scalar;
use salva_plugin::math::Vect;
use salva_plugin::rapier_integration::ColliderSampling;
use salva_plugin::rapier_integration::SampleColliderError;
use salva_plugin::salva_context::SalvaContextEntityLink;

fn scalar(v: f32) -> Scalar {
    Scalar { bits: v.to_bits() }
}

fn vect(x: f32, y: f32, z: f32) -> Vect {
    Vect { x: scalar(x), y: scalar(y), z: scalar(z) }
}

fn default_init() -> SalvaContextInitialization {
    SalvaContextInitialization::InitializeDefaultSalvaContext {
        particle_radius: scalar(0.05),
        smoothing_factor: scalar(2.0),
    }
}

const CTX: u64 = 1;

fn engine_with_default_context() -> FluidsEngine {
    let mut engine = FluidsEngine::new();
    let created = engine.insert_default_world(
        &default_init(),
        CTX,
        SalvaConfiguration::default(),
        TimestepMode::default(),
    );
    assert!(created);
    engine
}

fn three_positions() -> FluidParticlePositions {
    FluidParticlePositions {
        positions: vec![vect(0.0, 0.0, 0.0), vect(0.1, 0.0, 0.0), vect(0.2, 0.0, 0.0)],
    }
}

#[test]
fn init_fluid_zero_kinematics() {
    let mut engine = engine_with_default_context();
    let mut forces: Vec<NonPressureForce> = Vec::new();
    let out = engine
        .init_fluid(7, None, &three_positions(), None, None, &mut forces)
        .unwrap();
    assert_eq!(out.context_entity, CTX);
    assert!(out.link_inferred);

    let link = SalvaContextEntityLink(out.context_entity);
    let (positions, velocities, accelerations) =
        engine.writeback_fluid(link, out.handle, false).unwrap();
    assert_eq!(positions.len(), 3);
    assert_eq!(velocities.len(), 3);
    assert_eq!(accelerations.len(), 3);
    for v in velocities.iter().chain(accelerations.iter()) {
        assert_eq!(*v, vect(0.0, 0.0, 0.0));
    }
    assert_eq!(positions[1], vect(0.1, 0.0, 0.0));
}

#[test]
fn init_fluid_takes_density_and_pending_forces() {
    let mut engine = engine_with_default_context();
    let mut forces = vec![NonPressureForce { id: 41 }, NonPressureForce { id: 42 }];
    let density = FluidDensity { density0: scalar(800.0) };
    let out = engine
        .init_fluid(7, None, &three_positions(), Some(&density), None, &mut forces)
        .unwrap();
    assert!(forces.is_empty());
    let fluid = engine.contexts[0].context.liquid_world.fluids[out.handle.0]
        .as_ref()
        .unwrap();
    assert_eq!(fluid.density0, scalar(800.0));
    assert_eq!(fluid.nonpressure_forces.len(), 2);
    assert_eq!(fluid.nonpressure_forces[0].id, 41);
}

#[test]
fn init_fluid_without_default_context_is_skipped() {
    let mut engine = FluidsEngine::new();
    let mut forces: Vec<NonPressureForce> = Vec::new();
    let r = engine.init_fluid(7, None, &three_positions(), None, None, &mut forces);
    assert_eq!(r, Err(ContextResolutionError::NoDefaultContext));
}

#[test]
fn init_fluid_with_dangling_link_is_skipped() {
    let mut engine = engine_with_default_context();
    let mut forces: Vec<NonPressureForce> = Vec::new();
    let r = engine.init_fluid(
        7,
        Some(SalvaContextEntityLink(99)),
        &three_positions(),
        None,
        None,
        &mut forces,
    );
    assert_eq!(r, Err(ContextResolutionError::MissingContext));
}

#[test]
fn two_default_contexts_block_resolution() {
    let mut engine = engine_with_default_context();
    engine.insert_default_world(
        &default_init(),
        CTX + 1,
        SalvaConfiguration::default(),
        TimestepMode::default(),
    );
    let mut forces: Vec<NonPressureForce> = Vec::new();
    let r = engine.init_fluid(7, None, &three_positions(), None, None, &mut forces);
    assert_eq!(r, Err(ContextResolutionError::NoDefaultContext));
}

#[test]
fn reinit_creates_distinct_handle() {
    let mut engine = engine_with_default_context();
    let mut forces: Vec<NonPressureForce> = Vec::new();
    let first = engine
        .init_fluid(7, None, &three_positions(), None, None, &mut forces)
        .unwrap();

    let removed = engine.sync_removal(7).unwrap();
    assert_eq!(removed, (CTX, first.handle.0));

    let second = engine
        .init_fluid(7, None, &three_positions(), None, None, &mut forces)
        .unwrap();
    assert_ne!(second.handle.0, first.handle.0);
    assert_eq!(
        engine.contexts[0].context.fluid_handle_of(7),
        Some(second.handle.0)
    );
    assert!(engine.contexts[0].context.liquid_world.fluids[first.handle.0].is_none());
}

#[test]
fn sync_removal_of_unknown_entity_is_noop() {
    let mut engine = engine_with_default_context();
    assert_eq!(engine.sync_removal(1234), None);
}

#[test]
fn remove_forces_at_index_zero() {
    let mut engine = engine_with_default_context();
    let mut forces = vec![NonPressureForce { id: 10 }, NonPressureForce { id: 20 }];
    let out = engine
        .init_fluid(7, None, &three_positions(), None, None, &mut forces)
        .unwrap();
    let link = SalvaContextEntityLink(out.context_entity);

    let mut removals: Vec<usize> = vec![0];
    assert!(engine.apply_remove_forces_at(link, out.handle, &mut removals));
    assert!(removals.is_empty());

    let fluid = engine.contexts[0].context.liquid_world.fluids[out.handle.0]
        .as_ref()
        .unwrap();
    assert_eq!(fluid.nonpressure_forces.len(), 1);
    assert_eq!(fluid.nonpressure_forces[0].id, 20);
}

#[test]
fn remove_forces_applies_against_shrinking_list() {
    let mut engine = engine_with_default_context();
    let mut forces = vec![
        NonPressureForce { id: 1 },
        NonPressureForce { id: 2 },
        NonPressureForce { id: 3 },
    ];
    let out = engine
        .init_fluid(7, None, &three_positions(), None, None, &mut forces)
        .unwrap();
    let link = SalvaContextEntityLink(out.context_entity);

    // Index zero removes force 1; index one then names force 3 in the
    // shrunk list [2, 3].
    let mut removals: Vec<usize> = vec![0, 1];
    assert!(engine.apply_remove_forces_at(link, out.handle, &mut removals));
    let fluid = engine.contexts[0].context.liquid_world.fluids[out.handle.0]
        .as_ref()
        .unwrap();
    assert_eq!(fluid.nonpressure_forces.len(), 1);
    assert_eq!(fluid.nonpressure_forces[0].id, 2);
}

#[test]
fn remove_forces_skips_out_of_range_index() {
    let mut engine = engine_with_default_context();
    let mut forces = vec![NonPressureForce { id: 10 }, NonPressureForce { id: 20 }];
    let out = engine
        .init_fluid(7, None, &three_positions(), None, None, &mut forces)
        .unwrap();
    let link = SalvaContextEntityLink(out.context_entity);

    let mut removals: Vec<usize> = vec![5, 1];
    assert!(engine.apply_remove_forces_at(link, out.handle, &mut removals));
    let fluid = engine.contexts[0].context.liquid_world.fluids[out.handle.0]
        .as_ref()
        .unwrap();
    assert_eq!(fluid.nonpressure_forces.len(), 1);
    assert_eq!(fluid.nonpressure_forces[0].id, 10);
}

#[test]
fn append_forces_drains_command() {
    let mut engine = engine_with_default_context();
    let mut forces: Vec<NonPressureForce> = Vec::new();
    let out = engine
        .init_fluid(7, None, &three_positions(), None, None, &mut forces)
        .unwrap();
    let link = SalvaContextEntityLink(out.context_entity);

    let mut appends = vec![NonPressureForce { id: 77 }];
    assert!(engine.apply_append_forces(link, out.handle, &mut appends));
    assert!(appends.is_empty());
    let fluid = engine.contexts[0].context.liquid_world.fluids[out.handle.0]
        .as_ref()
        .unwrap();
    assert_eq!(fluid.nonpressure_forces.len(), 1);
    assert_eq!(fluid.nonpressure_forces[0].id, 77);
}

#[test]
fn positions_edit_resets_kinematics() {
    let mut engine = engine_with_default_context();
    let mut forces: Vec<NonPressureForce> = Vec::new();
    let out = engine
        .init_fluid(7, None, &three_positions(), None, None, &mut forces)
        .unwrap();
    let link = SalvaContextEntityLink(out.context_entity);

    // Pretend the solver produced some velocities first.
    engine.contexts[0].context.liquid_world.set_fluid_kinematics(
        out.handle.0,
        three_positions().positions,
        vec![vect(1.0, 0.0, 0.0); 3],
        vec![vect(0.0, 1.0, 0.0); 3],
    );

    let new_positions =
        FluidParticlePositions { positions: vec![vect(5.0, 5.0, 5.0), vect(6.0, 6.0, 6.0)] };
    assert!(engine.apply_positions_edit(link, out.handle, &new_positions));

    let fluid = engine.contexts[0].context.liquid_world.fluids[out.handle.0]
        .as_ref()
        .unwrap();
    assert_eq!(fluid.positions.len(), 2);
    assert_eq!(fluid.positions[0], vect(5.0, 5.0, 5.0));
    assert_eq!(fluid.velocities, vec![vect(0.0, 0.0, 0.0); 2]);
    assert_eq!(fluid.accelerations, vec![vect(0.0, 0.0, 0.0); 2]);
}

#[test]
fn velocity_edit_with_mismatched_length_resets_to_zero() {
    let mut engine = engine_with_default_context();
    let mut forces: Vec<NonPressureForce> = Vec::new();
    let out = engine
        .init_fluid(7, None, &three_positions(), None, None, &mut forces)
        .unwrap();
    let link = SalvaContextEntityLink(out.context_entity);

    let wrong_len = FluidVelocities(vec![vect(1.0, 1.0, 1.0); 2]);
    assert!(engine.apply_velocities_edit(link, out.handle, &wrong_len));
    let fluid = engine.contexts[0].context.liquid_world.fluids[out.handle.0]
        .as_ref()
        .unwrap();
    assert_eq!(fluid.velocities, vec![vect(0.0, 0.0, 0.0); 3]);

    let right_len = FluidVelocities(vec![vect(1.0, 1.0, 1.0); 3]);
    assert!(engine.apply_velocities_edit(link, out.handle, &right_len));
    let fluid = engine.contexts[0].context.liquid_world.fluids[out.handle.0]
        .as_ref()
        .unwrap();
    assert_eq!(fluid.velocities, vec![vect(1.0, 1.0, 1.0); 3]);
}

#[test]
fn edit_on_dead_handle_is_skipped() {
    let mut engine = engine_with_default_context();
    let link = SalvaContextEntityLink(CTX);
    let mut appends = vec![NonPressureForce { id: 1 }];
    let applied = engine.apply_append_forces(
        link,
        salva_plugin::fluid::SalvaFluidHandle(3),
        &mut appends,
    );
    assert!(!applied);
    assert_eq!(appends.len(), 1);
}

#[test]
fn sampling_is_idempotent() {
    let mut engine = engine_with_default_context();
    engine
        .link_default_contexts(&default_init(), 500, vect(0.0, -9.81, 0.0))
        .unwrap();

    let first = engine
        .sample_collider(30, 600, None, None, ColliderSampling::DynamicContactSampling)
        .unwrap();
    let second = engine
        .sample_collider(30, 600, None, None, ColliderSampling::DynamicContactSampling)
        .unwrap();
    assert_eq!(first.boundary_handle, second.boundary_handle);
    assert_eq!(first.context_entity, second.context_entity);
    assert_eq!(engine.contexts[0].context.liquid_world.boundaries.len(), 1);
    assert_eq!(
        engine.contexts[0]
            .coupling
            .as_ref()
            .unwrap()
            .coupling
            .registered
            .len(),
        1
    );
}

#[test]
fn sampling_without_coupling_is_refused() {
    let mut engine = engine_with_default_context();
    let r = engine.sample_collider(30, 600, None, None, ColliderSampling::DynamicContactSampling);
    assert_eq!(r, Err(SampleColliderError::NotCoupled));
    assert_eq!(engine.contexts[0].context.liquid_world.boundaries.len(), 0);
}

#[test]
fn sampling_registers_static_points_and_groups() {
    let mut engine = engine_with_default_context();
    engine
        .link_default_contexts(&default_init(), 500, vect(0.0, -9.81, 0.0))
        .unwrap();

    let groups = salva_plugin::fluid::FluidInteractionGroups::new(
        salva_plugin::fluid::Group::new(0b01),
        salva_plugin::fluid::Group::new(0b10),
    );
    let samples = vec![vect(0.0, 0.0, 0.0), vect(0.05, 0.0, 0.0)];
    let out = engine
        .sample_collider(
            30,
            600,
            None,
            Some(&groups),
            ColliderSampling::StaticSampling(samples),
        )
        .unwrap();
    let boundary = &engine.contexts[0].context.liquid_world.boundaries[out.boundary_handle.0];
    assert_eq!(boundary.interaction_groups, groups);
    assert!(boundary.positions.is_empty());
    let coupling = engine.contexts[0].coupling.as_ref().unwrap();
    assert_eq!(coupling.coupling.registered[0].collider_handle, 600);
    match &coupling.coupling.registered[0].sampling {
        ColliderSampling::StaticSampling(points) => assert_eq!(points.len(), 2),
        ColliderSampling::DynamicContactSampling => panic!("expected static sampling"),
    }
}

#[test]
fn remove_context_releases_the_world() {
    let mut engine = engine_with_default_context();
    let mut forces: Vec<NonPressureForce> = Vec::new();
    engine
        .init_fluid(7, None, &three_positions(), None, None, &mut forces)
        .unwrap();

    assert!(engine.remove_context(CTX));
    assert!(engine.contexts.is_empty());
    assert_eq!(engine.context_position(CTX), None);

    // Removing an unknown context entity is a no-op.
    assert!(!engine.remove_context(CTX));

    // The entity id can then back a fresh context.
    engine.insert_default_world(
        &default_init(),
        CTX,
        SalvaConfiguration::default(),
        TimestepMode::default(),
    );
    assert_eq!(engine.contexts.len(), 1);
    assert_eq!(engine.contexts[0].context.liquid_world.fluids.len(), 0);
}

#[test]
fn link_default_contexts_copies_gravity_and_is_one_shot() {
    let mut engine = engine_with_default_context();
    let rapier_gravity = vect(0.0, -3.7, 0.0);
    let linked = engine
        .link_default_contexts(&default_init(), 500, rapier_gravity)
        .unwrap();
    assert!(linked);
    assert_eq!(engine.contexts[0].config.gravity, rapier_gravity);
    let coupling = engine.contexts[0].coupling.as_ref().unwrap();
    assert_eq!(coupling.rapier_context_entity, 500);
    assert!(coupling.coupling.registered.is_empty());

    // The default context is already coupled now: linking again fails.
    assert!(engine
        .link_default_contexts(&default_init(), 501, rapier_gravity)
        .is_err());

    // Without automatic initialization the whole operation is a no-op.
    let mut other = FluidsEngine::new();
    let r = other.link_default_contexts(
        &SalvaContextInitialization::NoAutomaticSalvaContext,
        500,
        rapier_gravity,
    );
    assert_eq!(r, Ok(false));
}
