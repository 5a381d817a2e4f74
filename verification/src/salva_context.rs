//! A simulation context: one independent fluid-simulation domain.
//!
//! A context owns a simulation world and the reverse index from owning
//! entity to fluid handle, and advances its world under a timestep
//! policy.  Several contexts may coexist; each fluid entity belongs to
//! exactly one of them.

use vstd::prelude::*;
use std::collections::HashMap;
use crate::configuration::SimulationToRenderTime;
use crate::configuration::TimestepMode;
use crate::fluid::FluidInteractionGroups;
use crate::fluid::NonPressureForce;
use crate::math::Scalar;
use crate::math::Vect;
use crate::math::copy_vects;
use crate::math::zero_vects;
use crate::world::Advance;
use crate::world::Fluid;
use crate::world::LiquidWorld;

verus! {

broadcast use vstd::std_specs::hash::group_hash_axioms;

/// A back-reference on every fluid or collider entity, naming the
/// context entity responsible for it.
#[derive(Clone, Copy, Debug, PartialEq, Eq, Structural)]
pub struct SalvaContextEntityLink(pub u64);

/// Marker carried by the single context that absorbs entities without
/// an explicit context link.
#[derive(Clone, Copy, Debug, PartialEq, Eq, Structural)]
pub struct DefaultSalvaContext;

/// The smaller of two durations.
pub open spec fn min_time(a: int, b: int) -> int {
    if a <= b {
        a
    } else {
        b
    }
}

/// The length, in time units, of one sub-advance planned by `mode` for
/// a tick whose frame delta is `time_delta`.
pub open spec fn planned_substep(mode: TimestepMode, time_delta: int) -> int {
    match mode {
        TimestepMode::Fixed { dt, substeps } => dt as int / substeps as int,
        TimestepMode::Variable { max_dt, time_scale, substeps } => min_time(
            time_scale.spec_apply(time_delta),
            max_dt as int,
        ) / substeps as int,
        TimestepMode::Interpolated { dt, time_scale, substeps } => time_scale.spec_apply(
            dt as int / substeps as int,
        ),
    }
}

/// How many whole advances the interpolated policy performs when the
/// accumulator starts a tick at `start`: one per outer iteration of
/// `while start > 0 { start -= decrement }`.
pub open spec fn interpolated_whole_advances(start: int, decrement: int) -> int
    recommends
        decrement >= 1,
{
    if start <= 0 {
        0
    } else {
        (start - 1) / decrement + 1
    }
}

/// The amount, in time units, by which the interpolated policy's
/// accumulator shrinks per whole advance: the scaled full timestep.
pub open spec fn interpolated_decrement(mode: TimestepMode) -> int
    recommends
        mode is Interpolated,
{
    match mode {
        TimestepMode::Interpolated { dt, time_scale, substeps } => time_scale.spec_apply(dt as int),
        _ => 0,
    }
}

/// The total number of sub-advances a tick performs under `mode`, given
/// the frame delta and the accumulator value at the start of the tick.
pub open spec fn planned_advances(mode: TimestepMode, time_delta: int, start_diff: int) -> int {
    match mode {
        TimestepMode::Fixed { dt, substeps } => substeps as int,
        TimestepMode::Variable { max_dt, time_scale, substeps } => substeps as int,
        TimestepMode::Interpolated { dt, time_scale, substeps } => interpolated_whole_advances(
            start_diff + time_delta,
            interpolated_decrement(mode),
        ) * substeps as int,
    }
}

/// The accumulator value after a tick under `mode`.  The fixed and
/// variable policies do not use the accumulator.
pub open spec fn diff_after_step(mode: TimestepMode, time_delta: int, start_diff: int) -> int {
    match mode {
        TimestepMode::Fixed { dt, substeps } => start_diff,
        TimestepMode::Variable { max_dt, time_scale, substeps } => start_diff,
        TimestepMode::Interpolated { dt, time_scale, substeps } => start_diff + time_delta
            - interpolated_whole_advances(start_diff + time_delta, interpolated_decrement(mode))
            * interpolated_decrement(mode),
    }
}

/// What a stepping call must be given: a well-formed mode, a
/// non-negative frame delta, scaled values within the time range, and,
/// for the interpolated policy, a positive scaled timestep (otherwise
/// its catch-up loop would never terminate) and room to accumulate the
/// frame delta.
pub open spec fn step_inputs_ok(mode: TimestepMode, time_delta: int, start_diff: int) -> bool {
    &&& mode.wf()
    &&& 0 <= time_delta
    &&& match mode {
        TimestepMode::Fixed { dt, substeps } => true,
        TimestepMode::Variable { max_dt, time_scale, substeps } => time_scale.spec_apply(
            time_delta,
        ) <= i64::MAX,
        TimestepMode::Interpolated { dt, time_scale, substeps } => {
            &&& 1 <= time_scale.spec_apply(dt as int) <= i64::MAX
            &&& start_diff + time_delta <= i64::MAX
        },
    }
}

/// Relates a context and its accumulator across one stepping call: the
/// registered objects and the reverse index are untouched, the planned
/// sub-advances are appended to the world's trace under the given
/// gravity, and the accumulator moves as the policy dictates.
pub open spec fn stepped(
    prev: SalvaContext,
    next: SalvaContext,
    time_delta: int,
    gravity: Vect,
    mode: TimestepMode,
    prev_diff: int,
    next_diff: int,
    coupled: bool,
) -> bool {
    &&& next.entity2fluid@ == prev.entity2fluid@
    &&& prev.liquid_world.same_objects(next.liquid_world)
    &&& next.liquid_world.advances@ == prev.liquid_world.advances@ + Seq::new(
        planned_advances(mode, time_delta, prev_diff) as nat,
        |i: int| (Advance { dt: planned_substep(mode, time_delta) as i64, gravity, coupled }),
    )
    &&& next_diff == diff_after_step(mode, time_delta, prev_diff)
}

/// Relates a context across [`SalvaContext::init_fluid`]: a fresh
/// handle is issued for a new live fluid holding the given particle
/// positions with zero-initialized velocities and accelerations, the
/// given rest density and interaction filter, and the drained pending
/// forces; the reverse index gains the owning entity; nothing else
/// changes.
pub open spec fn initialized_fluid(
    prev: SalvaContext,
    next: SalvaContext,
    entity: u64,
    positions: Seq<Vect>,
    density0: Scalar,
    interaction_groups: FluidInteractionGroups,
    forces: Seq<NonPressureForce>,
    h: usize,
) -> bool {
    &&& h == prev.liquid_world.fluids@.len()
    &&& next.entity2fluid@ == prev.entity2fluid@.insert(entity, h)
    &&& next.liquid_world.fluid_live(h as int)
    &&& next.liquid_world.fluid_at(h as int).positions@ == positions
    &&& next.liquid_world.fluid_at(h as int).velocities@ == zero_vects(positions.len())
    &&& next.liquid_world.fluid_at(h as int).accelerations@ == zero_vects(positions.len())
    &&& next.liquid_world.fluid_at(h as int).density0 == density0
    &&& next.liquid_world.fluid_at(h as int).interaction_groups == interaction_groups
    &&& next.liquid_world.fluid_at(h as int).nonpressure_forces@ == forces
    &&& next.liquid_world.fluids@ == prev.liquid_world.fluids@.push(
        Some(next.liquid_world.fluid_at(h as int)),
    )
    &&& prev.liquid_world.same_except_fluids(next.liquid_world)
}

/// Relates a context across [`SalvaContext::remove_entity`]: the
/// entity's index entry is dropped and, when one existed, its fluid's
/// slot is freed; nothing else changes.
pub open spec fn removed_entity(
    prev: SalvaContext,
    next: SalvaContext,
    entity: u64,
    r: Option<usize>,
) -> bool {
    &&& next.entity2fluid@ == prev.entity2fluid@.remove(entity)
    &&& (r is Some <==> prev.entity2fluid@.contains_key(entity))
    &&& r is Some ==> {
        &&& r->0 == prev.entity2fluid@[entity]
        &&& next.liquid_world.fluids@ == prev.liquid_world.fluids@.update(r->0 as int, None)
    }
    &&& r is None ==> next.liquid_world.fluids@ == prev.liquid_world.fluids@
    &&& prev.liquid_world.same_except_fluids(next.liquid_world)
}

/// Relates a context across an append-forces edit on the fluid with
/// handle `h`: the given forces land at the end of that fluid's force
/// list; nothing else changes.
pub open spec fn forces_appended(
    prev: SalvaContext,
    next: SalvaContext,
    h: usize,
    appends: Seq<NonPressureForce>,
) -> bool {
    &&& next.entity2fluid@ == prev.entity2fluid@
    &&& prev.liquid_world.same_except_fluids(next.liquid_world)
    &&& prev.liquid_world.fluids_same_except(next.liquid_world, h as int)
    &&& next.liquid_world.fluid_live(h as int)
    &&& next.liquid_world.fluid_at(h as int).nonpressure_forces@ == prev.liquid_world.fluid_at(
        h as int,
    ).nonpressure_forces@ + appends
    &&& crate::world::fluid_same_except_forces(
        prev.liquid_world.fluid_at(h as int),
        next.liquid_world.fluid_at(h as int),
    )
}

/// Relates a context across a remove-forces-at edit on the fluid with
/// handle `h`: the fluid's force list shrinks per
/// [`crate::world::remove_at_indices`]; nothing else changes.
pub open spec fn forces_removed_at(
    prev: SalvaContext,
    next: SalvaContext,
    h: usize,
    indices: Seq<usize>,
) -> bool {
    &&& next.entity2fluid@ == prev.entity2fluid@
    &&& prev.liquid_world.same_except_fluids(next.liquid_world)
    &&& prev.liquid_world.fluids_same_except(next.liquid_world, h as int)
    &&& next.liquid_world.fluid_live(h as int)
    &&& next.liquid_world.fluid_at(h as int).nonpressure_forces@
        == crate::world::remove_at_indices(
        prev.liquid_world.fluid_at(h as int).nonpressure_forces@,
        indices,
    )
    &&& crate::world::fluid_same_except_forces(
        prev.liquid_world.fluid_at(h as int),
        next.liquid_world.fluid_at(h as int),
    )
}

/// Relates a context across a positions edit on the fluid with handle
/// `h`: the positions are overwritten one-to-one, the velocities and
/// accelerations are reset to zero vectors of matching length, and
/// nothing else changes.
pub open spec fn positions_edited(
    prev: SalvaContext,
    next: SalvaContext,
    h: usize,
    positions: Seq<Vect>,
) -> bool {
    &&& next.entity2fluid@ == prev.entity2fluid@
    &&& prev.liquid_world.same_except_fluids(next.liquid_world)
    &&& prev.liquid_world.fluids_same_except(next.liquid_world, h as int)
    &&& next.liquid_world.fluid_live(h as int)
    &&& next.liquid_world.fluid_at(h as int).positions@ == positions
    &&& next.liquid_world.fluid_at(h as int).velocities@ == zero_vects(positions.len())
    &&& next.liquid_world.fluid_at(h as int).accelerations@ == zero_vects(positions.len())
    &&& next.liquid_world.fluid_at(h as int).density0 == prev.liquid_world.fluid_at(
        h as int,
    ).density0
    &&& next.liquid_world.fluid_at(h as int).interaction_groups == prev.liquid_world.fluid_at(
        h as int,
    ).interaction_groups
    &&& next.liquid_world.fluid_at(h as int).nonpressure_forces@ == prev.liquid_world.fluid_at(
        h as int,
    ).nonpressure_forces@
}

/// Relates a context across a velocities edit on the fluid with handle
/// `h`: the velocities are overwritten when the given list matches the
/// particle count and reset to zero vectors otherwise; nothing else
/// changes.
pub open spec fn velocities_edited(
    prev: SalvaContext,
    next: SalvaContext,
    h: usize,
    velocities: Seq<Vect>,
) -> bool {
    &&& next.entity2fluid@ == prev.entity2fluid@
    &&& prev.liquid_world.same_except_fluids(next.liquid_world)
    &&& prev.liquid_world.fluids_same_except(next.liquid_world, h as int)
    &&& next.liquid_world.fluid_live(h as int)
    &&& next.liquid_world.fluid_at(h as int).velocities@ == (if velocities.len()
        == prev.liquid_world.fluid_at(h as int).positions@.len() {
        velocities
    } else {
        zero_vects(prev.liquid_world.fluid_at(h as int).positions@.len())
    })
    &&& next.liquid_world.fluid_at(h as int).positions@ == prev.liquid_world.fluid_at(
        h as int,
    ).positions@
    &&& next.liquid_world.fluid_at(h as int).accelerations@ == prev.liquid_world.fluid_at(
        h as int,
    ).accelerations@
    &&& next.liquid_world.fluid_at(h as int).density0 == prev.liquid_world.fluid_at(
        h as int,
    ).density0
    &&& next.liquid_world.fluid_at(h as int).interaction_groups == prev.liquid_world.fluid_at(
        h as int,
    ).interaction_groups
    &&& next.liquid_world.fluid_at(h as int).nonpressure_forces@ == prev.liquid_world.fluid_at(
        h as int,
    ).nonpressure_forces@
}

/// Relates a context across an accelerations edit on the fluid with
/// handle `h`: the accelerations are overwritten when the given list
/// matches the particle count and reset to zero vectors otherwise;
/// nothing else changes.
pub open spec fn accelerations_edited(
    prev: SalvaContext,
    next: SalvaContext,
    h: usize,
    accelerations: Seq<Vect>,
) -> bool {
    &&& next.entity2fluid@ == prev.entity2fluid@
    &&& prev.liquid_world.same_except_fluids(next.liquid_world)
    &&& prev.liquid_world.fluids_same_except(next.liquid_world, h as int)
    &&& next.liquid_world.fluid_live(h as int)
    &&& next.liquid_world.fluid_at(h as int).accelerations@ == (if accelerations.len()
        == prev.liquid_world.fluid_at(h as int).positions@.len() {
        accelerations
    } else {
        zero_vects(prev.liquid_world.fluid_at(h as int).positions@.len())
    })
    &&& next.liquid_world.fluid_at(h as int).positions@ == prev.liquid_world.fluid_at(
        h as int,
    ).positions@
    &&& next.liquid_world.fluid_at(h as int).velocities@ == prev.liquid_world.fluid_at(
        h as int,
    ).velocities@
    &&& next.liquid_world.fluid_at(h as int).density0 == prev.liquid_world.fluid_at(
        h as int,
    ).density0
    &&& next.liquid_world.fluid_at(h as int).interaction_groups == prev.liquid_world.fluid_at(
        h as int,
    ).interaction_groups
    &&& next.liquid_world.fluid_at(h as int).nonpressure_forces@ == prev.liquid_world.fluid_at(
        h as int,
    ).nonpressure_forces@
}

/// One independent fluid-simulation domain: a simulation world plus the
/// reverse index from owning entity to fluid handle.
#[derive(Debug)]
pub struct SalvaContext {
    /// The simulation world owned by this context.
    pub liquid_world: LiquidWorld,
    /// Reverse index: owning entity to fluid handle.  Keys are unique
    /// by construction; values name live fluids and never collide.
    pub entity2fluid: HashMap<u64, usize>,
}

impl SalvaContext {
    /// The world is well-formed, every indexed handle names a live
    /// fluid, and no two entities share a handle.
    pub open spec fn wf(self) -> bool {
        &&& self.liquid_world.wf()
        &&& forall|e: u64| #[trigger]
            self.entity2fluid@.contains_key(e) ==> self.liquid_world.fluid_live(
                self.entity2fluid@[e] as int,
            )
        &&& forall|e1: u64, e2: u64|
            #![trigger self.entity2fluid@[e1], self.entity2fluid@[e2]]
            self.entity2fluid@.contains_key(e1) && self.entity2fluid@.contains_key(e2)
                && self.entity2fluid@[e1] == self.entity2fluid@[e2] ==> e1 == e2
    }

    /// A context with an empty world created from the given particle
    /// radius and smoothing factor.
    pub fn new(particle_radius: Scalar, smoothing_factor: Scalar) -> (r: SalvaContext)
        ensures
            r.wf(),
            r.liquid_world.particle_radius == particle_radius,
            r.liquid_world.smoothing_factor == smoothing_factor,
            r.liquid_world.fluids@.len() == 0,
            r.liquid_world.boundaries@.len() == 0,
            r.liquid_world.advances@.len() == 0,
            r.entity2fluid@ == Map::<u64, usize>::empty(),
    {
        SalvaContext {
            liquid_world: LiquidWorld::new(particle_radius, smoothing_factor),
            entity2fluid: HashMap::new(),
        }
    }

    /// The fluid handle registered for `entity`, if any.
    pub fn fluid_handle_of(&self, entity: u64) -> (r: Option<usize>)
        ensures
            r is Some <==> self.entity2fluid@.contains_key(entity),
            r is Some ==> r->0 == self.entity2fluid@[entity],
    {
        match self.entity2fluid.get(&entity) {
            Some(h) => Some(*h),
            None => None,
        }
    }

    /// Creates a live fluid for `entity`: the given particle positions
    /// with zero-initialized velocities and accelerations, the given
    /// rest density and interaction filter, and any pending non-pressure
    /// forces drained into the new fluid's force list.  The returned
    /// handle is fresh and the reverse index is updated to it.
    pub fn init_fluid(
        &mut self,
        entity: u64,
        positions: &Vec<Vect>,
        density0: Scalar,
        interaction_groups: FluidInteractionGroups,
        nonpressure_forces: &mut Vec<NonPressureForce>,
    ) -> (h: usize)
        requires
            old(self).wf(),
            !old(self).entity2fluid@.contains_key(entity),
        ensures
            final(self).wf(),
            initialized_fluid(
                *old(self),
                *final(self),
                entity,
                positions@,
                density0,
                interaction_groups,
                old(nonpressure_forces)@,
                h,
            ),
            final(nonpressure_forces)@.len() == 0,
    {
        let mut fluid = Fluid::new(copy_vects(positions), density0, interaction_groups);
        fluid.nonpressure_forces.append(nonpressure_forces);
        let h = self.liquid_world.add_fluid(fluid);
        self.entity2fluid.insert(entity, h);
        h
    }

    /// Releases the fluid owned by `entity`, if the reverse index knows
    /// one: the fluid is removed from the world and the index entry is
    /// dropped.  Returns the released handle.  A no-op when the entity
    /// is not indexed.
    pub fn remove_entity(&mut self, entity: u64) -> (r: Option<usize>)
        requires
            old(self).wf(),
        ensures
            final(self).wf(),
            removed_entity(*old(self), *final(self), entity, r),
            !final(self).entity2fluid@.contains_key(entity),
    {
        match self.entity2fluid.remove(&entity) {
            Some(h) => {
                self.liquid_world.remove_fluid(h);
                Some(h)
            },
            None => {
                proof {
                    assert(old(self).entity2fluid@.remove(entity) =~= old(self).entity2fluid@);
                }
                None
            },
        }
    }

    /// Advances this context's world for one tick under the given
    /// policy, passing the context's gravity to every advance.
    pub fn step_simulation(
        &mut self,
        time_delta: i64,
        gravity: Vect,
        timestep_mode: TimestepMode,
        sim_to_render_time: &mut SimulationToRenderTime,
    )
        requires
            old(self).wf(),
            step_inputs_ok(timestep_mode, time_delta as int, old(sim_to_render_time).diff as int),
        ensures
            final(self).wf(),
            stepped(
                *old(self),
                *final(self),
                time_delta as int,
                gravity,
                timestep_mode,
                old(sim_to_render_time).diff as int,
                final(sim_to_render_time).diff as int,
                false,
            ),
    {
        self.step_policy(time_delta, gravity, timestep_mode, sim_to_render_time, false)
    }

    /// Advances this context's world for one tick under the given
    /// policy, threading the rigid-body coupling manager through every
    /// advance so that boundary and rigid-body forces are exchanged in
    /// the same call.
    pub fn step_with_coupling(
        &mut self,
        time_delta: i64,
        gravity: Vect,
        timestep_mode: TimestepMode,
        sim_to_render_time: &mut SimulationToRenderTime,
    )
        requires
            old(self).wf(),
            step_inputs_ok(timestep_mode, time_delta as int, old(sim_to_render_time).diff as int),
        ensures
            final(self).wf(),
            stepped(
                *old(self),
                *final(self),
                time_delta as int,
                gravity,
                timestep_mode,
                old(sim_to_render_time).diff as int,
                final(sim_to_render_time).diff as int,
                true,
            ),
    {
        self.step_policy(time_delta, gravity, timestep_mode, sim_to_render_time, true)
    }

    /// Shared body of the two stepping entry points.
    fn step_policy(
        &mut self,
        time_delta: i64,
        gravity: Vect,
        timestep_mode: TimestepMode,
        sim_to_render_time: &mut SimulationToRenderTime,
        coupled: bool,
    )
        requires
            old(self).wf(),
            step_inputs_ok(timestep_mode, time_delta as int, old(sim_to_render_time).diff as int),
        ensures
            final(self).wf(),
            stepped(
                *old(self),
                *final(self),
                time_delta as int,
                gravity,
                timestep_mode,
                old(sim_to_render_time).diff as int,
                final(sim_to_render_time).diff as int,
                coupled,
            ),
    {
        match timestep_mode {
            TimestepMode::Fixed { dt, substeps } => {
                let substep = ((dt as u64) / (substeps as u64)) as i64;
                self.advance_batch(substep, substeps, gravity, coupled);
                proof {
                    assert(self.liquid_world.advances@ =~= old(self).liquid_world.advances@
                        + Seq::new(
                        planned_advances(timestep_mode, time_delta as int, old(
                            sim_to_render_time,
                        ).diff as int) as nat,
                        |i: int| (Advance {
                            dt: planned_substep(timestep_mode, time_delta as int) as i64,
                            gravity,
                            coupled,
                        }),
                    ));
                }
            },
            TimestepMode::Variable { max_dt, time_scale, substeps } => {
                let scaled = time_scale.apply(time_delta);
                let capped = if scaled <= max_dt {
                    scaled
                } else {
                    max_dt
                };
                let substep = ((capped as u64) / (substeps as u64)) as i64;
                self.advance_batch(substep, substeps, gravity, coupled);
                proof {
                    assert(self.liquid_world.advances@ =~= old(self).liquid_world.advances@
                        + Seq::new(
                        planned_advances(timestep_mode, time_delta as int, old(
                            sim_to_render_time,
                        ).diff as int) as nat,
                        |i: int| (Advance {
                            dt: planned_substep(timestep_mode, time_delta as int) as i64,
                            gravity,
                            coupled,
                        }),
                    ));
                }
            },
            TimestepMode::Interpolated { dt, time_scale, substeps } => {
                let whole = time_scale.apply(dt);
                let part = ((dt as u64) / (substeps as u64)) as i64;
                proof {
                    vstd::arithmetic::div_mod::lemma_div_is_ordered_by_denominator(
                        dt as int,
                        1,
                        substeps as int,
                    );
                    assert(dt as int / 1 == dt as int);
                    vstd::arithmetic::mul::lemma_mul_inequality(
                        dt as int / substeps as int,
                        dt as int,
                        time_scale.num as int,
                    );
                    vstd::arithmetic::div_mod::lemma_div_is_ordered(
                        (dt as int / substeps as int) * time_scale.num as int,
                        dt as int * time_scale.num as int,
                        time_scale.den as int,
                    );
                }
                let substep = time_scale.apply(part);
                sim_to_render_time.diff = sim_to_render_time.diff + time_delta;
                let ghost start = sim_to_render_time.diff as int;
                let ghost planned_total = Seq::new(
                    planned_advances(timestep_mode, time_delta as int, old(
                        sim_to_render_time,
                    ).diff as int) as nat,
                    |i: int| (Advance { dt: substep, gravity, coupled }),
                );
                let ghost mut k: int = 0;
                let ghost trace0 = self.liquid_world.advances@;
                while sim_to_render_time.diff > 0
                    invariant
                        self.wf(),
                        old(self).entity2fluid@ == self.entity2fluid@,
                        old(self).liquid_world.same_objects(self.liquid_world),
                        whole == interpolated_decrement(timestep_mode),
                        1 <= whole <= i64::MAX,
                        0 <= k,
                        sim_to_render_time.diff as int == start - k * whole,
                        k == 0 ==> sim_to_render_time.diff as int == start,
                        k > 0 ==> start - (k - 1) * whole > 0,
                        self.liquid_world.advances@ == trace0 + Seq::new(
                            (k * substeps as int) as nat,
                            |i: int| (Advance { dt: substep, gravity, coupled }),
                        ),
                        substeps >= 1,
                    decreases
                            (if sim_to_render_time.diff > 0 {
                                sim_to_render_time.diff as int
                            } else {
                                0
                            }),
                {
                    let ghost k_old = k;
                    self.advance_batch(substep, substeps, gravity, coupled);
                    proof {
                        k = k + 1;
                        assert(k * substeps as int == k_old * substeps as int + substeps as int)
                            by (nonlinear_arith)
                            requires
                                k == k_old + 1,
                        ;
                        assert(k * whole == k_old * whole + whole) by (nonlinear_arith)
                            requires
                                k == k_old + 1,
                        ;
                        assert(self.liquid_world.advances@ =~= trace0 + Seq::new(
                            (k * substeps as int) as nat,
                            |i: int| (Advance { dt: substep, gravity, coupled }),
                        ));
                    }
                    sim_to_render_time.diff = sim_to_render_time.diff - whole;
                }
                proof {
                    let n = interpolated_whole_advances(start, whole as int);
                    if k == 0 {
                        assert(n == 0);
                    } else {
                        let r = start - 1 - (k - 1) * whole;
                        assert(start - k * whole <= 0);
                        assert(k * whole == (k - 1) * whole + whole) by (nonlinear_arith);
                        assert(0 <= r < whole);
                        vstd::arithmetic::div_mod::lemma_fundamental_div_mod_converse(
                            start - 1,
                            whole as int,
                            k - 1,
                            r,
                        );
                        assert(n == k);
                    }
                    assert(planned_total =~= Seq::new(
                        (k * substeps as int) as nat,
                        |i: int| (Advance { dt: substep, gravity, coupled }),
                    ));
                }
            },
        }
    }

    /// Hands `substeps` consecutive advances of `substep` time units
    /// each to the world.
    fn advance_batch(&mut self, substep: i64, substeps: usize, gravity: Vect, coupled: bool)
        requires
            old(self).wf(),
        ensures
            final(self).wf(),
            final(self).entity2fluid@ == old(self).entity2fluid@,
            old(self).liquid_world.same_objects(final(self).liquid_world),
            final(self).liquid_world.advances@ == old(self).liquid_world.advances@ + Seq::new(
                substeps as nat,
                |i: int| (Advance { dt: substep, gravity, coupled }),
            ),
    {
        let ghost trace0 = self.liquid_world.advances@;
        let mut j: usize = 0;
        while j < substeps
            invariant
                j <= substeps,
                self.wf(),
                old(self).entity2fluid@ == self.entity2fluid@,
                old(self).liquid_world.same_objects(self.liquid_world),
                self.liquid_world.advances@ == trace0 + Seq::new(
                    j as nat,
                    |i: int| (Advance { dt: substep, gravity, coupled }),
                ),
            decreases substeps - j,
        {
            self.liquid_world.step(substep, gravity, coupled);
            proof {
                assert(self.liquid_world.advances@ =~= trace0 + Seq::new(
                    (j + 1) as nat,
                    |i: int| (Advance { dt: substep, gravity, coupled }),
                ));
            }
            j = j + 1;
        }
    }
}

/// Law: a fluid created from `n` particle positions starts live with
/// position, velocity and acceleration lists all of length `n`, and the
/// velocities and accelerations zero-initialized.
pub proof fn lemma_new_fluid_kinematics(
    prev: SalvaContext,
    next: SalvaContext,
    entity: u64,
    positions: Seq<Vect>,
    density0: Scalar,
    interaction_groups: FluidInteractionGroups,
    forces: Seq<NonPressureForce>,
    h: usize,
)
    requires
        initialized_fluid(prev, next, entity, positions, density0, interaction_groups, forces, h),
    ensures
        next.liquid_world.fluid_live(h as int),
        next.liquid_world.fluid_at(h as int).positions@.len() == positions.len(),
        next.liquid_world.fluid_at(h as int).velocities@.len() == positions.len(),
        next.liquid_world.fluid_at(h as int).accelerations@.len() == positions.len(),
        forall|i: int|
            0 <= i < positions.len() ==> #[trigger] next.liquid_world.fluid_at(
                h as int,
            ).velocities@[i] == Vect::spec_zero(),
        forall|i: int|
            0 <= i < positions.len() ==> #[trigger] next.liquid_world.fluid_at(
                h as int,
            ).accelerations@[i] == Vect::spec_zero(),
{
}

/// Law: stepping a context hands advances to the solver but does not
/// touch the particle state stored for any fluid, so positions written
/// before a tick read back unchanged until the solver's own results are
/// installed.
pub proof fn lemma_step_preserves_fluid_state(
    prev: SalvaContext,
    next: SalvaContext,
    time_delta: int,
    gravity: Vect,
    mode: TimestepMode,
    prev_diff: int,
    next_diff: int,
    coupled: bool,
    h: usize,
)
    requires
        stepped(prev, next, time_delta, gravity, mode, prev_diff, next_diff, coupled),
        prev.liquid_world.fluid_live(h as int),
    ensures
        next.liquid_world.fluid_live(h as int),
        next.liquid_world.fluid_at(h as int) == prev.liquid_world.fluid_at(h as int),
        next.entity2fluid@ == prev.entity2fluid@,
{
}

/// A stepping call preserves a context's well-formedness: the reverse
/// index and the registered objects are untouched.
pub proof fn lemma_stepped_preserves_wf(
    prev: SalvaContext,
    next: SalvaContext,
    time_delta: int,
    gravity: Vect,
    mode: TimestepMode,
    prev_diff: int,
    next_diff: int,
    coupled: bool,
)
    requires
        prev.wf(),
        stepped(prev, next, time_delta, gravity, mode, prev_diff, next_diff, coupled),
    ensures
        next.wf(),
{
}

/// Law: removing an entity's fluid and then re-initializing the entity
/// issues a handle distinct from the released one, and the released
/// handle is no longer present in the context's reverse index.
pub proof fn lemma_reinit_creates_distinct_handle(
    c0: SalvaContext,
    c1: SalvaContext,
    c2: SalvaContext,
    entity: u64,
    released: Option<usize>,
    positions: Seq<Vect>,
    density0: Scalar,
    interaction_groups: FluidInteractionGroups,
    forces: Seq<NonPressureForce>,
    new_h: usize,
)
    requires
        c0.wf(),
        c0.entity2fluid@.contains_key(entity),
        removed_entity(c0, c1, entity, released),
        initialized_fluid(
            c1,
            c2,
            entity,
            positions,
            density0,
            interaction_groups,
            forces,
            new_h,
        ),
    ensures
        released is Some,
        new_h != released->0,
        !c1.entity2fluid@.contains_key(entity),
        c2.entity2fluid@.contains_key(entity),
        c2.entity2fluid@[entity] == new_h,
        forall|e: u64| #[trigger]
            c1.entity2fluid@.contains_key(e) ==> c1.entity2fluid@[e] != released->0,
{
    let old_h = c0.entity2fluid@[entity];
    assert(c0.liquid_world.fluid_live(old_h as int));
    assert(c1.liquid_world.fluids@.len() == c0.liquid_world.fluids@.len());
    assert(new_h == c1.liquid_world.fluids@.len());
    assert(forall|e: u64| #[trigger]
        c1.entity2fluid@.contains_key(e) ==> c1.entity2fluid@[e] != released->0) by {
        assert forall|e: u64| #[trigger] c1.entity2fluid@.contains_key(e) implies c1.entity2fluid@[e]
            != released->0 by {
            assert(c0.entity2fluid@.contains_key(e));
            assert(c0.entity2fluid@[e] == c1.entity2fluid@[e]);
            assert(e != entity);
        }
    }
}

} // verus!
