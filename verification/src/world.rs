//! Model of the external simulation world.
//!
//! The solver world is an external collaborator that owns fluids and
//! boundaries and advances them in time.  This engine models it by its
//! observable contents: the per-fluid state it was handed, the
//! boundaries registered with it, and the exact trace of advance calls
//! it received.  Numerical results computed by the solver re-enter the
//! model through [`LiquidWorld::set_fluid_kinematics`], so everything
//! the engine decides is verified for every possible solver outcome.
//!
//! Per-particle volumes (derived from the particle radius by the
//! embedder's volume rule) live only with the solver and are not part of
//! the model.

use vstd::prelude::*;
use crate::fluid::FluidInteractionGroups;
use crate::fluid::NonPressureForce;
use crate::math::Scalar;
use crate::math::Vect;
use crate::math::copy_vects;
use crate::math::make_zero_vects;
use crate::math::zero_vects;

verus! {

/// A collection of particles with shared density and non-pressure force
/// set, tracked as one object in a simulation world.
#[derive(Debug)]
pub struct Fluid {
    /// One position per particle.
    pub positions: Vec<Vect>,
    /// One velocity per particle, aligned with the positions.
    pub velocities: Vec<Vect>,
    /// One acceleration per particle, aligned with the positions.
    pub accelerations: Vec<Vect>,
    /// The rest density.
    pub density0: Scalar,
    /// Pairwise interaction filter.
    pub interaction_groups: FluidInteractionGroups,
    /// The attached non-pressure forces, in attachment order.
    pub nonpressure_forces: Vec<NonPressureForce>,
}

impl Fluid {
    /// The velocity and acceleration lists are aligned one-to-one with
    /// the positions.
    pub open spec fn kinematics_aligned(self) -> bool {
        self.velocities@.len() == self.positions@.len() && self.accelerations@.len()
            == self.positions@.len()
    }

    /// A new fluid: the given particle positions with zero-initialized
    /// velocities and accelerations, and no attached forces yet.
    pub fn new(positions: Vec<Vect>, density0: Scalar, interaction_groups: FluidInteractionGroups)
        -> (r: Fluid)
        ensures
            r.positions@ == positions@,
            r.velocities@ == zero_vects(positions@.len()),
            r.accelerations@ == zero_vects(positions@.len()),
            r.density0 == density0,
            r.interaction_groups == interaction_groups,
            r.nonpressure_forces@ == Seq::<NonPressureForce>::empty(),
            r.kinematics_aligned(),
    {
        let n = positions.len();
        Fluid {
            positions,
            velocities: make_zero_vects(n),
            accelerations: make_zero_vects(n),
            density0,
            interaction_groups,
            nonpressure_forces: Vec::new(),
        }
    }
}

/// A solid surface registered with a simulation world, derived from a
/// rigid-body collider.  Its sample points, if any, are in the
/// collider's local space.
#[derive(Debug)]
pub struct Boundary {
    /// Surface sample points; empty for contact-derived sampling.
    pub positions: Vec<Vect>,
    /// Pairwise interaction filter.
    pub interaction_groups: FluidInteractionGroups,
}

/// One recorded advance call handed to the external solver.
#[derive(Clone, Copy, Debug, PartialEq, Eq, Structural)]
pub struct Advance {
    /// Time advanced, in time units.
    pub dt: i64,
    /// Gravity passed for this advance.
    pub gravity: Vect,
    /// Whether the rigid-body coupling manager was threaded through the
    /// call.
    pub coupled: bool,
}

/// Model of one external simulation world: the fluids and boundaries it
/// owns, keyed by handle, and the trace of advances it received.
///
/// A fluid handle is the index of its slot; removed fluids leave an
/// empty slot behind, so a handle is never reused and a fresh handle is
/// distinct from every handle ever issued.  Boundaries are never
/// removed.
#[derive(Debug)]
pub struct LiquidWorld {
    /// The particle radius the world was created with.
    pub particle_radius: Scalar,
    /// The smoothing-length factor the world was created with.
    pub smoothing_factor: Scalar,
    /// Fluid slots, keyed by handle.
    pub fluids: Vec<Option<Fluid>>,
    /// Boundary slots, keyed by handle.
    pub boundaries: Vec<Boundary>,
    /// The trace of advance calls, oldest first.
    pub advances: Vec<Advance>,
}

impl LiquidWorld {
    /// Whether `h` is the handle of a live fluid.
    pub open spec fn fluid_live(self, h: int) -> bool {
        0 <= h < self.fluids@.len() && self.fluids@[h] is Some
    }

    /// The live fluid with handle `h`.
    pub open spec fn fluid_at(self, h: int) -> Fluid
        recommends
            self.fluid_live(h),
    {
        self.fluids@[h]->0
    }

    /// Every live fluid has aligned kinematic lists.
    pub open spec fn wf(self) -> bool {
        forall|h: int| self.fluid_live(h) ==> (#[trigger] self.fluids@[h])->0.kinematics_aligned()
    }

    /// The world's configuration and registered objects are unchanged;
    /// only the advance trace may have grown.
    pub open spec fn same_objects(self, new: LiquidWorld) -> bool {
        &&& new.particle_radius == self.particle_radius
        &&& new.smoothing_factor == self.smoothing_factor
        &&& new.fluids@ == self.fluids@
        &&& new.boundaries@ == self.boundaries@
    }

    /// Everything except the fluid slots is unchanged.
    pub open spec fn same_except_fluids(self, new: LiquidWorld) -> bool {
        &&& new.particle_radius == self.particle_radius
        &&& new.smoothing_factor == self.smoothing_factor
        &&& new.boundaries@ == self.boundaries@
        &&& new.advances@ == self.advances@
    }

    /// The fluid slots agree everywhere except possibly at `h`.
    pub open spec fn fluids_same_except(self, new: LiquidWorld, h: int) -> bool {
        &&& new.fluids@.len() == self.fluids@.len()
        &&& forall|j: int|
            0 <= j < self.fluids@.len() && j != h ==> new.fluids@[j] == #[trigger] self.fluids@[j]
    }

    /// An empty world with the given particle radius and smoothing
    /// factor.
    pub fn new(particle_radius: Scalar, smoothing_factor: Scalar) -> (r: LiquidWorld)
        ensures
            r.particle_radius == particle_radius,
            r.smoothing_factor == smoothing_factor,
            r.fluids@ == Seq::<Option<Fluid>>::empty(),
            r.boundaries@.len() == 0,
            r.advances@.len() == 0,
            r.wf(),
    {
        LiquidWorld {
            particle_radius,
            smoothing_factor,
            fluids: Vec::new(),
            boundaries: Vec::new(),
            advances: Vec::new(),
        }
    }

    /// The particle radius the world was created with.
    pub fn particle_radius(&self) -> (r: Scalar)
        ensures
            r == self.particle_radius,
    {
        self.particle_radius
    }

    /// Registers a fluid and returns its handle.  The handle is fresh:
    /// it is distinct from every handle the world has ever issued.
    pub fn add_fluid(&mut self, fluid: Fluid) -> (h: usize)
        requires
            old(self).wf(),
            fluid.kinematics_aligned(),
        ensures
            h == old(self).fluids@.len(),
            final(self).fluids@ == old(self).fluids@.push(Some(fluid)),
            final(self).fluid_live(h as int),
            final(self).fluid_at(h as int) == fluid,
            old(self).same_except_fluids(*final(self)),
            final(self).wf(),
    {
        let h = self.fluids.len();
        self.fluids.push(Some(fluid));
        h
    }

    /// Releases the fluid with handle `h`, freeing its slot.  The
    /// handle is not reused.
    pub fn remove_fluid(&mut self, h: usize)
        requires
            old(self).wf(),
            old(self).fluid_live(h as int),
        ensures
            final(self).fluids@ == old(self).fluids@.update(h as int, None),
            !final(self).fluid_live(h as int),
            old(self).same_except_fluids(*final(self)),
            old(self).fluids_same_except(*final(self), h as int),
            final(self).wf(),
    {
        self.fluids[h] = None;
    }

    /// Registers a boundary and returns its handle.
    pub fn add_boundary(&mut self, boundary: Boundary) -> (h: usize)
        requires
            old(self).wf(),
        ensures
            h == old(self).boundaries@.len(),
            final(self).boundaries@ == old(self).boundaries@.push(boundary),
            final(self).particle_radius == old(self).particle_radius,
            final(self).smoothing_factor == old(self).smoothing_factor,
            final(self).fluids@ == old(self).fluids@,
            final(self).advances@ == old(self).advances@,
            final(self).wf(),
    {
        let h = self.boundaries.len();
        self.boundaries.push(boundary);
        h
    }

    /// Hands one advance call of `dt` time units under the given
    /// gravity to the external solver, optionally threading the
    /// rigid-body coupling manager through the call.  The registered
    /// objects are untouched; the call is recorded on the trace.
    pub fn step(&mut self, dt: i64, gravity: Vect, coupled: bool)
        requires
            old(self).wf(),
        ensures
            final(self).advances@ == old(self).advances@.push(
                Advance { dt, gravity, coupled },
            ),
            old(self).same_objects(*final(self)),
            final(self).wf(),
    {
        self.advances.push(Advance { dt, gravity, coupled });
    }

    /// Installs the particle state the external solver reports after
    /// stepping.  The solver never changes the particle count of a
    /// fluid, so the lists must match the fluid's current length.
    /// Density, interaction groups and attached forces are unaffected.
    pub fn set_fluid_kinematics(
        &mut self,
        h: usize,
        positions: Vec<Vect>,
        velocities: Vec<Vect>,
        accelerations: Vec<Vect>,
    )
        requires
            old(self).wf(),
            old(self).fluid_live(h as int),
            positions@.len() == old(self).fluid_at(h as int).positions@.len(),
            velocities@.len() == positions@.len(),
            accelerations@.len() == positions@.len(),
        ensures
            final(self).fluid_live(h as int),
            final(self).fluid_at(h as int).positions@ == positions@,
            final(self).fluid_at(h as int).velocities@ == velocities@,
            final(self).fluid_at(h as int).accelerations@ == accelerations@,
            final(self).fluid_at(h as int).density0 == old(self).fluid_at(h as int).density0,
            final(self).fluid_at(h as int).interaction_groups == old(self).fluid_at(
                h as int,
            ).interaction_groups,
            final(self).fluid_at(h as int).nonpressure_forces@ == old(self).fluid_at(
                h as int,
            ).nonpressure_forces@,
            old(self).same_except_fluids(*final(self)),
            old(self).fluids_same_except(*final(self), h as int),
            final(self).wf(),
    {
        let slot = &mut self.fluids[h];
        if let Some(mut f) = slot.take() {
            f.positions = positions;
            f.velocities = velocities;
            f.accelerations = accelerations;
            *slot = Some(f);
        }
    }

    /// Moves the given forces onto the end of the fluid's force list,
    /// draining the source.
    pub fn append_fluid_forces(&mut self, h: usize, appends: &mut Vec<NonPressureForce>)
        requires
            old(self).wf(),
            old(self).fluid_live(h as int),
        ensures
            final(self).fluid_live(h as int),
            final(self).fluid_at(h as int).nonpressure_forces@ == old(self).fluid_at(
                h as int,
            ).nonpressure_forces@ + old(appends)@,
            fluid_same_except_forces(old(self).fluid_at(h as int), final(self).fluid_at(h as int)),
            final(appends)@.len() == 0,
            old(self).same_except_fluids(*final(self)),
            old(self).fluids_same_except(*final(self), h as int),
            final(self).wf(),
    {
        let slot = &mut self.fluids[h];
        if let Some(mut f) = slot.take() {
            f.nonpressure_forces.append(appends);
            *slot = Some(f);
        }
    }
    /// Removes entries of the fluid's force list at the given indices,
    /// draining the index list.  The indices are applied one after the
    /// other against the progressively shrinking list, in the order
    /// given; an index past the end of the current list is skipped.
    pub fn remove_fluid_forces_at(&mut self, h: usize, indices: &mut Vec<usize>)
        requires
            old(self).wf(),
            old(self).fluid_live(h as int),
        ensures
            final(self).fluid_live(h as int),
            final(self).fluid_at(h as int).nonpressure_forces@ == remove_at_indices(
                old(self).fluid_at(h as int).nonpressure_forces@,
                old(indices)@,
            ),
            fluid_same_except_forces(old(self).fluid_at(h as int), final(self).fluid_at(h as int)),
            final(indices)@.len() == 0,
            old(self).same_except_fluids(*final(self)),
            old(self).fluids_same_except(*final(self), h as int),
            final(self).wf(),
    {
        let slot = &mut self.fluids[h];
        if let Some(mut f) = slot.take() {
            let ghost idx0 = indices@;
            let ghost forces0 = f.nonpressure_forces@;
            let ghost f_orig = f;
            proof {
                assert(idx0.subrange(0, idx0.len() as int) =~= idx0);
            }
            let mut k: usize = 0;
            while k < indices.len()
                invariant
                    k <= idx0.len(),
                    indices@ == idx0,
                    remove_at_indices(forces0, idx0) == remove_at_indices(
                        f.nonpressure_forces@,
                        idx0.subrange(k as int, idx0.len() as int),
                    ),
                    fluid_same_except_forces(f_orig, f),
                decreases idx0.len() - k,
            {
                let ghost suffix = idx0.subrange(k as int, idx0.len() as int);
                proof {
                    assert(suffix.drop_first() =~= idx0.subrange(k + 1, idx0.len() as int));
                }
                let i = indices[k];
                if i < f.nonpressure_forces.len() {
                    f.nonpressure_forces.remove(i);
                }
                k = k + 1;
            }
            proof {
                assert(idx0.subrange(idx0.len() as int, idx0.len() as int)
                    =~= Seq::<usize>::empty());
            }
            indices.clear();
            *slot = Some(f);
        }
    }

    /// Overwrites the fluid's particle positions one-to-one and resets
    /// its velocities and accelerations to zero vectors of matching
    /// length, wiping kinematic history.  (The embedder recomputes the
    /// solver-side per-particle volumes from the particle radius when it
    /// applies this edit to the solver.)
    pub fn set_fluid_positions(&mut self, h: usize, positions: &Vec<Vect>)
        requires
            old(self).wf(),
            old(self).fluid_live(h as int),
        ensures
            final(self).fluid_live(h as int),
            final(self).fluid_at(h as int).positions@ == positions@,
            final(self).fluid_at(h as int).velocities@ == zero_vects(positions@.len()),
            final(self).fluid_at(h as int).accelerations@ == zero_vects(positions@.len()),
            final(self).fluid_at(h as int).density0 == old(self).fluid_at(h as int).density0,
            final(self).fluid_at(h as int).interaction_groups == old(self).fluid_at(
                h as int,
            ).interaction_groups,
            final(self).fluid_at(h as int).nonpressure_forces@ == old(self).fluid_at(
                h as int,
            ).nonpressure_forces@,
            old(self).same_except_fluids(*final(self)),
            old(self).fluids_same_except(*final(self), h as int),
            final(self).wf(),
    {
        let slot = &mut self.fluids[h];
        if let Some(mut f) = slot.take() {
            let n = positions.len();
            f.positions = copy_vects(positions);
            f.velocities = make_zero_vects(n);
            f.accelerations = make_zero_vects(n);
            *slot = Some(f);
        }
    }

    /// Overwrites the fluid's particle velocities if the given list
    /// matches the particle count; on a length mismatch the velocities
    /// are reset to zero vectors instead, and no error is raised.
    pub fn set_fluid_velocities(&mut self, h: usize, velocities: &Vec<Vect>)
        requires
            old(self).wf(),
            old(self).fluid_live(h as int),
        ensures
            final(self).fluid_live(h as int),
            final(self).fluid_at(h as int).velocities@ == (if velocities@.len() == old(
                self,
            ).fluid_at(h as int).positions@.len() {
                velocities@
            } else {
                zero_vects(old(self).fluid_at(h as int).positions@.len())
            }),
            final(self).fluid_at(h as int).positions@ == old(self).fluid_at(h as int).positions@,
            final(self).fluid_at(h as int).accelerations@ == old(self).fluid_at(
                h as int,
            ).accelerations@,
            final(self).fluid_at(h as int).density0 == old(self).fluid_at(h as int).density0,
            final(self).fluid_at(h as int).interaction_groups == old(self).fluid_at(
                h as int,
            ).interaction_groups,
            final(self).fluid_at(h as int).nonpressure_forces@ == old(self).fluid_at(
                h as int,
            ).nonpressure_forces@,
            old(self).same_except_fluids(*final(self)),
            old(self).fluids_same_except(*final(self), h as int),
            final(self).wf(),
    {
        let slot = &mut self.fluids[h];
        if let Some(mut f) = slot.take() {
            if velocities.len() == f.positions.len() {
                f.velocities = copy_vects(velocities);
            } else {
                f.velocities = make_zero_vects(f.positions.len());
            }
            *slot = Some(f);
        }
    }

    /// Overwrites the fluid's particle accelerations if the given list
    /// matches the particle count; on a length mismatch the
    /// accelerations are reset to zero vectors instead, and no error is
    /// raised.
    pub fn set_fluid_accelerations(&mut self, h: usize, accelerations: &Vec<Vect>)
        requires
            old(self).wf(),
            old(self).fluid_live(h as int),
        ensures
            final(self).fluid_live(h as int),
            final(self).fluid_at(h as int).accelerations@ == (if accelerations@.len() == old(
                self,
            ).fluid_at(h as int).positions@.len() {
                accelerations@
            } else {
                zero_vects(old(self).fluid_at(h as int).positions@.len())
            }),
            final(self).fluid_at(h as int).positions@ == old(self).fluid_at(h as int).positions@,
            final(self).fluid_at(h as int).velocities@ == old(self).fluid_at(h as int).velocities@,
            final(self).fluid_at(h as int).density0 == old(self).fluid_at(h as int).density0,
            final(self).fluid_at(h as int).interaction_groups == old(self).fluid_at(
                h as int,
            ).interaction_groups,
            final(self).fluid_at(h as int).nonpressure_forces@ == old(self).fluid_at(
                h as int,
            ).nonpressure_forces@,
            old(self).same_except_fluids(*final(self)),
            old(self).fluids_same_except(*final(self), h as int),
            final(self).wf(),
    {
        let slot = &mut self.fluids[h];
        if let Some(mut f) = slot.take() {
            if accelerations.len() == f.positions.len() {
                f.accelerations = copy_vects(accelerations);
            } else {
                f.accelerations = make_zero_vects(f.positions.len());
            }
            *slot = Some(f);
        }
    }

    /// Whether `h` is the handle of a live fluid.
    pub fn fluid_is_live(&self, h: usize) -> (r: bool)
        ensures
            r == self.fluid_live(h as int),
    {
        h < self.fluids.len() && self.fluids[h].is_some()
    }

    /// A copy of the fluid's particle positions.
    pub fn fluid_positions(&self, h: usize) -> (r: Vec<Vect>)
        requires
            self.fluid_live(h as int),
        ensures
            r@ == self.fluid_at(h as int).positions@,
    {
        match &self.fluids[h] {
            Some(f) => copy_vects(&f.positions),
            None => Vec::new(),
        }
    }

    /// A copy of the fluid's particle velocities.
    pub fn fluid_velocities(&self, h: usize) -> (r: Vec<Vect>)
        requires
            self.fluid_live(h as int),
        ensures
            r@ == self.fluid_at(h as int).velocities@,
    {
        match &self.fluids[h] {
            Some(f) => copy_vects(&f.velocities),
            None => Vec::new(),
        }
    }

    /// A copy of the fluid's particle accelerations.
    pub fn fluid_accelerations(&self, h: usize) -> (r: Vec<Vect>)
        requires
            self.fluid_live(h as int),
        ensures
            r@ == self.fluid_at(h as int).accelerations@,
    {
        match &self.fluids[h] {
            Some(f) => copy_vects(&f.accelerations),
            None => Vec::new(),
        }
    }
}

/// The result of removing the entries of `forces` at the given
/// `indices`, applied one after the other against the progressively
/// shrinking list; an index past the end of the current list is
/// skipped.
pub open spec fn remove_at_indices(
    forces: Seq<NonPressureForce>,
    indices: Seq<usize>,
) -> Seq<NonPressureForce>
    decreases indices.len(),
{
    if indices.len() == 0 {
        forces
    } else {
        let i = indices[0] as int;
        if i < forces.len() {
            remove_at_indices(forces.remove(i), indices.drop_first())
        } else {
            remove_at_indices(forces, indices.drop_first())
        }
    }
}

/// Two fluids that agree on everything except their force list.
pub open spec fn fluid_same_except_forces(a: Fluid, b: Fluid) -> bool {
    &&& b.positions@ == a.positions@
    &&& b.velocities@ == a.velocities@
    &&& b.accelerations@ == a.accelerations@
    &&& b.density0 == a.density0
    &&& b.interaction_groups == a.interaction_groups
}

} // verus!
