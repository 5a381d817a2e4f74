//! The multi-context engine: the set of context entities this plugin
//! manages, and the per-tick stages that reconcile component state with
//! each context's simulation world.
//!
//! Stages run in a fixed order within a tick — remove stale fluids,
//! initialize new fluids, apply queued edits, sample new colliders,
//! step, write back — because newly created fluids must exist in the
//! world before stepping, edits must land before stepping, and
//! writeback must follow stepping.

use vstd::prelude::*;
use std::collections::HashMap;
use crate::configuration::SalvaConfiguration;
use crate::configuration::SimulationToRenderTime;
use crate::configuration::TimestepMode;
use crate::fluid::FluidDensity;
use crate::fluid::FluidInteractionGroups;
use crate::fluid::FluidParticlePositions;
use crate::fluid::NonPressureForce;
use crate::fluid::REST_DENSITY_DEFAULT_BITS;
use crate::fluid::SalvaFluidHandle;
use crate::math::Scalar;
use crate::math::Vect;
use crate::rapier_integration::SalvaRapierCoupling;
use crate::salva_context::DefaultSalvaContext;
use crate::salva_context::SalvaContext;
use crate::salva_context::SalvaContextEntityLink;
use crate::fluid::FluidAccelerations;
use crate::fluid::FluidVelocities;
use crate::salva_context::accelerations_edited;
use crate::salva_context::forces_appended;
use crate::salva_context::forces_removed_at;
use crate::salva_context::initialized_fluid;
use crate::salva_context::positions_edited;
use crate::salva_context::removed_entity;
use crate::salva_context::velocities_edited;

verus! {

broadcast use vstd::std_specs::hash::group_hash_axioms;

/// Raw encoding of the default particle radius, five hundredths.
pub const DEFAULT_PARTICLE_RADIUS_BITS: u32 = 0x3D4C_CCCD;

/// Raw encoding of the default smoothing-length factor, two.
pub const DEFAULT_SMOOTHING_FACTOR_BITS: u32 = 0x4000_0000;

/// How the engine sets up its default context at startup.
#[derive(Clone, Copy, Debug, PartialEq, Eq, Structural)]
pub enum SalvaContextInitialization {
    /// Spawn no context automatically; the embedder creates every
    /// context itself.
    NoAutomaticSalvaContext,
    /// Spawn one context automatically at startup, tagged as the
    /// default context.
    InitializeDefaultSalvaContext {
        /// Particle radius for the default context's world.
        particle_radius: Scalar,
        /// Smoothing-length factor for the default context's world.
        smoothing_factor: Scalar,
    },
}

/// Everything carried by one context entity.
#[derive(Debug)]
pub struct SalvaContextBundle {
    /// The context entity's identifier.
    pub entity: u64,
    /// The context itself: world plus reverse index.
    pub context: SalvaContext,
    /// Gravity and activity configuration.
    pub config: SalvaConfiguration,
    /// The timestep policy this context steps under.
    pub timestep_mode: TimestepMode,
    /// Catch-up accumulator for the interpolated policy.
    pub sim_to_render_time: SimulationToRenderTime,
    /// The rigid-body coupling, once the context has been linked to a
    /// rigid-body engine instance.
    pub coupling: Option<SalvaRapierCoupling>,
    /// Present on the single context that absorbs unlinked entities.
    pub default_tag: Option<DefaultSalvaContext>,
}

/// Whether some bundle in `s` belongs to the context entity `entity`.
pub open spec fn has_context(s: Seq<SalvaContextBundle>, entity: u64) -> bool {
    exists|i: int| 0 <= i < s.len() && (#[trigger] s[i]).entity == entity
}

/// The position of the bundle of context entity `entity`.
pub open spec fn ctx_idx(s: Seq<SalvaContextBundle>, entity: u64) -> int {
    choose|i: int| 0 <= i < s.len() && (#[trigger] s[i]).entity == entity
}

/// How many bundles carry the default tag.
pub open spec fn count_defaults(s: Seq<SalvaContextBundle>) -> int
    decreases s.len(),
{
    if s.len() == 0 {
        0
    } else {
        count_defaults(s.drop_last()) + if s.last().default_tag is Some {
            1int
        } else {
            0int
        }
    }
}

/// The bundles of `next` equal those of `prev` everywhere except at
/// `i`, where only the context itself may differ; entity,
/// configuration, policy, accumulator, coupling and tag are kept.
pub open spec fn bundles_same_except_context(
    prev: Seq<SalvaContextBundle>,
    next: Seq<SalvaContextBundle>,
    i: int,
) -> bool {
    &&& next.len() == prev.len()
    &&& 0 <= i < prev.len()
    &&& forall|j: int| 0 <= j < prev.len() && j != i ==> next[j] == #[trigger] prev[j]
    &&& next[i].entity == prev[i].entity
    &&& next[i].config == prev[i].config
    &&& next[i].timestep_mode == prev[i].timestep_mode
    &&& next[i].sim_to_render_time == prev[i].sim_to_render_time
    &&& next[i].coupling == prev[i].coupling
    &&& next[i].default_tag == prev[i].default_tag
}

/// Relates one context bundle across the independent stepping stage:
/// an active independent context steps under its own policy,
/// accumulator and gravity; any other context is untouched.
pub open spec fn ticked_bundle(
    prev: SalvaContextBundle,
    next: SalvaContextBundle,
    time_delta: int,
) -> bool {
    if prev.config.physics_pipeline_active == Some(true) {
        &&& next.entity == prev.entity
        &&& next.config == prev.config
        &&& next.timestep_mode == prev.timestep_mode
        &&& next.coupling == prev.coupling
        &&& next.default_tag == prev.default_tag
        &&& crate::salva_context::stepped(
            prev.context,
            next.context,
            time_delta,
            prev.config.gravity,
            prev.timestep_mode,
            prev.sim_to_render_time.diff as int,
            next.sim_to_render_time.diff as int,
            false,
        )
    } else {
        next == prev
    }
}

/// The rest density a fluid is created with: the component's value, or
/// the default of one thousand when the component is absent.
pub open spec fn density_value(density: Option<&FluidDensity>) -> Scalar {
    match density {
        Some(d) => d.density0,
        None => Scalar { bits: REST_DENSITY_DEFAULT_BITS },
    }
}

/// The interaction filter a fluid is created with: the component's
/// value, or all groups when the component is absent.
pub open spec fn groups_value(groups: Option<&FluidInteractionGroups>) -> FluidInteractionGroups {
    match groups {
        Some(g) => *g,
        None => FluidInteractionGroups {
            memberships: crate::fluid::Group { bits: 0xFFFF_FFFFu32 },
            filters: crate::fluid::Group { bits: 0xFFFF_FFFFu32 },
        },
    }
}

/// A successfully initialized fluid: where it went and under which
/// handle.
#[derive(Clone, Copy, Debug, PartialEq, Eq, Structural)]
pub struct InitializedFluid {
    /// The context entity that took the fluid.
    pub context_entity: u64,
    /// The issued fluid handle.
    pub handle: SalvaFluidHandle,
    /// Whether the context was inferred from the default tag, in which
    /// case the caller should attach the returned link to the entity.
    pub link_inferred: bool,
}

/// Why an entity was skipped this tick.  Skips are non-fatal: the
/// entity is simply retried on a later tick.
#[derive(Clone, Copy, Debug, PartialEq, Eq, Structural)]
pub enum ContextResolutionError {
    /// The entity carries no context link and there is no single
    /// default context to fall back to.
    NoDefaultContext,
    /// The entity's context link names an entity that carries no
    /// context.
    MissingContext,
}

/// The engine: every context entity under this plugin's management,
/// plus the table of colliders already sampled into fluid boundaries.
#[derive(Debug)]
pub struct FluidsEngine {
    /// The managed context entities.
    pub contexts: Vec<SalvaContextBundle>,
    /// Collider entities already sampled, mapped to their owning
    /// context entity and boundary handle.  Sampling is idempotent: a
    /// collider present here is never sampled again.
    pub collider_boundaries: HashMap<u64, (u64, usize)>,
}

impl FluidsEngine {
    /// Context entities are unique, every context is well-formed, and
    /// no fluid entity is indexed by two contexts.
    pub open spec fn wf(self) -> bool {
        &&& forall|i: int, j: int|
            0 <= i < j < self.contexts@.len() ==> (#[trigger] self.contexts@[i]).entity != (
            #[trigger] self.contexts@[j]).entity
        &&& forall|i: int|
            0 <= i < self.contexts@.len() ==> (#[trigger] self.contexts@[i]).context.wf()
        &&& forall|i: int, j: int, e: u64|
            #![trigger self.contexts@[i].context.entity2fluid@.contains_key(e), self.contexts@[j].context.entity2fluid@.contains_key(e)]
            0 <= i < self.contexts@.len() && 0 <= j < self.contexts@.len() && i != j
                && self.contexts@[i].context.entity2fluid@.contains_key(e)
                ==> !self.contexts@[j].context.entity2fluid@.contains_key(e)
    }

    /// Whether any context's reverse index knows `entity`.
    pub open spec fn any_index_contains(self, entity: u64) -> bool {
        exists|i: int|
            0 <= i < self.contexts@.len() && (#[trigger] self.contexts@[i]).context.entity2fluid@
                .contains_key(entity)
    }

    /// An engine with no contexts and no sampled colliders.
    pub fn new() -> (r: FluidsEngine)
        ensures
            r.wf(),
            r.contexts@.len() == 0,
            r.collider_boundaries@ == Map::<u64, (u64, usize)>::empty(),
    {
        FluidsEngine { contexts: Vec::new(), collider_boundaries: HashMap::new() }
    }

    /// The position of the bundle of context entity `entity`, if it is
    /// managed here.
    pub fn context_position(&self, entity: u64) -> (r: Option<usize>)
        ensures
            r is Some <==> has_context(self.contexts@, entity),
            r matches Some(i) ==> 0 <= i < self.contexts@.len() && self.contexts@[i as int].entity
                == entity,
    {
        let mut i: usize = 0;
        while i < self.contexts.len()
            invariant
                i <= self.contexts@.len(),
                forall|j: int| 0 <= j < i ==> (#[trigger] self.contexts@[j]).entity != entity,
            decreases self.contexts@.len() - i,
        {
            if self.contexts[i].entity == entity {
                return Some(i);
            }
            i = i + 1;
        }
        None
    }

    /// The entity of the single default context, when exactly one
    /// context carries the default tag; `None` when zero or several
    /// do.
    pub fn default_context_entity(&self) -> (r: Option<u64>)
        ensures
            r is Some <==> count_defaults(self.contexts@) == 1,
            r matches Some(e) ==> exists|i: int|
                0 <= i < self.contexts@.len() && (#[trigger] self.contexts@[i]).entity == e
                    && self.contexts@[i].default_tag is Some,
    {
        let mut i: usize = 0;
        let mut found: Option<u64> = None;
        let mut count: usize = 0;
        while i < self.contexts.len()
            invariant
                i <= self.contexts@.len(),
                count == count_defaults(self.contexts@.subrange(0, i as int)),
                count <= i,
                count >= 1 ==> (found matches Some(e) && exists|j: int|
                    0 <= j < i && (#[trigger] self.contexts@[j]).entity == e
                        && self.contexts@[j].default_tag is Some),
                count == 0 ==> found is None,
            decreases self.contexts@.len() - i,
        {
            proof {
                assert(self.contexts@.subrange(0, i + 1).drop_last() =~= self.contexts@.subrange(
                    0,
                    i as int,
                ));
                assert(self.contexts@.subrange(0, i + 1).last() == self.contexts@[i as int]);
            }
            if self.contexts[i].default_tag.is_some() {
                count = count + 1;
                if count == 1 {
                    found = Some(self.contexts[i].entity);
                }
            }
            i = i + 1;
        }
        proof {
            assert(self.contexts@.subrange(0, self.contexts@.len() as int) =~= self.contexts@);
        }
        if count == 1 {
            found
        } else {
            None
        }
    }

    /// Spawns a new context entity with an empty world.
    pub fn spawn_context(
        &mut self,
        entity: u64,
        particle_radius: Scalar,
        smoothing_factor: Scalar,
        config: SalvaConfiguration,
        timestep_mode: TimestepMode,
        default_tag: Option<DefaultSalvaContext>,
    )
        requires
            old(self).wf(),
            !has_context(old(self).contexts@, entity),
        ensures
            final(self).wf(),
            final(self).contexts@.len() == old(self).contexts@.len() + 1,
            forall|j: int|
                0 <= j < old(self).contexts@.len() ==> final(self).contexts@[j] == #[trigger] old(
                    self,
                ).contexts@[j],
            final(self).contexts@.last().entity == entity,
            final(self).contexts@.last().config == config,
            final(self).contexts@.last().timestep_mode == timestep_mode,
            final(self).contexts@.last().sim_to_render_time.diff == 0,
            final(self).contexts@.last().coupling is None,
            final(self).contexts@.last().default_tag == default_tag,
            final(self).contexts@.last().context.entity2fluid@ == Map::<u64, usize>::empty(),
            final(self).contexts@.last().context.liquid_world.particle_radius == particle_radius,
            final(self).contexts@.last().context.liquid_world.smoothing_factor == smoothing_factor,
            final(self).contexts@.last().context.liquid_world.fluids@.len() == 0,
            final(self).contexts@.last().context.liquid_world.boundaries@.len() == 0,
            final(self).contexts@.last().context.liquid_world.advances@.len() == 0,
            final(self).collider_boundaries@ == old(self).collider_boundaries@,
    {
        let bundle = SalvaContextBundle {
            entity,
            context: SalvaContext::new(particle_radius, smoothing_factor),
            config,
            timestep_mode,
            sim_to_render_time: SimulationToRenderTime { diff: 0 },
            coupling: None,
            default_tag,
        };
        self.contexts.push(bundle);
    }

    /// Destroys the context owned by `entity`, releasing its world and
    /// everything in it.  A no-op when no such context is managed
    /// here.
    pub fn remove_context(&mut self, entity: u64) -> (removed: bool)
        requires
            old(self).wf(),
        ensures
            final(self).wf(),
            removed <==> has_context(old(self).contexts@, entity),
            !has_context(final(self).contexts@, entity),
            removed ==> final(self).contexts@ == old(self).contexts@.remove(
                ctx_idx(old(self).contexts@, entity),
            ),
            !removed ==> *final(self) == *old(self),
            final(self).collider_boundaries@ == old(self).collider_boundaries@,
    {
        match self.context_position(entity) {
            Some(i) => {
                proof {
                    lemma_ctx_idx_unique(self.contexts@, entity, i as int);
                }
                self.contexts.remove(i);
                proof {
                    assert forall|j: int|
                        0 <= j < self.contexts@.len() implies (#[trigger] self.contexts@[j]).entity
                        != entity by {
                        if j < i {
                            assert(self.contexts@[j] == old(self).contexts@[j]);
                        } else {
                            assert(self.contexts@[j] == old(self).contexts@[j + 1]);
                        }
                    }
                }
                true
            },
            None => false,
        }
    }

    /// Spawns the default context at startup, as the initialization
    /// choice dictates.  Returns whether a context was created.
    pub fn insert_default_world(
        &mut self,
        initialization: &SalvaContextInitialization,
        entity: u64,
        config: SalvaConfiguration,
        timestep_mode: TimestepMode,
    ) -> (created: bool)
        requires
            old(self).wf(),
            !has_context(old(self).contexts@, entity),
        ensures
            final(self).wf(),
            created <==> initialization is InitializeDefaultSalvaContext,
            !created ==> *final(self) == *old(self),
            created ==> {
                &&& final(self).contexts@.len() == old(self).contexts@.len() + 1
                &&& (forall|j: int|
                    0 <= j < old(self).contexts@.len() ==> final(self).contexts@[j]
                        == #[trigger] old(self).contexts@[j])
                &&& final(self).contexts@.last().entity == entity
                &&& final(self).contexts@.last().default_tag is Some
                &&& final(self).contexts@.last().config == config
                &&& final(self).contexts@.last().timestep_mode == timestep_mode
                &&& final(self).contexts@.last().context.liquid_world.particle_radius
                    == initialization->particle_radius
                &&& final(self).contexts@.last().context.liquid_world.smoothing_factor
                    == initialization->smoothing_factor
                &&& final(self).contexts@.last().context.entity2fluid@ == Map::<
                    u64,
                    usize,
                >::empty()
                &&& final(self).collider_boundaries@ == old(self).collider_boundaries@
            },
    {
        match initialization {
            SalvaContextInitialization::NoAutomaticSalvaContext => false,
            SalvaContextInitialization::InitializeDefaultSalvaContext {
                particle_radius,
                smoothing_factor,
            } => {
                self.spawn_context(
                    entity,
                    *particle_radius,
                    *smoothing_factor,
                    config,
                    timestep_mode,
                    Some(DefaultSalvaContext),
                );
                true
            },
        }
    }
    /// Initializes a fluid for `entity`, resolving its context from the
    /// explicit link or, failing that, from the single default context.
    /// On success the fluid is registered in the resolved context's
    /// world under a fresh handle, with pending forces drained into it.
    /// An unresolvable context is a non-fatal skip: nothing changes and
    /// the entity is retried on a later tick.
    pub fn init_fluid(
        &mut self,
        entity: u64,
        link: Option<SalvaContextEntityLink>,
        positions: &FluidParticlePositions,
        density: Option<&FluidDensity>,
        interaction_groups: Option<&FluidInteractionGroups>,
        nonpressure_forces: &mut Vec<NonPressureForce>,
    ) -> (r: Result<InitializedFluid, ContextResolutionError>)
        requires
            old(self).wf(),
            !old(self).any_index_contains(entity),
        ensures
            final(self).wf(),
            r is Err ==> *final(self) == *old(self) && final(nonpressure_forces)@ == old(
                nonpressure_forces,
            )@,
            (r == Err::<InitializedFluid, ContextResolutionError>(ContextResolutionError::MissingContext)) <==> (link matches Some(l)
                && !has_context(old(self).contexts@, l.0)),
            (r == Err::<InitializedFluid, ContextResolutionError>(ContextResolutionError::NoDefaultContext)) <==> (link is None
                && count_defaults(old(self).contexts@) != 1),
            r matches Ok(out) ==> ({
                let i = ctx_idx(old(self).contexts@, out.context_entity);
                &&& (link matches Some(l) ==> out.context_entity == l.0 && !out.link_inferred)
                &&& (link is None ==> out.link_inferred && count_defaults(old(self).contexts@)
                    == 1 && old(self).contexts@[i].default_tag is Some)
                &&& has_context(old(self).contexts@, out.context_entity)
                &&& bundles_same_except_context(old(self).contexts@, final(self).contexts@, i)
                &&& initialized_fluid(
                    old(self).contexts@[i].context,
                    final(self).contexts@[i].context,
                    entity,
                    positions.positions@,
                    density_value(density),
                    groups_value(interaction_groups),
                    old(nonpressure_forces)@,
                    out.handle.0,
                )
                &&& final(nonpressure_forces)@.len() == 0
                &&& final(self).collider_boundaries@ == old(self).collider_boundaries@
            }),
    {
        let target: u64 = match link {
            Some(l) => l.0,
            None => {
                match self.default_context_entity() {
                    Some(e) => e,
                    None => {
                        return Err(ContextResolutionError::NoDefaultContext);
                    },
                }
            },
        };
        let pos = self.context_position(target);
        let i = match pos {
            Some(i) => i,
            None => {
                return Err(ContextResolutionError::MissingContext);
            },
        };
        proof {
            lemma_ctx_idx_unique(self.contexts@, target, i as int);
        }
        let density0 = match density {
            Some(d) => d.density0,
            None => Scalar { bits: REST_DENSITY_DEFAULT_BITS },
        };
        let groups = match interaction_groups {
            Some(g) => *g,
            None => FluidInteractionGroups {
                memberships: crate::fluid::Group { bits: 0xFFFF_FFFF },
                filters: crate::fluid::Group { bits: 0xFFFF_FFFF },
            },
        };
        let link_inferred = link.is_none();
        let bundle = &mut self.contexts[i];
        let h = bundle.context.init_fluid(
            entity,
            &positions.positions,
            density0,
            groups,
            nonpressure_forces,
        );
        proof {
            self.lemma_wf_after_context_update(*old(self), i as int);
            assert forall|a: int, b: int, e: u64|
                #![trigger self.contexts@[a].context.entity2fluid@.contains_key(e), self.contexts@[b].context.entity2fluid@.contains_key(e)]
                0 <= a < self.contexts@.len() && 0 <= b < self.contexts@.len() && a != b
                    && self.contexts@[a].context.entity2fluid@.contains_key(
                    e,
                ) implies !self.contexts@[b].context.entity2fluid@.contains_key(e) by {
                if a == i as int {
                    if e == entity {
                        assert(!old(self).contexts@[b].context.entity2fluid@.contains_key(e));
                    } else {
                        assert(old(self).contexts@[a].context.entity2fluid@.contains_key(e));
                    }
                } else {
                    assert(old(self).contexts@[a].context.entity2fluid@.contains_key(e));
                    if b == i as int {
                        assert(e != entity);
                        assert(!old(self).contexts@[b].context.entity2fluid@.contains_key(e));
                    }
                }
            }
        }
        Ok(InitializedFluid { context_entity: target, handle: SalvaFluidHandle(h), link_inferred })
    }

    /// Handles the removal of a fluid entity's handle or particle
    /// positions: looks the entity up in every context's reverse index,
    /// removes its fluid from the owning context's world, and drops the
    /// index entry.  Returns the owning context entity and the released
    /// handle, or `None` when no context knows the entity (already
    /// removed).
    pub fn sync_removal(&mut self, entity: u64) -> (r: Option<(u64, usize)>)
        requires
            old(self).wf(),
        ensures
            final(self).wf(),
            (r is Some) <==> old(self).any_index_contains(entity),
            r is None ==> *final(self) == *old(self),
            r matches Some(pair) ==> ({
                let i = ctx_idx(old(self).contexts@, pair.0);
                &&& has_context(old(self).contexts@, pair.0)
                &&& old(self).contexts@[i].context.entity2fluid@.contains_key(entity)
                &&& pair.1 == old(self).contexts@[i].context.entity2fluid@[entity]
                &&& bundles_same_except_context(old(self).contexts@, final(self).contexts@, i)
                &&& removed_entity(
                    old(self).contexts@[i].context,
                    final(self).contexts@[i].context,
                    entity,
                    Some(pair.1),
                )
                &&& final(self).collider_boundaries@ == old(self).collider_boundaries@
            }),
            !final(self).any_index_contains(entity),
    {
        let pos = self.find_containing(entity);
        match pos {
            Some(i) => {
                let context_entity = self.contexts[i].entity;
                proof {
                    lemma_ctx_idx_unique(self.contexts@, context_entity, i as int);
                }
                let bundle = &mut self.contexts[i];
                let got = bundle.context.remove_entity(entity);
                proof {
                    self.lemma_wf_after_context_update(*old(self), i as int);
                    assert forall|a: int, b: int, e: u64|
                        #![trigger self.contexts@[a].context.entity2fluid@.contains_key(e), self.contexts@[b].context.entity2fluid@.contains_key(e)]
                        0 <= a < self.contexts@.len() && 0 <= b < self.contexts@.len() && a != b
                            && self.contexts@[a].context.entity2fluid@.contains_key(
                            e,
                        ) implies !self.contexts@[b].context.entity2fluid@.contains_key(e) by {
                        assert(old(self).contexts@[a].context.entity2fluid@.contains_key(e));
                    }
                    assert forall|j: int|
                        0 <= j < self.contexts@.len() implies !(
                        #[trigger] self.contexts@[j]).context.entity2fluid@.contains_key(
                            entity,
                        ) by {
                        if j != i as int {
                            assert(!old(self).contexts@[j].context.entity2fluid@.contains_key(
                                entity,
                            ));
                        }
                    }
                }
                match got {
                    Some(h) => Some((context_entity, h)),
                    None => None,
                }
            },
            None => None,
        }
    }

    /// Whether the context linked by `link` is managed here and holds a
    /// live fluid under `handle`.  Edits apply exactly when this holds.
    pub open spec fn edit_applies(self, link: SalvaContextEntityLink, handle: SalvaFluidHandle)
        -> bool {
        &&& has_context(self.contexts@, link.0)
        &&& self.contexts@[ctx_idx(self.contexts@, link.0)].context.liquid_world.fluid_live(
            handle.0 as int,
        )
    }

    /// Moves the command's forces onto the end of the linked fluid's
    /// force list, draining the command.  A missing context or a dead
    /// handle is a recoverable skip: nothing changes, the command
    /// included.
    pub fn apply_append_forces(
        &mut self,
        link: SalvaContextEntityLink,
        handle: SalvaFluidHandle,
        appends: &mut Vec<NonPressureForce>,
    ) -> (applied: bool)
        requires
            old(self).wf(),
        ensures
            final(self).wf(),
            applied <==> old(self).edit_applies(link, handle),
            !applied ==> *final(self) == *old(self) && final(appends)@ == old(appends)@,
            applied ==> ({
                let i = ctx_idx(old(self).contexts@, link.0);
                &&& bundles_same_except_context(old(self).contexts@, final(self).contexts@, i)
                &&& forces_appended(
                    old(self).contexts@[i].context,
                    final(self).contexts@[i].context,
                    handle.0,
                    old(appends)@,
                )
                &&& final(appends)@.len() == 0
                &&& final(self).collider_boundaries@ == old(self).collider_boundaries@
            }),
    {
        match self.context_position(link.0) {
            Some(i) => {
                proof {
                    lemma_ctx_idx_unique(self.contexts@, link.0, i as int);
                }
                if self.contexts[i].context.liquid_world.fluid_is_live(handle.0) {
                    let bundle = &mut self.contexts[i];
                    bundle.context.liquid_world.append_fluid_forces(handle.0, appends);
                    proof {
                        self.lemma_wf_after_edit(*old(self), i as int, handle.0 as int);
                    }
                    true
                } else {
                    false
                }
            },
            None => false,
        }
    }

    /// Removes the command's indices from the linked fluid's force
    /// list, one after the other against the progressively shrinking
    /// list, and clears the command.  A missing context or a dead
    /// handle is a recoverable skip: nothing changes, the command
    /// included.
    pub fn apply_remove_forces_at(
        &mut self,
        link: SalvaContextEntityLink,
        handle: SalvaFluidHandle,
        indices: &mut Vec<usize>,
    ) -> (applied: bool)
        requires
            old(self).wf(),
        ensures
            final(self).wf(),
            applied <==> old(self).edit_applies(link, handle),
            !applied ==> *final(self) == *old(self) && final(indices)@ == old(indices)@,
            applied ==> ({
                let i = ctx_idx(old(self).contexts@, link.0);
                &&& bundles_same_except_context(old(self).contexts@, final(self).contexts@, i)
                &&& forces_removed_at(
                    old(self).contexts@[i].context,
                    final(self).contexts@[i].context,
                    handle.0,
                    old(indices)@,
                )
                &&& final(indices)@.len() == 0
                &&& final(self).collider_boundaries@ == old(self).collider_boundaries@
            }),
    {
        match self.context_position(link.0) {
            Some(i) => {
                proof {
                    lemma_ctx_idx_unique(self.contexts@, link.0, i as int);
                }
                if self.contexts[i].context.liquid_world.fluid_is_live(handle.0) {
                    let bundle = &mut self.contexts[i];
                    bundle.context.liquid_world.remove_fluid_forces_at(handle.0, indices);
                    proof {
                        self.lemma_wf_after_edit(*old(self), i as int, handle.0 as int);
                    }
                    true
                } else {
                    false
                }
            },
            None => false,
        }
    }

    /// Applies an externally changed particle-position component to the
    /// linked fluid: positions are overwritten one-to-one, velocities
    /// and accelerations are reset to zero vectors of matching length.
    /// A missing context or a dead handle is a recoverable skip.
    pub fn apply_positions_edit(
        &mut self,
        link: SalvaContextEntityLink,
        handle: SalvaFluidHandle,
        positions: &FluidParticlePositions,
    ) -> (applied: bool)
        requires
            old(self).wf(),
        ensures
            final(self).wf(),
            applied <==> old(self).edit_applies(link, handle),
            !applied ==> *final(self) == *old(self),
            applied ==> ({
                let i = ctx_idx(old(self).contexts@, link.0);
                &&& bundles_same_except_context(old(self).contexts@, final(self).contexts@, i)
                &&& positions_edited(
                    old(self).contexts@[i].context,
                    final(self).contexts@[i].context,
                    handle.0,
                    positions.positions@,
                )
                &&& final(self).collider_boundaries@ == old(self).collider_boundaries@
            }),
    {
        match self.context_position(link.0) {
            Some(i) => {
                proof {
                    lemma_ctx_idx_unique(self.contexts@, link.0, i as int);
                }
                if self.contexts[i].context.liquid_world.fluid_is_live(handle.0) {
                    let bundle = &mut self.contexts[i];
                    bundle.context.liquid_world.set_fluid_positions(handle.0, &positions.positions);
                    proof {
                        self.lemma_wf_after_edit(*old(self), i as int, handle.0 as int);
                    }
                    true
                } else {
                    false
                }
            },
            None => false,
        }
    }

    /// Applies an externally changed velocity component to the linked
    /// fluid: velocities are overwritten when the component matches the
    /// particle-position component's length, and reset to zero vectors
    /// otherwise — no error is raised.  A missing context or a dead
    /// handle is a recoverable skip.
    pub fn apply_velocities_edit(
        &mut self,
        link: SalvaContextEntityLink,
        handle: SalvaFluidHandle,
        velocities: &FluidVelocities,
    ) -> (applied: bool)
        requires
            old(self).wf(),
        ensures
            final(self).wf(),
            applied <==> old(self).edit_applies(link, handle),
            !applied ==> *final(self) == *old(self),
            applied ==> ({
                let i = ctx_idx(old(self).contexts@, link.0);
                &&& bundles_same_except_context(old(self).contexts@, final(self).contexts@, i)
                &&& velocities_edited(
                    old(self).contexts@[i].context,
                    final(self).contexts@[i].context,
                    handle.0,
                    velocities.0@,
                )
                &&& final(self).collider_boundaries@ == old(self).collider_boundaries@
            }),
    {
        match self.context_position(link.0) {
            Some(i) => {
                proof {
                    lemma_ctx_idx_unique(self.contexts@, link.0, i as int);
                }
                if self.contexts[i].context.liquid_world.fluid_is_live(handle.0) {
                    let bundle = &mut self.contexts[i];
                    bundle.context.liquid_world.set_fluid_velocities(handle.0, &velocities.0);
                    proof {
                        self.lemma_wf_after_edit(*old(self), i as int, handle.0 as int);
                    }
                    true
                } else {
                    false
                }
            },
            None => false,
        }
    }

    /// Applies an externally changed acceleration component to the
    /// linked fluid, under the same length rule as the velocities.  A
    /// missing context or a dead handle is a recoverable skip.
    pub fn apply_accelerations_edit(
        &mut self,
        link: SalvaContextEntityLink,
        handle: SalvaFluidHandle,
        accelerations: &FluidAccelerations,
    ) -> (applied: bool)
        requires
            old(self).wf(),
        ensures
            final(self).wf(),
            applied <==> old(self).edit_applies(link, handle),
            !applied ==> *final(self) == *old(self),
            applied ==> ({
                let i = ctx_idx(old(self).contexts@, link.0);
                &&& bundles_same_except_context(old(self).contexts@, final(self).contexts@, i)
                &&& accelerations_edited(
                    old(self).contexts@[i].context,
                    final(self).contexts@[i].context,
                    handle.0,
                    accelerations.0@,
                )
                &&& final(self).collider_boundaries@ == old(self).collider_boundaries@
            }),
    {
        match self.context_position(link.0) {
            Some(i) => {
                proof {
                    lemma_ctx_idx_unique(self.contexts@, link.0, i as int);
                }
                if self.contexts[i].context.liquid_world.fluid_is_live(handle.0) {
                    let bundle = &mut self.contexts[i];
                    bundle.context.liquid_world.set_fluid_accelerations(handle.0, &accelerations.0);
                    proof {
                        self.lemma_wf_after_edit(*old(self), i as int, handle.0 as int);
                    }
                    true
                } else {
                    false
                }
            },
            None => false,
        }
    }

    /// Re-establishes engine well-formedness after an in-place edit of
    /// one fluid of one context: the reverse indexes are untouched and
    /// the edited fluid stays live.
    proof fn lemma_wf_after_edit(self, prev: FluidsEngine, i: int, h: int)
        requires
            prev.wf(),
            self.contexts@.len() == prev.contexts@.len(),
            0 <= i < prev.contexts@.len(),
            forall|j: int|
                0 <= j < prev.contexts@.len() && j != i ==> self.contexts@[j]
                    == #[trigger] prev.contexts@[j],
            self.contexts@[i].entity == prev.contexts@[i].entity,
            self.contexts@[i].context.entity2fluid@ == prev.contexts@[i].context.entity2fluid@,
            self.contexts@[i].context.liquid_world.wf(),
            prev.contexts@[i].context.liquid_world.fluids_same_except(
                self.contexts@[i].context.liquid_world,
                h,
            ),
            self.contexts@[i].context.liquid_world.fluid_live(h),
        ensures
            self.wf(),
    {
        assert(self.contexts@[i].context.wf()) by {
            assert forall|e: u64| #[trigger]
                self.contexts@[i].context.entity2fluid@.contains_key(
                    e,
                ) implies self.contexts@[i].context.liquid_world.fluid_live(
                self.contexts@[i].context.entity2fluid@[e] as int,
            ) by {
                let he = prev.contexts@[i].context.entity2fluid@[e] as int;
                assert(prev.contexts@[i].context.liquid_world.fluid_live(he));
                if he != h {
                    assert(self.contexts@[i].context.liquid_world.fluids@[he]
                        == prev.contexts@[i].context.liquid_world.fluids@[he]);
                }
            }
        }
        self.lemma_wf_after_context_update(prev, i);
        assert forall|a: int, b: int, e: u64|
            #![trigger self.contexts@[a].context.entity2fluid@.contains_key(e), self.contexts@[b].context.entity2fluid@.contains_key(e)]
            0 <= a < self.contexts@.len() && 0 <= b < self.contexts@.len() && a != b
                && self.contexts@[a].context.entity2fluid@.contains_key(
                e,
            ) implies !self.contexts@[b].context.entity2fluid@.contains_key(e) by {
            assert(self.contexts@[a].context.entity2fluid@
                == prev.contexts@[a].context.entity2fluid@);
            assert(self.contexts@[b].context.entity2fluid@
                == prev.contexts@[b].context.entity2fluid@);
            assert(prev.contexts@[a].context.entity2fluid@.contains_key(e));
            assert(!prev.contexts@[b].context.entity2fluid@.contains_key(e));
        }
    }

    /// The position of the context whose reverse index knows `entity`,
    /// if any.
    fn find_containing(&self, entity: u64) -> (r: Option<usize>)
        ensures
            r matches Some(i) ==> 0 <= i < self.contexts@.len() && self.contexts@[
                i as int
            ].context.entity2fluid@.contains_key(entity),
            r is None ==> !self.any_index_contains(entity),
    {
        let mut i: usize = 0;
        while i < self.contexts.len()
            invariant
                i <= self.contexts@.len(),
                forall|j: int|
                    0 <= j < i ==> !(#[trigger] self.contexts@[j]).context.entity2fluid@
                        .contains_key(entity),
            decreases self.contexts@.len() - i,
        {
            let found = self.contexts[i].context.fluid_handle_of(entity);
            if found.is_some() {
                return Some(i);
            }
            i = i + 1;
        }
        None
    }

    /// Whether every independently active context can take a step of
    /// `time_delta` under its own policy and accumulator.
    pub open spec fn step_all_inputs_ok(self, time_delta: int) -> bool {
        forall|i: int|
            0 <= i < self.contexts@.len() && (#[trigger] self.contexts@[i]).config
                .physics_pipeline_active == Some(true)
                ==> crate::salva_context::step_inputs_ok(
                self.contexts@[i].timestep_mode,
                time_delta,
                self.contexts@[i].sim_to_render_time.diff as int,
            )
    }

    /// Steps every context that runs independently and is active, each
    /// under its own policy, accumulator and gravity.  Contexts that
    /// are inactive or delegated to an external driver are untouched,
    /// and no context is affected by any other's stepping.
    pub fn step_simulation(&mut self, time_delta: i64)
        requires
            old(self).wf(),
            old(self).step_all_inputs_ok(time_delta as int),
        ensures
            final(self).wf(),
            final(self).contexts@.len() == old(self).contexts@.len(),
            forall|i: int|
                0 <= i < old(self).contexts@.len() ==> ticked_bundle(
                    #[trigger] old(self).contexts@[i],
                    final(self).contexts@[i],
                    time_delta as int,
                ),
            final(self).collider_boundaries@ == old(self).collider_boundaries@,
    {
        let mut i: usize = 0;
        while i < self.contexts.len()
            invariant
                i <= self.contexts@.len(),
                old(self).wf(),
                old(self).step_all_inputs_ok(time_delta as int),
                self.contexts@.len() == old(self).contexts@.len(),
                forall|j: int|
                    i <= j < self.contexts@.len() ==> self.contexts@[j] == #[trigger] old(
                        self,
                    ).contexts@[j],
                forall|j: int|
                    0 <= j < i ==> ticked_bundle(
                        #[trigger] old(self).contexts@[j],
                        self.contexts@[j],
                        time_delta as int,
                    ),
                self.collider_boundaries@ == old(self).collider_boundaries@,
            decreases self.contexts@.len() - i,
        {
            let active = self.contexts[i].config.physics_is_independently_active();
            if active {
                proof {
                    assert(self.contexts@[i as int] == old(self).contexts@[i as int]);
                    assert(old(self).contexts@[i as int].context.wf());
                }
                let bundle = &mut self.contexts[i];
                let mut sim = bundle.sim_to_render_time;
                let gravity = bundle.config.gravity;
                let mode = bundle.timestep_mode;
                bundle.context.step_simulation(time_delta, gravity, mode, &mut sim);
                bundle.sim_to_render_time = sim;
            }
            i = i + 1;
        }
        proof {
            assert forall|j: int|
                0 <= j < self.contexts@.len() implies (#[trigger] self.contexts@[
            j]).context.wf() by {
                assert(ticked_bundle(old(self).contexts@[j], self.contexts@[j], time_delta as int));
                if old(self).contexts@[j].config.physics_pipeline_active == Some(true) {
                    crate::salva_context::lemma_stepped_preserves_wf(
                        old(self).contexts@[j].context,
                        self.contexts@[j].context,
                        time_delta as int,
                        old(self).contexts@[j].config.gravity,
                        old(self).contexts@[j].timestep_mode,
                        old(self).contexts@[j].sim_to_render_time.diff as int,
                        self.contexts@[j].sim_to_render_time.diff as int,
                        false,
                    );
                }
            }
            assert forall|a: int, b: int|
                0 <= a < b < self.contexts@.len() implies (#[trigger] self.contexts@[a]).entity
                != (#[trigger] self.contexts@[b]).entity by {
                assert(ticked_bundle(old(self).contexts@[a], self.contexts@[a], time_delta as int));
                assert(ticked_bundle(old(self).contexts@[b], self.contexts@[b], time_delta as int));
            }
            assert forall|a: int, b: int, e: u64|
                #![trigger self.contexts@[a].context.entity2fluid@.contains_key(e), self.contexts@[b].context.entity2fluid@.contains_key(e)]
                0 <= a < self.contexts@.len() && 0 <= b < self.contexts@.len() && a != b
                    && self.contexts@[a].context.entity2fluid@.contains_key(
                    e,
                ) implies !self.contexts@[b].context.entity2fluid@.contains_key(e) by {
                assert(ticked_bundle(old(self).contexts@[a], self.contexts@[a], time_delta as int));
                assert(ticked_bundle(old(self).contexts@[b], self.contexts@[b], time_delta as int));
                assert(self.contexts@[a].context.entity2fluid@
                    == old(self).contexts@[a].context.entity2fluid@);
                assert(self.contexts@[b].context.entity2fluid@
                    == old(self).contexts@[b].context.entity2fluid@);
                assert(old(self).contexts@[a].context.entity2fluid@.contains_key(e));
                assert(!old(self).contexts@[b].context.entity2fluid@.contains_key(e));
            }
        }
    }

    /// Writes the post-step particle state of the linked fluid back
    /// into component form, as three lists aligned with each other.
    /// `rapier_pipeline_active` reports whether the rigid-body engine
    /// instance backing this context's coupling stepped this tick; it
    /// is ignored for uncoupled contexts.  Writeback happens when the
    /// owning context stepped independently, or when its coupled
    /// instance stepped; otherwise `None` is returned so that stale
    /// solver state never overwrites component state.
    pub fn writeback_fluid(
        &self,
        link: SalvaContextEntityLink,
        handle: SalvaFluidHandle,
        rapier_pipeline_active: bool,
    ) -> (r: Option<(Vec<Vect>, Vec<Vect>, Vec<Vect>)>)
        requires
            self.wf(),
        ensures
            r is Some <==> ({
                let i = ctx_idx(self.contexts@, link.0);
                &&& has_context(self.contexts@, link.0)
                &&& self.writeback_gate(i, rapier_pipeline_active)
                &&& self.contexts@[i].context.liquid_world.fluid_live(handle.0 as int)
            }),
            r matches Some(t) ==> ({
                let f = self.contexts@[ctx_idx(self.contexts@, link.0)].context.liquid_world
                    .fluid_at(handle.0 as int);
                &&& t.0@ == f.positions@
                &&& t.1@ == f.velocities@
                &&& t.2@ == f.accelerations@
            }),
    {
        match self.context_position(link.0) {
            Some(i) => {
                proof {
                    lemma_ctx_idx_unique(self.contexts@, link.0, i as int);
                }
                let coupled_active: Option<bool> = match &self.contexts[i].coupling {
                    Some(_) => Some(rapier_pipeline_active),
                    None => None,
                };
                let gate = self.contexts[i].config.should_writeback(coupled_active);
                if gate && self.contexts[i].context.liquid_world.fluid_is_live(handle.0) {
                    let positions = self.contexts[i].context.liquid_world.fluid_positions(handle.0);
                    let velocities = self.contexts[i].context.liquid_world.fluid_velocities(
                        handle.0,
                    );
                    let accelerations = self.contexts[i].context.liquid_world.fluid_accelerations(
                        handle.0,
                    );
                    Some((positions, velocities, accelerations))
                } else {
                    None
                }
            },
            None => None,
        }
    }

    /// The writeback gate for the context at position `i`: it stepped
    /// independently, or stepping is delegated, a coupling exists, and
    /// the coupled rigid-body instance stepped.
    pub open spec fn writeback_gate(self, i: int, rapier_pipeline_active: bool) -> bool {
        ||| self.contexts@[i].config.physics_pipeline_active == Some(true)
        ||| (self.contexts@[i].config.physics_pipeline_active is None && self.contexts@[i].coupling
            is Some && rapier_pipeline_active)
    }

    /// Re-establishes engine well-formedness after one bundle's context
    /// was replaced by a well-formed one with the same reverse index.
    pub proof fn lemma_wf_after_index_preserving_update(self, prev: FluidsEngine, i: int)
        requires
            prev.wf(),
            self.contexts@.len() == prev.contexts@.len(),
            0 <= i < prev.contexts@.len(),
            forall|j: int|
                0 <= j < prev.contexts@.len() && j != i ==> self.contexts@[j]
                    == #[trigger] prev.contexts@[j],
            self.contexts@[i].entity == prev.contexts@[i].entity,
            self.contexts@[i].context.wf(),
            self.contexts@[i].context.entity2fluid@ == prev.contexts@[i].context.entity2fluid@,
        ensures
            self.wf(),
    {
        self.lemma_wf_after_context_update(prev, i);
        assert forall|a: int, b: int, e: u64|
            #![trigger self.contexts@[a].context.entity2fluid@.contains_key(e), self.contexts@[b].context.entity2fluid@.contains_key(e)]
            0 <= a < self.contexts@.len() && 0 <= b < self.contexts@.len() && a != b
                && self.contexts@[a].context.entity2fluid@.contains_key(
                e,
            ) implies !self.contexts@[b].context.entity2fluid@.contains_key(e) by {
            assert(self.contexts@[a].context.entity2fluid@
                == prev.contexts@[a].context.entity2fluid@);
            assert(self.contexts@[b].context.entity2fluid@
                == prev.contexts@[b].context.entity2fluid@);
            assert(prev.contexts@[a].context.entity2fluid@.contains_key(e));
            assert(!prev.contexts@[b].context.entity2fluid@.contains_key(e));
        }
    }

    /// Re-establishes everything of well-formedness except index
    /// disjointness after one bundle's context was replaced by a
    /// well-formed one.
    proof fn lemma_wf_after_context_update(self, prev: FluidsEngine, i: int)
        requires
            prev.wf(),
            self.contexts@.len() == prev.contexts@.len(),
            0 <= i < prev.contexts@.len(),
            forall|j: int|
                0 <= j < prev.contexts@.len() && j != i ==> self.contexts@[j]
                    == #[trigger] prev.contexts@[j],
            self.contexts@[i].entity == prev.contexts@[i].entity,
            self.contexts@[i].context.wf(),
        ensures
            forall|a: int, b: int|
                0 <= a < b < self.contexts@.len() ==> (#[trigger] self.contexts@[a]).entity != (
                #[trigger] self.contexts@[b]).entity,
            forall|j: int|
                0 <= j < self.contexts@.len() ==> (#[trigger] self.contexts@[j]).context.wf(),
    {
        assert forall|a: int, b: int|
            0 <= a < b < self.contexts@.len() implies (#[trigger] self.contexts@[a]).entity != (
        #[trigger] self.contexts@[b]).entity by {
            assert(self.contexts@[a].entity == prev.contexts@[a].entity);
            assert(self.contexts@[b].entity == prev.contexts@[b].entity);
        }
        assert forall|j: int|
            0 <= j < self.contexts@.len() implies (#[trigger] self.contexts@[j]).context.wf() by {
            if j != i {
                assert(self.contexts@[j] == prev.contexts@[j]);
            }
        }
    }
}

/// The three stages of one tick, in their mandatory order: reconcile
/// component state with the simulation worlds, step the worlds, write
/// post-step state back.  The embedder registers these as ordered
/// system sets with its scheduler.
#[derive(Clone, Copy, Debug, PartialEq, Eq, Hash, Structural)]
pub enum SalvaSimulationSet {
    /// Remove stale fluids, initialize new fluids, apply queued edits,
    /// sample new colliders.
    SyncBackend,
    /// Advance each active context's world under its timestep policy.
    StepSimulation,
    /// Copy post-step particle state back into component form.
    Writeback,
}

/// Law: contexts are independent.  Across one stepping stage, each
/// context changes only as its own configuration, policy and gravity
/// dictate — an inactive or delegated context is untouched, an active
/// one receives advances under its own gravity — and a fluid entity
/// indexed by one context is never indexed by another, before or
/// after.
pub proof fn lemma_multi_context_independence(
    prev: FluidsEngine,
    next: FluidsEngine,
    time_delta: int,
    a: int,
    b: int,
    e: u64,
)
    requires
        prev.wf(),
        next.contexts@.len() == prev.contexts@.len(),
        forall|i: int|
            0 <= i < prev.contexts@.len() ==> ticked_bundle(
                #[trigger] prev.contexts@[i],
                next.contexts@[i],
                time_delta,
            ),
        0 <= a < prev.contexts@.len(),
        0 <= b < prev.contexts@.len(),
        a != b,
        prev.contexts@[a].context.entity2fluid@.contains_key(e),
    ensures
        !prev.contexts@[b].context.entity2fluid@.contains_key(e),
        next.contexts@[a].context.entity2fluid@.contains_key(e),
        !next.contexts@[b].context.entity2fluid@.contains_key(e),
        prev.contexts@[a].config.physics_pipeline_active == Some(true)
            ==> next.contexts@[a].context.liquid_world.advances@ == prev.contexts@[
            a].context.liquid_world.advances@ + Seq::new(
            crate::salva_context::planned_advances(
                prev.contexts@[a].timestep_mode,
                time_delta,
                prev.contexts@[a].sim_to_render_time.diff as int,
            ) as nat,
            |k: int| (crate::world::Advance {
                dt: crate::salva_context::planned_substep(
                    prev.contexts@[a].timestep_mode,
                    time_delta,
                ) as i64,
                gravity: prev.contexts@[a].config.gravity,
                coupled: false,
            }),
        ),
        prev.contexts@[b].config.physics_pipeline_active != Some(true) ==> next.contexts@[b]
            == prev.contexts@[b],
{
    assert(ticked_bundle(prev.contexts@[a], next.contexts@[a], time_delta));
    assert(ticked_bundle(prev.contexts@[b], next.contexts@[b], time_delta));
    assert(next.contexts@[a].context.entity2fluid@ == prev.contexts@[a].context.entity2fluid@);
    assert(next.contexts@[b].context.entity2fluid@ == prev.contexts@[b].context.entity2fluid@);
}

/// The position of some default-tagged bundle.
pub open spec fn default_tag_idx(s: Seq<SalvaContextBundle>) -> int {
    choose|j: int| 0 <= j < s.len() && (#[trigger] s[j]).default_tag is Some
}

/// The default count never goes below zero.
pub proof fn lemma_count_defaults_nonneg(s: Seq<SalvaContextBundle>)
    ensures
        count_defaults(s) >= 0,
    decreases s.len(),
{
    if s.len() > 0 {
        lemma_count_defaults_nonneg(s.drop_last());
    }
}

/// A tagged bundle pushes the default count to at least one.
pub proof fn lemma_count_defaults_at_least(s: Seq<SalvaContextBundle>, a: int)
    requires
        0 <= a < s.len(),
        s[a].default_tag is Some,
    ensures
        count_defaults(s) >= 1,
    decreases s.len(),
{
    lemma_count_defaults_nonneg(s.drop_last());
    if a < s.len() - 1 {
        lemma_count_defaults_at_least(s.drop_last(), a);
    }
}

/// Two distinct tagged bundles push the default count to at least two.
pub proof fn lemma_count_defaults_two(s: Seq<SalvaContextBundle>, a: int, b: int)
    requires
        0 <= a < b < s.len(),
        s[a].default_tag is Some,
        s[b].default_tag is Some,
    ensures
        count_defaults(s) >= 2,
    decreases s.len(),
{
    if b == s.len() - 1 {
        lemma_count_defaults_at_least(s.drop_last(), a);
    } else {
        lemma_count_defaults_two(s.drop_last(), a, b);
    }
}

/// When exactly one bundle carries the default tag, any tagged
/// position is the one [`default_tag_idx`] names.
pub proof fn lemma_unique_default_idx(s: Seq<SalvaContextBundle>, i: int)
    requires
        count_defaults(s) == 1,
        0 <= i < s.len(),
        s[i].default_tag is Some,
    ensures
        default_tag_idx(s) == i,
{
    let j = default_tag_idx(s);
    assert(0 <= j < s.len() && s[j].default_tag is Some);
    if j < i {
        lemma_count_defaults_two(s, j, i);
    } else if i < j {
        lemma_count_defaults_two(s, i, j);
    }
}

/// With unique context entities, any position whose bundle carries
/// `entity` is the position [`ctx_idx`] names.
pub proof fn lemma_ctx_idx_unique(s: Seq<SalvaContextBundle>, entity: u64, i: int)
    requires
        forall|a: int, b: int|
            0 <= a < b < s.len() ==> (#[trigger] s[a]).entity != (#[trigger] s[b]).entity,
        0 <= i < s.len(),
        s[i].entity == entity,
    ensures
        has_context(s, entity),
        ctx_idx(s, entity) == i,
{
    assert(has_context(s, entity));
    let j = ctx_idx(s, entity);
    if j != i {
        if j < i {
            assert(s[j].entity != s[i].entity);
        } else {
            assert(s[i].entity != s[j].entity);
        }
    }
}

} // verus!
