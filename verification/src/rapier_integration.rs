//! The collider coupling bridge: turns rigid-body colliders into fluid
//! boundaries and keeps the per-collider sampling registry that couples
//! a context's world to a rigid-body engine instance.

use vstd::prelude::*;
use crate::engine::FluidsEngine;
use crate::engine::SalvaContextInitialization;
use crate::engine::count_defaults;
use crate::engine::ctx_idx;
use crate::engine::default_tag_idx;
use crate::engine::groups_value;
use crate::engine::has_context;
use crate::engine::lemma_ctx_idx_unique;
use crate::engine::lemma_unique_default_idx;
use crate::fluid::FluidInteractionGroups;
use crate::math::Vect;
use crate::salva_context::SalvaContextEntityLink;
use crate::salva_context::stepped;
use crate::salva_context::step_inputs_ok;
use crate::world::Boundary;

verus! {

broadcast use vstd::std_specs::hash::group_hash_axioms;

/// How a rigid-body collider is sampled for interaction with a fluid
/// world.
#[derive(Debug)]
pub enum ColliderSamplingMethod {
    /// Fixed surface sample points are precomputed from the collider
    /// shape at registration time.  Good for smaller shapes with finer
    /// details; cost scales with shape complexity.
    Static,
    /// No precomputation; contact points are derived on the fly from
    /// actual particle contacts each step.  Flatter cost for any shape
    /// size, at coarser accuracy.
    DynamicContact,
    /// Caller-supplied sample points in the collider's local space.
    /// Recommended spacing: at most twice the particle radius.
    CustomStatic(Vec<Vect>),
}

impl Default for ColliderSamplingMethod {
    /// Contact-derived sampling is the default.
    fn default() -> (r: Self)
        ensures
            r is DynamicContact,
    {
        ColliderSamplingMethod::DynamicContact
    }
}

/// Component carried by a collider entity that should interact with a
/// fluid world.
#[derive(Debug)]
pub struct RapierColliderSampling {
    /// How the collider is sampled.
    pub sampling_method: ColliderSamplingMethod,
}

impl Default for RapierColliderSampling {
    /// Contact-derived sampling is the default.
    fn default() -> (r: Self)
        ensures
            r.sampling_method is DynamicContact,
    {
        RapierColliderSampling { sampling_method: ColliderSamplingMethod::DynamicContact }
    }
}

/// The boundary handle attached to a collider entity once it has been
/// sampled; its presence marks the collider as sampled.
#[derive(Clone, Copy, Debug, PartialEq, Eq, Structural)]
pub struct ColliderBoundaryHandle(pub usize);

/// The sampling registered for one collider: either fixed points in
/// the collider's local space, or contact-derived sampling.
#[derive(Debug)]
pub enum ColliderSampling {
    /// Fixed local-space sample points.
    StaticSampling(Vec<Vect>),
    /// Contact-derived sampling.
    DynamicContactSampling,
}

/// One registered coupling: a boundary handle tied to a rigid-body
/// collider handle under a sampling choice.
#[derive(Debug)]
pub struct CouplingEntry {
    /// The boundary inside the context's world.
    pub boundary_handle: usize,
    /// The rigid-body engine's handle of the coupled collider.
    pub collider_handle: u64,
    /// How the collider surface is sampled.
    pub sampling: ColliderSampling,
}

/// The registry coupling a context's boundaries to rigid-body
/// colliders.
#[derive(Debug)]
pub struct ColliderCouplingSet {
    /// The registered couplings, in registration order.
    pub registered: Vec<CouplingEntry>,
}

impl ColliderCouplingSet {
    /// An empty registry.
    pub fn new() -> (r: ColliderCouplingSet)
        ensures
            r.registered@.len() == 0,
    {
        ColliderCouplingSet { registered: Vec::new() }
    }
}

/// Declares which rigid-body engine instance a context's simulation is
/// coupled with, and carries the coupling registry.  Attached to a
/// context at linking time; a context has at most one.
#[derive(Debug)]
pub struct SalvaRapierCoupling {
    /// The entity of the coupled rigid-body engine instance.
    pub rapier_context_entity: u64,
    /// The per-collider sampling registry.
    pub coupling: ColliderCouplingSet,
}

/// A successfully sampled collider: the context that owns its boundary
/// and the boundary handle.
#[derive(Clone, Copy, Debug, PartialEq, Eq, Structural)]
pub struct SampledCollider {
    /// The context entity whose world holds the boundary.
    pub context_entity: u64,
    /// The boundary handle, to be attached to the collider entity as
    /// its sampled marker.
    pub boundary_handle: ColliderBoundaryHandle,
    /// Whether the context was inferred from the default tag, in which
    /// case the caller should attach the returned link to the collider
    /// entity.
    pub link_inferred: bool,
}

/// Why a collider could not be sampled.
#[derive(Clone, Copy, Debug, PartialEq, Eq, Structural)]
pub enum SampleColliderError {
    /// The collider carries no context link and there is no single
    /// default context to fall back to.
    NoDefaultContext,
    /// The collider's context link names an entity that carries no
    /// context.
    MissingContext,
    /// The resolved context has not been linked to a rigid-body engine
    /// instance, so there is no coupling registry to register with.
    NotCoupled,
}

/// Whether `link` resolves to a managed context: the linked entity is
/// managed, or, without a link, exactly one default context exists.
pub open spec fn sample_resolvable(
    prev: FluidsEngine,
    link: Option<SalvaContextEntityLink>,
) -> bool {
    match link {
        Some(l) => has_context(prev.contexts@, l.0),
        None => count_defaults(prev.contexts@) == 1,
    }
}

/// The position of the context `link` resolves to.
pub open spec fn resolved_sample_idx(
    prev: FluidsEngine,
    link: Option<SalvaContextEntityLink>,
) -> int {
    match link {
        Some(l) => ctx_idx(prev.contexts@, l.0),
        None => default_tag_idx(prev.contexts@),
    }
}

/// Relates an engine across one sampling call for `collider_entity`.
/// An already sampled collider is an exact no-op that returns the
/// existing boundary.  Otherwise the collider's context is resolved
/// like a fluid's; an empty boundary filtered by `groups` is
/// registered in that context's world; and a coupling entry ties the
/// new boundary to the collider's rigid-body handle under the given
/// sampling.  Skips change nothing.
pub open spec fn collider_sampled(
    prev: FluidsEngine,
    next: FluidsEngine,
    collider_entity: u64,
    collider_handle: u64,
    link: Option<SalvaContextEntityLink>,
    groups: FluidInteractionGroups,
    sampling: ColliderSampling,
    r: Result<SampledCollider, SampleColliderError>,
) -> bool {
    let already = prev.collider_boundaries@.contains_key(collider_entity);
    &&& already ==> {
        &&& next == prev
        &&& r == Ok::<SampledCollider, SampleColliderError>(SampledCollider {
            context_entity: prev.collider_boundaries@[collider_entity].0,
            boundary_handle: ColliderBoundaryHandle(prev.collider_boundaries@[collider_entity].1),
            link_inferred: false,
        })
    }
    &&& !already ==> {
        &&& ((r == Err::<SampledCollider, SampleColliderError>(
            SampleColliderError::NoDefaultContext,
        )) <==> (link is None && count_defaults(prev.contexts@) != 1))
        &&& ((r == Err::<SampledCollider, SampleColliderError>(
            SampleColliderError::MissingContext,
        )) <==> (link matches Some(l) && !has_context(prev.contexts@, l.0)))
        &&& ((r == Err::<SampledCollider, SampleColliderError>(SampleColliderError::NotCoupled))
            <==> (sample_resolvable(prev, link) && prev.contexts@[resolved_sample_idx(
            prev,
            link,
        )].coupling is None))
        &&& ((r is Ok) <==> (sample_resolvable(prev, link) && prev.contexts@[resolved_sample_idx(
            prev,
            link,
        )].coupling is Some))
        &&& r is Err ==> next == prev
        &&& r matches Ok(out) ==> ({
            let i = resolved_sample_idx(prev, link);
            let prevb = prev.contexts@[i];
            let nextb = next.contexts@[i];
            let prevw = prevb.context.liquid_world;
            let nextw = nextb.context.liquid_world;
            &&& 0 <= i < prev.contexts@.len()
            &&& out.context_entity == prevb.entity
            &&& out.link_inferred == link is None
            &&& (link is None ==> prevb.default_tag is Some)
            &&& next.contexts@.len() == prev.contexts@.len()
            &&& (forall|j: int|
                0 <= j < prev.contexts@.len() && j != i ==> next.contexts@[j]
                    == #[trigger] prev.contexts@[j])
            &&& nextb.entity == prevb.entity
            &&& nextb.config == prevb.config
            &&& nextb.timestep_mode == prevb.timestep_mode
            &&& nextb.sim_to_render_time == prevb.sim_to_render_time
            &&& nextb.default_tag == prevb.default_tag
            &&& nextb.context.entity2fluid@ == prevb.context.entity2fluid@
            &&& out.boundary_handle.0 == prevw.boundaries@.len()
            &&& nextw.boundaries@.len() == prevw.boundaries@.len() + 1
            &&& (forall|j: int|
                0 <= j < prevw.boundaries@.len() ==> nextw.boundaries@[j]
                    == #[trigger] prevw.boundaries@[j])
            &&& nextw.boundaries@.last().interaction_groups == groups
            &&& nextw.boundaries@.last().positions@.len() == 0
            &&& nextw.fluids@ == prevw.fluids@
            &&& nextw.advances@ == prevw.advances@
            &&& nextw.particle_radius == prevw.particle_radius
            &&& nextw.smoothing_factor == prevw.smoothing_factor
            &&& prevb.coupling is Some
            &&& nextb.coupling is Some
            &&& nextb.coupling->0.rapier_context_entity == prevb.coupling->0.rapier_context_entity
            &&& nextb.coupling->0.coupling.registered@.len() == prevb.coupling->0.coupling
                .registered@.len() + 1
            &&& (forall|j: int|
                0 <= j < prevb.coupling->0.coupling.registered@.len()
                    ==> nextb.coupling->0.coupling.registered@[j]
                    == #[trigger] prevb.coupling->0.coupling.registered@[j])
            &&& nextb.coupling->0.coupling.registered@.last().boundary_handle
                == out.boundary_handle.0
            &&& nextb.coupling->0.coupling.registered@.last().collider_handle == collider_handle
            &&& nextb.coupling->0.coupling.registered@.last().sampling == sampling
            &&& next.collider_boundaries@ == prev.collider_boundaries@.insert(
                collider_entity,
                (out.context_entity, out.boundary_handle.0),
            )
        })
    }
}

impl FluidsEngine {
    /// Samples a rigid-body collider into a fluid boundary of its
    /// resolved context, registering the boundary-collider coupling
    /// under the given sampling.  Idempotent: a collider already
    /// sampled is an exact no-op returning the existing boundary.  For
    /// [`ColliderSamplingMethod::Static`] the caller precomputes the
    /// surface sample points from the collider shape and passes them as
    /// the sampling.
    pub fn sample_collider(
        &mut self,
        collider_entity: u64,
        collider_handle: u64,
        link: Option<SalvaContextEntityLink>,
        collision_groups: Option<&FluidInteractionGroups>,
        sampling: ColliderSampling,
    ) -> (r: Result<SampledCollider, SampleColliderError>)
        requires
            old(self).wf(),
        ensures
            final(self).wf(),
            collider_sampled(
                *old(self),
                *final(self),
                collider_entity,
                collider_handle,
                link,
                groups_value(collision_groups),
                sampling,
                r,
            ),
    {
        match self.collider_boundaries.get(&collider_entity) {
            Some(record) => {
                let (context_entity, boundary) = *record;
                return Ok(SampledCollider {
                    context_entity,
                    boundary_handle: ColliderBoundaryHandle(boundary),
                    link_inferred: false,
                });
            },
            None => {},
        }
        let target: u64 = match link {
            Some(l) => l.0,
            None => {
                match self.default_context_entity() {
                    Some(e) => e,
                    None => {
                        return Err(SampleColliderError::NoDefaultContext);
                    },
                }
            },
        };
        let pos = self.context_position(target);
        let i = match pos {
            Some(i) => i,
            None => {
                return Err(SampleColliderError::MissingContext);
            },
        };
        proof {
            lemma_ctx_idx_unique(self.contexts@, target, i as int);
            if link is None {
                let tagged = choose|j: int|
                    0 <= j < self.contexts@.len() && (#[trigger] self.contexts@[j]).entity == target
                        && self.contexts@[j].default_tag is Some;
                assert(0 <= tagged < self.contexts@.len() && self.contexts@[tagged].entity == target
                    && self.contexts@[tagged].default_tag is Some);
                lemma_ctx_idx_unique(self.contexts@, target, tagged);
                assert(tagged == i as int);
                lemma_unique_default_idx(self.contexts@, i as int);
            }
            assert(resolved_sample_idx(*old(self), link) == i as int);
        }
        let groups = match collision_groups {
            Some(g) => *g,
            None => FluidInteractionGroups {
                memberships: crate::fluid::Group { bits: 0xFFFF_FFFF },
                filters: crate::fluid::Group { bits: 0xFFFF_FFFF },
            },
        };
        if self.contexts[i].coupling.is_none() {
            return Err(SampleColliderError::NotCoupled);
        }
        let link_inferred = link.is_none();
        let bundle = &mut self.contexts[i];
        let boundary = Boundary { positions: Vec::new(), interaction_groups: groups };
        let bh = bundle.context.liquid_world.add_boundary(boundary);
        match &mut bundle.coupling {
            Some(c) => {
                c.coupling.registered.push(
                    CouplingEntry { boundary_handle: bh, collider_handle, sampling },
                );
            },
            None => {},
        }
        let context_entity = bundle.entity;
        self.collider_boundaries.insert(collider_entity, (context_entity, bh));
        proof {
            assert(self.contexts@[i as int].context.wf()) by {
                assert(self.contexts@[i as int].context.entity2fluid@ == old(self).contexts@[
                    i as int].context.entity2fluid@);
                assert(self.contexts@[i as int].context.liquid_world.fluids@ == old(
                    self,
                ).contexts@[i as int].context.liquid_world.fluids@);
            }
            self.lemma_wf_after_index_preserving_update(*old(self), i as int);
        }
        Ok(SampledCollider {
            context_entity,
            boundary_handle: ColliderBoundaryHandle(bh),
            link_inferred,
        })
    }

    /// Whether the context owned by `context_entity` is managed here,
    /// delegated (not independent), and coupled to a rigid-body engine
    /// instance — the conditions under which the coupled stepping stage
    /// drives it.
    pub open spec fn coupled_step_applies(self, context_entity: u64) -> bool {
        &&& has_context(self.contexts@, context_entity)
        &&& self.contexts@[ctx_idx(self.contexts@, context_entity)].config.physics_pipeline_active
            is None
        &&& self.contexts@[ctx_idx(self.contexts@, context_entity)].coupling is Some
    }

    /// Steps a context whose stepping is delegated to its coupled
    /// rigid-body engine instance, threading the coupling manager
    /// through every advance.  `rapier_pipeline_active` reports whether
    /// that instance is active this tick; an independent, uncoupled,
    /// unmanaged or inactive case is an exact no-op.
    pub fn step_simulation_rapier_coupling(
        &mut self,
        context_entity: u64,
        time_delta: i64,
        rapier_pipeline_active: bool,
    ) -> (stepped_now: bool)
        requires
            old(self).wf(),
            old(self).coupled_step_applies(context_entity) && rapier_pipeline_active
                ==> step_inputs_ok(
                old(self).contexts@[ctx_idx(old(self).contexts@, context_entity)].timestep_mode,
                time_delta as int,
                old(self).contexts@[ctx_idx(
                    old(self).contexts@,
                    context_entity,
                )].sim_to_render_time.diff as int,
            ),
        ensures
            final(self).wf(),
            stepped_now <==> (old(self).coupled_step_applies(context_entity)
                && rapier_pipeline_active),
            !stepped_now ==> *final(self) == *old(self),
            stepped_now ==> ({
                let i = ctx_idx(old(self).contexts@, context_entity);
                let prevb = old(self).contexts@[i];
                let nextb = final(self).contexts@[i];
                &&& final(self).contexts@.len() == old(self).contexts@.len()
                &&& (forall|j: int|
                    0 <= j < old(self).contexts@.len() && j != i ==> final(self).contexts@[j]
                        == #[trigger] old(self).contexts@[j])
                &&& nextb.entity == prevb.entity
                &&& nextb.config == prevb.config
                &&& nextb.timestep_mode == prevb.timestep_mode
                &&& nextb.coupling == prevb.coupling
                &&& nextb.default_tag == prevb.default_tag
                &&& stepped(
                    prevb.context,
                    nextb.context,
                    time_delta as int,
                    prevb.config.gravity,
                    prevb.timestep_mode,
                    prevb.sim_to_render_time.diff as int,
                    nextb.sim_to_render_time.diff as int,
                    true,
                )
                &&& final(self).collider_boundaries@ == old(self).collider_boundaries@
            }),
    {
        match self.context_position(context_entity) {
            Some(i) => {
                proof {
                    lemma_ctx_idx_unique(self.contexts@, context_entity, i as int);
                }
                let delegated = !self.contexts[i].config.is_independent();
                let has_coupling = self.contexts[i].coupling.is_some();
                if delegated && has_coupling && rapier_pipeline_active {
                    let bundle = &mut self.contexts[i];
                    let mut sim = bundle.sim_to_render_time;
                    let gravity = bundle.config.gravity;
                    let mode = bundle.timestep_mode;
                    bundle.context.step_with_coupling(time_delta, gravity, mode, &mut sim);
                    bundle.sim_to_render_time = sim;
                    proof {
                        crate::salva_context::lemma_stepped_preserves_wf(
                            old(self).contexts@[i as int].context,
                            self.contexts@[i as int].context,
                            time_delta as int,
                            gravity,
                            mode,
                            old(self).contexts@[i as int].sim_to_render_time.diff as int,
                            self.contexts@[i as int].sim_to_render_time.diff as int,
                            true,
                        );
                        self.lemma_wf_after_index_preserving_update(*old(self), i as int);
                    }
                    true
                } else {
                    false
                }
            },
            None => false,
        }
    }

    /// Links the single default context to the default rigid-body
    /// engine instance at startup: attaches an empty coupling registry
    /// naming that instance, and copies the instance's gravity into the
    /// context's configuration.  A no-op under
    /// [`SalvaContextInitialization::NoAutomaticSalvaContext`].  With
    /// automatic initialization the linking is owed: it fails exactly
    /// when there is not exactly one default context or the default
    /// context is already coupled, which is fatal at startup.
    pub fn link_default_contexts(
        &mut self,
        initialization: &SalvaContextInitialization,
        rapier_context_entity: u64,
        rapier_gravity: Vect,
    ) -> (r: Result<bool, LinkDefaultContextsError>)
        requires
            old(self).wf(),
        ensures
            final(self).wf(),
            initialization is NoAutomaticSalvaContext ==> r == Ok::<
                bool,
                LinkDefaultContextsError,
            >(false) && *final(self) == *old(self),
            initialization is InitializeDefaultSalvaContext ==> ({
                let i = default_tag_idx(old(self).contexts@);
                let linkable = count_defaults(old(self).contexts@) == 1 && old(self).contexts@[
                    i].coupling is None;
                &&& (r == Ok::<bool, LinkDefaultContextsError>(true)) <==> linkable
                &&& r is Err ==> *final(self) == *old(self)
                &&& linkable ==> {
                    let prevb = old(self).contexts@[i];
                    let nextb = final(self).contexts@[i];
                    &&& final(self).contexts@.len() == old(self).contexts@.len()
                    &&& (forall|j: int|
                        0 <= j < old(self).contexts@.len() && j != i ==> final(self).contexts@[j]
                            == #[trigger] old(self).contexts@[j])
                    &&& nextb.entity == prevb.entity
                    &&& nextb.context == prevb.context
                    &&& nextb.timestep_mode == prevb.timestep_mode
                    &&& nextb.sim_to_render_time == prevb.sim_to_render_time
                    &&& nextb.default_tag == prevb.default_tag
                    &&& nextb.config.gravity == rapier_gravity
                    &&& nextb.config.physics_pipeline_active
                        == prevb.config.physics_pipeline_active
                    &&& nextb.coupling matches Some(c) && c.rapier_context_entity
                        == rapier_context_entity && c.coupling.registered@.len() == 0
                    &&& final(self).collider_boundaries@ == old(self).collider_boundaries@
                }
            }),
    {
        match initialization {
            SalvaContextInitialization::NoAutomaticSalvaContext => Ok(false),
            SalvaContextInitialization::InitializeDefaultSalvaContext { .. } => {
                let target = match self.default_context_entity() {
                    Some(e) => e,
                    None => {
                        return Err(LinkDefaultContextsError::NoUncoupledDefaultContext);
                    },
                };
                let pos = self.context_position(target);
                let i = match pos {
                    Some(i) => i,
                    None => {
                        return Err(LinkDefaultContextsError::NoUncoupledDefaultContext);
                    },
                };
                proof {
                    lemma_ctx_idx_unique(self.contexts@, target, i as int);
                    let tagged = choose|j: int|
                        0 <= j < self.contexts@.len() && (#[trigger] self.contexts@[j]).entity
                            == target && self.contexts@[j].default_tag is Some;
                    assert(0 <= tagged < self.contexts@.len() && self.contexts@[tagged].entity
                        == target && self.contexts@[tagged].default_tag is Some);
                    lemma_ctx_idx_unique(self.contexts@, target, tagged);
                    lemma_unique_default_idx(self.contexts@, i as int);
                }
                if self.contexts[i].coupling.is_some() {
                    return Err(LinkDefaultContextsError::NoUncoupledDefaultContext);
                }
                let bundle = &mut self.contexts[i];
                bundle.coupling = Some(
                    SalvaRapierCoupling { rapier_context_entity, coupling: ColliderCouplingSet::new() },
                );
                bundle.config.gravity = rapier_gravity;
                proof {
                    self.lemma_wf_after_index_preserving_update(*old(self), i as int);
                }
                Ok(true)
            },
        }
    }
}

/// Why startup linking failed: there was not exactly one default
/// context still awaiting a coupling.
#[derive(Clone, Copy, Debug, PartialEq, Eq, Structural)]
pub enum LinkDefaultContextsError {
    /// Zero, several, or only already-coupled default contexts were
    /// found.
    NoUncoupledDefaultContext,
}

/// Law: sampling is idempotent.  A second sampling call for a collider
/// that a first call successfully sampled changes nothing and returns
/// the same boundary handle.
pub proof fn lemma_sampling_idempotent(
    e0: FluidsEngine,
    e1: FluidsEngine,
    e2: FluidsEngine,
    collider_entity: u64,
    collider_handle: u64,
    link: Option<SalvaContextEntityLink>,
    groups: FluidInteractionGroups,
    sampling0: ColliderSampling,
    sampling1: ColliderSampling,
    out: SampledCollider,
    r1: Result<SampledCollider, SampleColliderError>,
)
    requires
        collider_sampled(
            e0,
            e1,
            collider_entity,
            collider_handle,
            link,
            groups,
            sampling0,
            Ok(out),
        ),
        collider_sampled(e1, e2, collider_entity, collider_handle, link, groups, sampling1, r1),
    ensures
        e2 == e1,
        r1 matches Ok(out1) && out1.context_entity == out.context_entity
            && out1.boundary_handle == out.boundary_handle,
{
    if e0.collider_boundaries@.contains_key(collider_entity) {
        assert(e1 == e0);
    } else {
        assert(e1.collider_boundaries@ == e0.collider_boundaries@.insert(
            collider_entity,
            (out.context_entity, out.boundary_handle.0),
        ));
    }
    assert(e1.collider_boundaries@.contains_key(collider_entity));
    assert(e1.collider_boundaries@[collider_entity] == (
        out.context_entity,
        out.boundary_handle.0,
    ));
}

} // verus!
