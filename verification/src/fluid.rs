//! Per-fluid component types: particle state, rest density, interaction
//! groups, and the one-shot force-edit commands.

use vstd::prelude::*;
use crate::math::Vect;
use crate::math::Scalar;

verus! {

/// Raw encoding of the default rest density, one thousand.
pub const REST_DENSITY_DEFAULT_BITS: u32 = 0x447A_0000;

/// Handle of a live fluid inside its context's simulation world.
///
/// The handle is assigned exactly once, when the fluid is initialized;
/// its presence marks the fluid as live.
#[derive(Clone, Copy, Debug, PartialEq, Eq, Structural)]
pub struct SalvaFluidHandle(pub usize);

/// The particle positions of a fluid, one vector per particle.  Order is
/// significant: the list is aligned one-to-one with the velocity and
/// acceleration lists.
#[derive(Clone, Debug)]
pub struct FluidParticlePositions {
    /// One position per particle.
    pub positions: Vec<Vect>,
}

/// The particle velocities of a fluid, aligned with the positions.
#[derive(Clone, Debug)]
pub struct FluidVelocities(pub Vec<Vect>);

/// The particle accelerations of a fluid, aligned with the positions.
#[derive(Clone, Debug)]
pub struct FluidAccelerations(pub Vec<Vect>);

/// The rest density of a fluid.
#[derive(Clone, Copy, Debug, PartialEq, Eq, Structural)]
pub struct FluidDensity {
    /// Raw encoding of the rest density.
    pub density0: Scalar,
}

impl Default for FluidDensity {
    /// The default rest density is one thousand.
    fn default() -> (r: Self)
        ensures
            r.density0.bits == REST_DENSITY_DEFAULT_BITS,
    {
        FluidDensity { density0: Scalar { bits: REST_DENSITY_DEFAULT_BITS } }
    }
}

/// An owned non-pressure force attached to a fluid (a viscosity term, a
/// surface-tension term, ...).  The force's behaviour lives with the
/// external solver; the engine owns, moves and removes these tokens and
/// the embedder keeps the table from token to solver object.
#[derive(Clone, Copy, Debug, PartialEq, Eq, Structural)]
pub struct NonPressureForce {
    /// Embedder-chosen identifier of the force object.
    pub id: u64,
}

/// The non-pressure forces currently attached to a fluid, in attachment
/// order.
#[derive(Clone, Debug)]
pub struct FluidNonPressureForces(pub Vec<NonPressureForce>);

/// One-shot command: forces to move onto the end of a fluid's force list.
/// The payload is drained the tick it is observed.
#[derive(Clone, Debug)]
pub struct AppendNonPressureForces(pub Vec<NonPressureForce>);

/// One-shot command: positions to remove from a fluid's force list.  The
/// indices are applied one after the other against the progressively
/// shrinking list, in the order given; an index past the end of the
/// current list is skipped.  The payload is cleared the tick it is
/// observed.
#[derive(Clone, Debug)]
pub struct RemoveNonPressureForcesAt(pub Vec<usize>);

/// A bit mask identifying groups for fluid interactions.
#[derive(Clone, Copy, Debug, PartialEq, Eq, Structural)]
pub struct Group {
    /// The raw group bits.
    pub bits: u32,
}

impl Group {
    /// The mask naming only the `n`-th of the thirty-two groups,
    /// counting from one.
    pub fn group(n: u32) -> (r: Group)
        requires
            1 <= n <= 32,
        ensures
            r.bits == 1u32 << ((n - 1) as u32),
    {
        Group { bits: 1u32 << (n - 1) }
    }

    /// All of the groups.
    pub fn all() -> (r: Group)
        ensures
            r.bits == 0xFFFF_FFFFu32,
    {
        Group { bits: 0xFFFF_FFFF }
    }

    /// None of the groups.
    pub fn none() -> (r: Group)
        ensures
            r.bits == 0u32,
    {
        Group { bits: 0 }
    }

    /// The group mask with exactly the given bits.
    pub fn new(bits: u32) -> (r: Group)
        ensures
            r.bits == bits,
    {
        Group { bits }
    }

    /// The raw bits of the mask.
    pub fn bits(self) -> (r: u32)
        ensures
            r == self.bits,
    {
        self.bits
    }

    /// The union of two masks.
    pub fn union(self, rhs: Group) -> (r: Group)
        ensures
            r.bits == (self.bits | rhs.bits),
    {
        Group { bits: self.bits | rhs.bits }
    }
}

impl Default for Group {
    /// By default a fluid is a member of, and filters for, all groups.
    fn default() -> (r: Self)
        ensures
            r.bits == 0xFFFF_FFFFu32,
    {
        Group { bits: 0xFFFF_FFFF }
    }
}

/// Pairwise fluid interaction filtering using bit masks.
///
/// An interaction is allowed between two filters `a` and `b` exactly when
/// the memberships of `a` share a bit with the filter of `b` and the
/// memberships of `b` share a bit with the filter of `a`.
#[derive(Clone, Copy, Debug, PartialEq, Eq, Structural)]
pub struct FluidInteractionGroups {
    /// Groups memberships.
    pub memberships: Group,
    /// Groups filter.
    pub filters: Group,
}

impl FluidInteractionGroups {
    /// Creates a new interaction-groups pair with the given membership
    /// mask and filter mask.
    pub fn new(memberships: Group, filters: Group) -> (r: Self)
        ensures
            r.memberships == memberships,
            r.filters == filters,
    {
        FluidInteractionGroups { memberships, filters }
    }

    /// Whether an interaction is allowed between `self` and `rhs`.
    pub fn allows_interaction(self, rhs: FluidInteractionGroups) -> (r: bool)
        ensures
            r == ((self.memberships.bits & rhs.filters.bits) != 0 && (rhs.memberships.bits
                & self.filters.bits) != 0),
    {
        (self.memberships.bits & rhs.filters.bits) != 0 && (rhs.memberships.bits
            & self.filters.bits) != 0
    }
}

impl Default for FluidInteractionGroups {
    /// By default every interaction is allowed.
    fn default() -> (r: Self)
        ensures
            r.memberships.bits == 0xFFFF_FFFFu32,
            r.filters.bits == 0xFFFF_FFFFu32,
    {
        FluidInteractionGroups { memberships: Group { bits: 0xFFFF_FFFF }, filters: Group {
            bits: 0xFFFF_FFFF,
        } }
    }
}

} // verus!
