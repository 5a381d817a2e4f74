//! Per-context configuration: gravity, activity, and the timestep policy.
//!
//! Time is measured in an exact integer unit of [`TIME_UNITS_PER_SECOND`]
//! units per second.  The unit is divisible by the common display and
//! simulation rates, so the usual frame deltas and solver timesteps are
//! represented exactly and the stepping policies are verified exactly;
//! embedders convert between seconds and time units at the boundary.

use vstd::prelude::*;
use crate::math::Scalar;
use crate::math::Vect;

verus! {

/// Number of time units in one second.
pub const TIME_UNITS_PER_SECOND: i64 = 600_000_000;

/// The default cap on the time advanced per tick: one sixtieth of a
/// second.
pub const DEFAULT_MAX_DT: i64 = 10_000_000;

/// Raw encoding of the default downward gravity component.
pub const GRAVITY_DEFAULT_Y_BITS: u32 = 0xC11C_F5C3;

/// An exact non-negative scaling factor `num / den` applied to frame
/// time, controlling whether the simulation advances faster or slower
/// than real time.
#[derive(Clone, Copy, Debug, PartialEq, Eq, Structural)]
pub struct TimeScale {
    /// Numerator of the factor.
    pub num: u32,
    /// Denominator of the factor; at least one.
    pub den: u32,
}

impl TimeScale {
    /// A well-formed scale has a nonzero denominator.
    pub open spec fn wf(self) -> bool {
        self.den >= 1
    }

    /// The scaled value of `t`, in specifications: `t * num / den`,
    /// rounded toward zero.
    pub open spec fn spec_apply(self, t: int) -> int {
        t * (self.num as int) / (self.den as int)
    }

    /// The identity scale.
    pub fn one() -> (r: TimeScale)
        ensures
            r == (TimeScale { num: 1u32, den: 1u32 }),
            r.wf(),
    {
        TimeScale { num: 1, den: 1 }
    }

    /// A scale of `num / den`.
    pub fn new(num: u32, den: u32) -> (r: TimeScale)
        requires
            den >= 1,
        ensures
            r.num == num,
            r.den == den,
            r.wf(),
    {
        TimeScale { num, den }
    }

    /// Scales a non-negative duration.
    pub fn apply(self, t: i64) -> (r: i64)
        requires
            self.wf(),
            t >= 0,
            self.spec_apply(t as int) <= i64::MAX,
        ensures
            r == self.spec_apply(t as int),
            r >= 0,
    {
        proof {
            assert((t as int) * (self.num as int) <= 0x7FFF_FFFF_FFFF_FFFF * 0xFFFF_FFFF
                && (t as int) * (self.num as int) >= 0) by (nonlinear_arith)
                requires
                    0 <= t <= 0x7FFF_FFFF_FFFF_FFFF,
                    0 <= self.num <= 0xFFFF_FFFF,
            ;
        }
        let wide: i128 = (t as i128) * (self.num as i128) / (self.den as i128);
        wide as i64
    }
}

/// How a context's simulation world is advanced each tick, in time
/// units.
#[derive(Clone, Copy, Debug, PartialEq, Eq, Structural)]
pub enum TimestepMode {
    /// Advance by the fixed amount `dt` at each tick, as `substeps`
    /// sub-advances of `dt / substeps` each, regardless of frame time.
    Fixed {
        /// Total time advanced per tick.
        dt: i64,
        /// Number of sub-advances per tick.
        substeps: usize,
    },
    /// Advance by the frame delta scaled by `time_scale`, capped at
    /// `max_dt`, as `substeps` sub-advances.
    Variable {
        /// Cap on the time advanced per tick.
        max_dt: i64,
        /// Scaling applied to the frame delta.
        time_scale: TimeScale,
        /// Number of sub-advances per tick.
        substeps: usize,
    },
    /// Accumulate frame deltas and perform whole advances of
    /// `dt * time_scale` (as `substeps` sub-advances each) while the
    /// accumulator is positive, decoupling the simulation rate from the
    /// rendering rate.  A tick may perform zero, one or many advances.
    Interpolated {
        /// Time advanced by one whole advance, before scaling.
        dt: i64,
        /// Scaling applied to the advance length.
        time_scale: TimeScale,
        /// Number of sub-advances per whole advance.
        substeps: usize,
    },
}

impl TimestepMode {
    /// A well-formed mode has at least one substep, a non-negative
    /// timestep, and a well-formed scale.
    pub open spec fn wf(self) -> bool {
        match self {
            TimestepMode::Fixed { dt, substeps } => substeps >= 1 && dt >= 0,
            TimestepMode::Variable { max_dt, time_scale, substeps } => substeps >= 1 && max_dt
                >= 0 && time_scale.wf(),
            TimestepMode::Interpolated { dt, time_scale, substeps } => substeps >= 1 && dt >= 0
                && time_scale.wf(),
        }
    }
}

impl Default for TimestepMode {
    /// The default policy follows real time, capped at one sixtieth of a
    /// second per tick, in one substep.
    fn default() -> (r: Self)
        ensures
            r == (TimestepMode::Variable {
                max_dt: DEFAULT_MAX_DT,
                time_scale: TimeScale { num: 1u32, den: 1u32 },
                substeps: 1usize,
            }),
            r.wf(),
    {
        TimestepMode::Variable { max_dt: DEFAULT_MAX_DT, time_scale: TimeScale::one(), substeps: 1 }
    }
}

/// Difference between simulation time and render time, used by the
/// interpolated timestep policy as its catch-up accumulator.
#[derive(Clone, Copy, Debug, PartialEq, Eq, Structural)]
pub struct SimulationToRenderTime {
    /// Accumulated render time not yet consumed by simulation advances,
    /// in time units.
    pub diff: i64,
}

impl Default for SimulationToRenderTime {
    /// A fresh accumulator is empty.
    fn default() -> (r: Self)
        ensures
            r.diff == 0,
    {
        SimulationToRenderTime { diff: 0 }
    }
}

/// Configuration carried by every context entity.
#[derive(Clone, Copy, Debug)]
pub struct SalvaConfiguration {
    /// Gravity applied to every advance of this context's world.
    pub gravity: Vect,
    /// `Some(true)`: the context steps itself each tick.  `Some(false)`:
    /// the context is independent but paused.  `None`: stepping is
    /// delegated to an external driver, such as a coupled rigid-body
    /// engine.
    pub physics_pipeline_active: Option<bool>,
}

impl SalvaConfiguration {
    /// A configuration with the given gravity that steps independently.
    pub fn new(gravity: Vect) -> (r: Self)
        ensures
            r.gravity == gravity,
            r.physics_pipeline_active == Some(true),
    {
        SalvaConfiguration { gravity, physics_pipeline_active: Some(true) }
    }

    /// Whether this context steps on its own schedule (active or not),
    /// rather than deferring to an external driver.
    pub fn is_independent(&self) -> (r: bool)
        ensures
            r == self.physics_pipeline_active is Some,
    {
        self.physics_pipeline_active.is_some()
    }

    /// Whether this context steps on its own schedule and is active.
    pub fn physics_is_independently_active(&self) -> (r: bool)
        ensures
            r == (self.physics_pipeline_active == Some(true)),
    {
        match self.physics_pipeline_active {
            Some(active) => active,
            None => false,
        }
    }

    /// Whether post-step particle state should be written back into
    /// component form this tick.  `coupled_active` reports, for a context
    /// whose stepping is delegated to a coupled rigid-body engine,
    /// whether that engine's instance stepped this tick; it is `None`
    /// when no coupling exists.  Writeback happens when the context
    /// stepped independently, or when the coupled instance stepped, and
    /// is otherwise suppressed so that stale solver state never
    /// overwrites component state.
    pub fn should_writeback(&self, coupled_active: Option<bool>) -> (r: bool)
        ensures
            r == (self.physics_pipeline_active == Some(true) || (self.physics_pipeline_active
                is None && coupled_active == Some(true))),
    {
        let independently_active = self.physics_is_independently_active();
        let delegated = !self.is_independent();
        let coupled = match coupled_active {
            Some(active) => active,
            None => false,
        };
        independently_active || (delegated && coupled)
    }
}

impl Default for SalvaConfiguration {
    /// The default configuration: standard downward gravity, stepping
    /// independently and actively.
    fn default() -> (r: Self)
        ensures
            r.gravity == (Vect {
                x: Scalar { bits: 0u32 },
                y: Scalar { bits: GRAVITY_DEFAULT_Y_BITS },
                z: Scalar { bits: 0u32 },
            }),
            r.physics_pipeline_active == Some(true),
    {
        SalvaConfiguration {
            gravity: Vect {
                x: Scalar { bits: 0 },
                y: Scalar { bits: GRAVITY_DEFAULT_Y_BITS },
                z: Scalar { bits: 0 },
            },
            physics_pipeline_active: Some(true),
        }
    }
}

} // verus!
