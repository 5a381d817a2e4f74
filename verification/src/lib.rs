//! Verified core of a particle-fluid simulation plugin.
//!
//! The crate implements the lifecycle and synchronization engine that sits
//! between an entity-component world and an external smoothed-particle
//! fluid solver: it creates and destroys fluids in response to component
//! changes, applies queued user edits, schedules solver steps under a
//! configurable timestep policy, writes solver results back into component
//! form, and maintains the coupling table that turns rigid-body colliders
//! into fluid boundaries.
//!
//! The numerical solver itself is an external collaborator.  The library
//! models it by its observable contents: the particle state it was given,
//! and the exact trace of `step` calls it received.  Real-valued particle
//! data is carried as opaque 32-bit encodings ([`math::Scalar`]) that the
//! engine moves, counts and zeroes but never computes on; time is carried
//! in an exact integer unit ([`configuration::TIME_UNITS_PER_SECOND`]) so
//! that the stepping policies are verified exactly.

pub mod configuration;
pub mod engine;
pub mod fluid;
pub mod math;
pub mod rapier_integration;
pub mod salva_context;
pub mod world;
