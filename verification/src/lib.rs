//! Time-rewind subsystem for a fixed-timestep 2D platformer.
//!
//! Each simulated body records a bounded-cadence history of its transform and
//! velocity; on command, that history is played back in reverse, overriding
//! the normal physics authority for the duration of the rewind. The host
//! engine (rendering, input polling, physics integration, scheduling) lives
//! outside this crate and talks to it through plain values.

pub mod arbiter;
pub mod entity;
pub mod history;
pub mod kinematics;
pub mod laws;
pub mod movement;
pub mod playback;
pub mod timer;
