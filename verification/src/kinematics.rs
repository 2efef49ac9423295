//! Plain-value kinematic state: the parts of an entity's live physics state
//! that the rewind core reads and overwrites. The host engine converts its own
//! transform and velocity representations to and from these.

use vstd::prelude::*;

verus! {

/// A two-dimensional vector with integer components.
#[derive(Clone, Copy, PartialEq, Eq, Structural, Debug)]
pub struct Vec2 {
    pub x: i64,
    pub y: i64,
}

/// An entity's pose: translation plus a scalar rotation.
#[derive(Clone, Copy, PartialEq, Eq, Structural, Debug)]
pub struct Transform {
    pub translation: Vec2,
    pub rotation: i64,
}

/// An entity's velocity: linear velocity plus angular velocity.
#[derive(Clone, Copy, PartialEq, Eq, Structural, Debug)]
pub struct Velocity {
    pub linvel: Vec2,
    pub angvel: i64,
}

/// One recorded `(transform, velocity)` pair for one entity at one sampling
/// instant.
#[derive(Clone, Copy, PartialEq, Eq, Structural, Debug)]
pub struct Snapshot {
    pub transform: Transform,
    pub velocity: Velocity,
}

/// Marker data for the player-controlled entity; `speed` scales both
/// horizontal movement and the jump impulse.
#[derive(Clone, Copy, PartialEq, Eq, Structural, Debug)]
pub struct Player {
    pub speed: i64,
}

} // verus!
