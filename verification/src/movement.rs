//! Input-driven movement for the player entity. Movement is velocity-based:
//! held keys set the velocity directly, and when no horizontal key is held
//! the horizontal velocity is deliberately left under physics control (no
//! zeroing) — the one movement policy this crate implements.

use vstd::prelude::*;
use crate::history::RewindState;
use crate::kinematics::{Player, Velocity};

verus! {

/// The horizontal speed applied while a move key is held for a tick of
/// length `dt`.
pub open spec fn horizontal_speed(speed: i64, dt: u64) -> int {
    (speed as int) * (dt as int) * 30
}

/// The upward impulse applied by a jump for a tick of length `dt`.
pub open spec fn jump_impulse(speed: i64, dt: u64) -> int {
    (speed as int) * (dt as int) * 120
}

/// While a horizontal move key is held and the entity is not in any rewind
/// state, set the horizontal velocity from the player's speed; the right key
/// wins when both are held. Vertical and angular velocity are untouched, and
/// a rewinding entity ignores movement input entirely.
pub fn character_horizontal_movement(
    player: &Player,
    state: RewindState,
    velocity: &mut Velocity,
    right_held: bool,
    left_held: bool,
    dt: u64,
)
    requires
        dt <= i64::MAX,
        -(i64::MAX as int) <= horizontal_speed(player.speed, dt),
        horizontal_speed(player.speed, dt) <= i64::MAX,
    ensures
        final(velocity).linvel.y == old(velocity).linvel.y,
        final(velocity).angvel == old(velocity).angvel,
        final(velocity).linvel.x == if state == RewindState::Idle && right_held {
            horizontal_speed(player.speed, dt)
        } else if state == RewindState::Idle && left_held {
            -horizontal_speed(player.speed, dt)
        } else {
            old(velocity).linvel.x as int
        },
{
    proof {
        lemma_scaled_product_fits(player.speed as int, dt as int, 30);
    }
    let idle = matches!(state, RewindState::Idle);
    if right_held && idle {
        let amount: i64 = player.speed * (dt as i64) * 30;
        velocity.linvel.x = amount;
    } else if left_held && idle {
        let amount: i64 = player.speed * (dt as i64) * 30;
        velocity.linvel.x = -amount;
    }
}

/// While the physics engine reports the entity grounded, a jump key is held,
/// and the entity is not in any rewind state, replace the linear velocity
/// with a purely vertical upward impulse. Angular velocity is untouched.
pub fn character_jump(
    player: &Player,
    state: RewindState,
    grounded: bool,
    jump_held: bool,
    velocity: &mut Velocity,
    dt: u64,
)
    requires
        dt <= i64::MAX,
        -(i64::MAX as int) <= jump_impulse(player.speed, dt),
        jump_impulse(player.speed, dt) <= i64::MAX,
    ensures
        final(velocity).angvel == old(velocity).angvel,
        if grounded && jump_held && state == RewindState::Idle {
            &&& final(velocity).linvel.x == 0
            &&& final(velocity).linvel.y == jump_impulse(player.speed, dt)
        } else {
            final(velocity).linvel == old(velocity).linvel
        },
{
    proof {
        lemma_scaled_product_fits(player.speed as int, dt as int, 120);
    }
    if grounded && jump_held && matches!(state, RewindState::Idle) {
        let amount: i64 = player.speed * (dt as i64) * 120;
        velocity.linvel.x = 0;
        velocity.linvel.y = amount;
    }
}

/// If a product scaled by a positive factor fits in the signed range, the
/// unscaled product fits as well.
proof fn lemma_scaled_product_fits(a: int, b: int, k: int)
    requires
        k >= 1,
        -(i64::MAX as int) <= a * b * k,
        a * b * k <= i64::MAX,
    ensures
        -(i64::MAX as int) <= a * b <= i64::MAX,
{
    assert(-(i64::MAX as int) <= a * b <= i64::MAX) by (nonlinear_arith)
        requires
            k >= 1,
            -(i64::MAX as int) <= a * b * k,
            a * b * k <= i64::MAX,
    ;
}

} // verus!
