//! Rewind playback: the one place permitted to move an entity backward in
//! time, by popping recorded snapshots back into the live state.

use vstd::prelude::*;
use crate::history::{History, RewindState};
use crate::kinematics::{Transform, Velocity};

verus! {

/// Advance the sampling timer by `dt`; when the entity is in any rewind state
/// and a period completes, pop the most recent snapshot and write it back
/// into the live transform and velocity. An empty history leaves the live
/// state alone this tick (the arbiter forces the entity back to idle on its
/// next evaluation). An idle entity only has its timer advanced.
pub fn playback_tick(
    history: &mut History,
    transform: &mut Transform,
    velocity: &mut Velocity,
    dt: u64,
)
    requires
        old(history).wf(),
        dt <= u64::MAX - old(history).timer.period,
    ensures
        final(history).wf(),
        final(history).timer == old(history).timer.spec_advance(dt),
        final(history).rewind_state == old(history).rewind_state,
        ({
            let acted = old(history).rewind_state != RewindState::Idle
                && old(history).timer.spec_fires(dt)
                && old(history).samples@.len() > 0;
            if acted {
                &&& final(history).samples@ == old(history).samples@.drop_last()
                &&& *final(transform) == old(history).samples@.last().transform
                &&& *final(velocity) == old(history).samples@.last().velocity
            } else {
                &&& final(history).samples@ == old(history).samples@
                &&& *final(transform) == *old(transform)
                &&& *final(velocity) == *old(velocity)
            }
        }),
{
    let fired = history.timer.advance(dt);
    if !matches!(history.rewind_state, RewindState::Idle) && fired {
        match history.pop() {
            Some(snapshot) => {
                *transform = snapshot.transform;
                *velocity = snapshot.velocity;
            }
            None => {}
        }
    }
}

} // verus!
