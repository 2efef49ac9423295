//! The rewind-mode arbiter: decides, once per entity per tick, which rewind
//! authority governs the entity, and forces the gravity scale to track that
//! decision.

use vstd::prelude::*;
use crate::history::{History, RewindState};

verus! {

/// The rewind commands currently held, as polled by the host this tick.
/// Local commands address only the player entity; object commands address
/// only non-player entities; global commands address every entity.
#[derive(Clone, Copy, PartialEq, Eq, Structural, Debug)]
pub struct RewindInputs {
    pub global_held: bool,
    pub local_held: bool,
    pub object_held: bool,
}

/// Whether a state is one of the two entity-scoped rewind modes.
pub open spec fn is_scoped(state: RewindState) -> bool {
    state == RewindState::RewindingLocal || state == RewindState::RewindingObject
}

/// The rewind input that addresses this particular entity's scope.
pub open spec fn scope_input(inputs: RewindInputs, is_player: bool) -> bool {
    if is_player {
        inputs.local_held
    } else {
        inputs.object_held
    }
}

/// The scoped rewind state this particular entity can enter.
pub open spec fn scoped_state(is_player: bool) -> RewindState {
    if is_player {
        RewindState::RewindingLocal
    } else {
        RewindState::RewindingObject
    }
}

/// The arbiter's decision, in priority order:
///
/// 1. a held global command claims any entity with history that is not
///    already in a scoped rewind;
/// 2. otherwise a held scope command claims its own entities with history,
///    unless a global rewind already governs them;
/// 3. otherwise the entity is idle.
///
/// An entity with no recorded samples always falls back to idle, whatever is
/// held: rewind never starts, nor continues, with nothing to play.
pub open spec fn spec_next_state(
    state: RewindState,
    has_samples: bool,
    inputs: RewindInputs,
    is_player: bool,
) -> RewindState {
    if inputs.global_held && has_samples && !is_scoped(state) {
        RewindState::RewindingGlobal
    } else if scope_input(inputs, is_player) && has_samples
        && state != RewindState::RewindingGlobal {
        scoped_state(is_player)
    } else {
        RewindState::Idle
    }
}

/// Executable form of the arbiter's decision rule.
pub fn next_rewind_state(
    state: RewindState,
    has_samples: bool,
    inputs: RewindInputs,
    is_player: bool,
) -> (r: RewindState)
    ensures
        r == spec_next_state(state, has_samples, inputs, is_player),
{
    let scoped_now = matches!(state, RewindState::RewindingLocal | RewindState::RewindingObject);
    let in_global = matches!(state, RewindState::RewindingGlobal);
    let scope_held = if is_player { inputs.local_held } else { inputs.object_held };
    if inputs.global_held && has_samples && !scoped_now {
        RewindState::RewindingGlobal
    } else if scope_held && has_samples && !in_global {
        if is_player {
            RewindState::RewindingLocal
        } else {
            RewindState::RewindingObject
        }
    } else {
        RewindState::Idle
    }
}

/// Re-evaluate the entity's rewind state from this tick's inputs and set the
/// gravity scale accordingly: zero throughout any active rewind, the normal
/// scale the instant the entity is idle again. This is the arbiter's sole
/// physics side effect; samples and timer are untouched.
pub fn arbitrate(
    history: &mut History,
    gravity_scale: &mut i64,
    inputs: RewindInputs,
    is_player: bool,
    normal_gravity: i64,
)
    ensures
        final(history).samples@ == old(history).samples@,
        final(history).timer == old(history).timer,
        final(history).rewind_state == spec_next_state(
            old(history).rewind_state,
            old(history).samples@.len() > 0,
            inputs,
            is_player,
        ),
        *final(gravity_scale) == if final(history).rewind_state == RewindState::Idle {
            normal_gravity
        } else {
            0
        },
{
    let has_samples = history.samples.len() > 0;
    let next = next_rewind_state(history.rewind_state, has_samples, inputs, is_player);
    history.rewind_state = next;
    if matches!(next, RewindState::Idle) {
        *gravity_scale = normal_gravity;
    } else {
        *gravity_scale = 0;
    }
}

} // verus!
