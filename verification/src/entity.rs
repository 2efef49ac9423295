//! The per-entity tick driver: one arbiter evaluation followed by exactly one
//! timer-gated action — playback while rewinding, recording while idle — so
//! that recording and playback never both act on the same entity in the same
//! tick and the shared timer advances exactly once per tick.

use vstd::prelude::*;
use crate::arbiter::{arbitrate, spec_next_state, RewindInputs};
use crate::history::{History, RewindState};
use crate::kinematics::{Snapshot, Transform, Velocity};
use crate::playback::playback_tick;
use crate::timer::SampleTimer;

verus! {

/// Everything the rewind core owns or overwrites for one entity: the live
/// kinematic state, the gravity scale, the history, and whether the entity
/// is the player (which decides which scoped rewind command addresses it).
pub struct EntityCore {
    pub transform: Transform,
    pub velocity: Velocity,
    pub gravity_scale: i64,
    pub history: History,
    pub is_player: bool,
}

/// The mathematical model of one entity's rewind-relevant state.
#[verifier::ext_equal]
pub ghost struct EntityModel {
    pub transform: Transform,
    pub velocity: Velocity,
    pub gravity_scale: i64,
    pub samples: Seq<Snapshot>,
    pub timer: SampleTimer,
    pub rewind_state: RewindState,
    pub is_player: bool,
}

impl EntityModel {
    pub open spec fn wf(self) -> bool {
        self.timer.wf()
    }

    /// The snapshot of this entity's current live state.
    pub open spec fn live_snapshot(self) -> Snapshot {
        Snapshot { transform: self.transform, velocity: self.velocity }
    }
}

impl View for EntityCore {
    type V = EntityModel;

    open spec fn view(&self) -> EntityModel {
        EntityModel {
            transform: self.transform,
            velocity: self.velocity,
            gravity_scale: self.gravity_scale,
            samples: self.history.samples@,
            timer: self.history.timer,
            rewind_state: self.history.rewind_state,
            is_player: self.is_player,
        }
    }
}

impl EntityCore {
    pub open spec fn wf(self) -> bool {
        self@.wf()
    }

    /// A freshly spawned entity: the given live state, normal gravity, an
    /// empty history with a fresh timer, and the rest state.
    pub fn spawn(
        transform: Transform,
        velocity: Velocity,
        normal_gravity: i64,
        period: u64,
        is_player: bool,
    ) -> (e: EntityCore)
        requires
            period > 0,
        ensures
            e.wf(),
            e@.transform == transform,
            e@.velocity == velocity,
            e@.gravity_scale == normal_gravity,
            e@.samples =~= Seq::<Snapshot>::empty(),
            e@.timer.period == period,
            e@.timer.elapsed == 0,
            e@.rewind_state == RewindState::Idle,
            e@.is_player == is_player,
    {
        EntityCore {
            transform,
            velocity,
            gravity_scale: normal_gravity,
            history: History::new(period),
            is_player,
        }
    }
}

/// The model of one rewind-and-record tick: the arbiter decides the rewind
/// state and gravity; the shared timer advances once by `dt`; when the timer
/// fires, a rewinding entity replays its most recent snapshot and an idle
/// entity records its live state.
pub open spec fn spec_rewind_record_tick(
    m: EntityModel,
    inputs: RewindInputs,
    dt: u64,
    normal_gravity: i64,
) -> EntityModel {
    let state = spec_next_state(m.rewind_state, m.samples.len() > 0, inputs, m.is_player);
    let gravity = if state == RewindState::Idle { normal_gravity } else { 0 };
    let timer = m.timer.spec_advance(dt);
    let fired = m.timer.spec_fires(dt);
    if state != RewindState::Idle {
        if fired && m.samples.len() > 0 {
            EntityModel {
                transform: m.samples.last().transform,
                velocity: m.samples.last().velocity,
                gravity_scale: gravity,
                samples: m.samples.drop_last(),
                timer,
                rewind_state: state,
                is_player: m.is_player,
            }
        } else {
            EntityModel { gravity_scale: gravity, timer, rewind_state: state, ..m }
        }
    } else {
        let samples = if fired {
            m.samples.push(m.live_snapshot())
        } else {
            m.samples
        };
        EntityModel {
            gravity_scale: gravity,
            samples,
            timer,
            rewind_state: RewindState::Idle,
            ..m
        }
    }
}

/// Run the rewind half of one simulation tick for one entity, after movement
/// and physics integration have produced this tick's live state: re-arbitrate
/// the rewind state, then either play back or record, gated by the shared
/// timer. Exactly the model `spec_rewind_record_tick` describes.
pub fn rewind_record_tick(
    e: &mut EntityCore,
    inputs: RewindInputs,
    dt: u64,
    normal_gravity: i64,
)
    requires
        old(e).wf(),
        dt <= u64::MAX - old(e)@.timer.period,
    ensures
        final(e).wf(),
        final(e)@ =~= spec_rewind_record_tick(old(e)@, inputs, dt, normal_gravity),
{
    arbitrate(&mut e.history, &mut e.gravity_scale, inputs, e.is_player, normal_gravity);
    if matches!(e.history.rewind_state, RewindState::Idle) {
        let transform = e.transform;
        let velocity = e.velocity;
        e.history.record(transform, velocity, dt);
    } else {
        playback_tick(&mut e.history, &mut e.transform, &mut e.velocity, dt);
    }
}

} // verus!
