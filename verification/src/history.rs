//! Per-entity rewind history: a stack of kinematic snapshots, the shared
//! sampling timer, and the entity's current rewind state.

use vstd::prelude::*;
use crate::kinematics::{Snapshot, Transform, Velocity};
use crate::timer::SampleTimer;

verus! {

/// Which rewind authority, if any, currently governs an entity. At most one
/// scope can be active at a time; the illegal "local and global at once"
/// combination is unrepresentable.
#[derive(Clone, Copy, PartialEq, Eq, Structural, Debug)]
pub enum RewindState {
    /// Rest state: motion is governed by input and physics, not playback.
    Idle,
    /// A global rewind command is replaying this entity's history.
    RewindingGlobal,
    /// A player-scoped rewind command is replaying this entity's history.
    RewindingLocal,
    /// An object-scoped rewind command is replaying this entity's history.
    RewindingObject,
}

/// The history attached to every entity that participates in rewind.
///
/// `samples` grows without bound while the entity is idle and strictly
/// shrinks while it rewinds; the unbounded growth is an accepted limitation.
#[derive(Clone, PartialEq, Eq, Debug)]
pub struct History {
    /// Recorded snapshots; appended at the tail, popped from the tail, so the
    /// last state recorded is the first one replayed.
    pub samples: Vec<Snapshot>,
    /// The one timer that gates both recording and playback.
    pub timer: SampleTimer,
    /// The rewind authority currently governing the entity.
    pub rewind_state: RewindState,
}

impl History {
    pub open spec fn wf(self) -> bool {
        self.timer.wf()
    }

    /// A fresh history, as created at entity spawn: no samples, a fresh timer
    /// of the given period, and the entity at rest.
    pub fn new(period: u64) -> (h: History)
        requires
            period > 0,
        ensures
            h.wf(),
            h.samples@ =~= Seq::<Snapshot>::empty(),
            h.timer.period == period,
            h.timer.elapsed == 0,
            h.rewind_state == RewindState::Idle,
    {
        History {
            samples: Vec::new(),
            timer: SampleTimer::new(period),
            rewind_state: RewindState::Idle,
        }
    }

    /// Advance the sampling timer by `dt`; if that completes a period while
    /// the entity is idle, append the current live state to the history.
    /// The rewind state itself is never changed here.
    pub fn record(&mut self, transform: Transform, velocity: Velocity, dt: u64) -> (sampled: bool)
        requires
            old(self).wf(),
            dt <= u64::MAX - old(self).timer.period,
        ensures
            final(self).wf(),
            final(self).timer == old(self).timer.spec_advance(dt),
            final(self).rewind_state == old(self).rewind_state,
            sampled == (old(self).timer.spec_fires(dt)
                && old(self).rewind_state == RewindState::Idle),
            final(self).samples@ == if sampled {
                old(self).samples@.push(Snapshot { transform, velocity })
            } else {
                old(self).samples@
            },
    {
        let fired = self.timer.advance(dt);
        if fired && matches!(self.rewind_state, RewindState::Idle) {
            self.samples.push(Snapshot { transform, velocity });
            true
        } else {
            false
        }
    }

    /// Remove and return the most recently appended snapshot, or `None` when
    /// the history is empty. Timer and rewind state are untouched.
    pub fn pop(&mut self) -> (r: Option<Snapshot>)
        ensures
            final(self).timer == old(self).timer,
            final(self).rewind_state == old(self).rewind_state,
            old(self).samples@.len() > 0 ==> {
                &&& r == Some(old(self).samples@.last())
                &&& final(self).samples@ == old(self).samples@.drop_last()
            },
            old(self).samples@.len() == 0 ==> {
                &&& r is None
                &&& final(self).samples@ == old(self).samples@
            },
    {
        self.samples.pop()
    }
}

} // verus!
