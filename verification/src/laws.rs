//! System-level guarantees of the rewind core, stated over the tick model and
//! proved once for all inputs: recording growth, the record/rewind round
//! trip, idempotence of the rest state, global pre-emption, the empty-history
//! fallback, and gravity tracking the rewind state.

use vstd::prelude::*;
use vstd::arithmetic::div_mod::lemma_mod_self_0;
use crate::arbiter::{is_scoped, spec_next_state, RewindInputs};
use crate::entity::{spec_rewind_record_tick, EntityModel};
use crate::history::RewindState;
use crate::kinematics::Snapshot;

verus! {

/// No rewind command at all is held this tick.
pub open spec fn no_rewind_input(inputs: RewindInputs) -> bool {
    &&& !inputs.global_held
    &&& !inputs.local_held
    &&& !inputs.object_held
}

/// `n` consecutive rewind-and-record ticks under the same inputs, with the
/// live state left alone between ticks.
pub open spec fn iterate_ticks(
    m: EntityModel,
    inputs: RewindInputs,
    dt: u64,
    normal_gravity: i64,
    n: nat,
) -> EntityModel
    decreases n,
{
    if n == 0 {
        m
    } else {
        iterate_ticks(
            spec_rewind_record_tick(m, inputs, dt, normal_gravity),
            inputs,
            dt,
            normal_gravity,
            (n - 1) as nat,
        )
    }
}

/// A recording run: before each tick the host's movement and physics set the
/// live state to the next element of `states`, then the rewind-and-record
/// tick runs.
pub open spec fn run_recording(
    m: EntityModel,
    states: Seq<Snapshot>,
    inputs: RewindInputs,
    dt: u64,
    normal_gravity: i64,
) -> EntityModel
    decreases states.len(),
{
    if states.len() == 0 {
        m
    } else {
        let live = EntityModel {
            transform: states[0].transform,
            velocity: states[0].velocity,
            ..m
        };
        run_recording(
            spec_rewind_record_tick(live, inputs, dt, normal_gravity),
            states.drop_first(),
            inputs,
            dt,
            normal_gravity,
        )
    }
}

/// Pure recording grows the history by exactly one sample per tick: starting
/// idle on a period boundary, `n` ticks of elapsed time `n * period` with no
/// rewind command held append exactly `n` samples, leave the entity idle on a
/// period boundary, and never touch the live state.
pub proof fn lemma_recording_growth(
    m: EntityModel,
    inputs: RewindInputs,
    dt: u64,
    normal_gravity: i64,
    n: nat,
)
    requires
        m.wf(),
        m.rewind_state == RewindState::Idle,
        m.timer.elapsed == 0,
        dt == m.timer.period,
        no_rewind_input(inputs),
    ensures
        ({
            let r = iterate_ticks(m, inputs, dt, normal_gravity, n);
            &&& r.wf()
            &&& r.samples.len() == m.samples.len() + n
            &&& r.rewind_state == RewindState::Idle
            &&& r.timer == m.timer
            &&& r.transform == m.transform
            &&& r.velocity == m.velocity
            &&& r.is_player == m.is_player
            &&& n > 0 ==> r.gravity_scale == normal_gravity
            &&& n == 0 ==> r == m
        }),
    decreases n,
{
    if n > 0 {
        let m1 = spec_rewind_record_tick(m, inputs, dt, normal_gravity);
        lemma_mod_self_0(m.timer.period as int);
        assert(m1.timer == m.timer);
        lemma_recording_growth(m1, inputs, dt, normal_gravity, (n - 1) as nat);
    }
}

/// A recording run from an idle entity on a period boundary appends exactly
/// the supplied live states, in order, as snapshots, and leaves the live
/// state at the last element supplied.
pub proof fn lemma_recording_records(
    m: EntityModel,
    states: Seq<Snapshot>,
    inputs: RewindInputs,
    dt: u64,
    normal_gravity: i64,
)
    requires
        m.wf(),
        m.rewind_state == RewindState::Idle,
        m.timer.elapsed == 0,
        dt == m.timer.period,
        no_rewind_input(inputs),
    ensures
        ({
            let r = run_recording(m, states, inputs, dt, normal_gravity);
            &&& r.wf()
            &&& r.samples =~= m.samples + states
            &&& r.rewind_state == RewindState::Idle
            &&& r.timer == m.timer
            &&& r.is_player == m.is_player
            &&& states.len() > 0 ==> r.transform == states.last().transform
                && r.velocity == states.last().velocity
            &&& states.len() == 0 ==> r == m
        }),
    decreases states.len(),
{
    if states.len() > 0 {
        let live = EntityModel {
            transform: states[0].transform,
            velocity: states[0].velocity,
            ..m
        };
        let m1 = spec_rewind_record_tick(live, inputs, dt, normal_gravity);
        lemma_mod_self_0(m.timer.period as int);
        assert(live.live_snapshot() == states[0]);
        assert(m1.samples =~= m.samples.push(states[0]));
        lemma_recording_records(m1, states.drop_first(), inputs, dt, normal_gravity);
        assert(m1.samples + states.drop_first() =~= m.samples + states);
    }
}

/// While a global rewind command is held, each tick on a period boundary pops
/// exactly one snapshot: after `j` ticks the `j` most recent samples are gone
/// and the live state equals the `j`-th most recent sample.
pub proof fn lemma_rewind_drains(
    m: EntityModel,
    inputs: RewindInputs,
    dt: u64,
    normal_gravity: i64,
    j: nat,
)
    requires
        m.wf(),
        m.timer.elapsed == 0,
        dt == m.timer.period,
        inputs.global_held,
        !is_scoped(m.rewind_state),
        j <= m.samples.len(),
    ensures
        ({
            let r = iterate_ticks(m, inputs, dt, normal_gravity, j);
            &&& r.wf()
            &&& r.samples =~= m.samples.take(m.samples.len() - j)
            &&& r.timer == m.timer
            &&& r.is_player == m.is_player
            &&& j > 0 ==> {
                &&& r.rewind_state == RewindState::RewindingGlobal
                &&& r.gravity_scale == 0
                &&& r.transform == m.samples[m.samples.len() - j].transform
                &&& r.velocity == m.samples[m.samples.len() - j].velocity
            }
            &&& j == 0 ==> r == m
        }),
    decreases j,
{
    if j > 0 {
        let m1 = spec_rewind_record_tick(m, inputs, dt, normal_gravity);
        lemma_mod_self_0(m.timer.period as int);
        assert(m1.rewind_state == RewindState::RewindingGlobal);
        assert(m1.samples == m.samples.drop_last());
        lemma_rewind_drains(m1, inputs, dt, normal_gravity, (j - 1) as nat);
        let r = iterate_ticks(m1, inputs, dt, normal_gravity, (j - 1) as nat);
        assert(m1.samples.take(m1.samples.len() - (j - 1)) =~= m.samples.take(
            m.samples.len() - j,
        ));
        if j > 1 {
            assert(m1.samples[m1.samples.len() - (j - 1)] == m.samples[m.samples.len() - j]);
        } else {
            assert(r == m1);
            assert(m.samples.last() == m.samples[m.samples.len() - 1]);
        }
    }
}

/// Round trip: an entity that starts idle with an empty history on a period
/// boundary, records `k >= 1` live states at the sampling cadence, and then
/// holds a global rewind for `k` sample periods, is restored to the live
/// state of `k` periods ago — the first state recorded — with its history
/// empty again.
pub proof fn lemma_round_trip(
    m: EntityModel,
    states: Seq<Snapshot>,
    record_inputs: RewindInputs,
    rewind_inputs: RewindInputs,
    dt: u64,
    normal_gravity: i64,
)
    requires
        m.wf(),
        m.rewind_state == RewindState::Idle,
        m.timer.elapsed == 0,
        m.samples.len() == 0,
        dt == m.timer.period,
        no_rewind_input(record_inputs),
        rewind_inputs.global_held,
        states.len() > 0,
    ensures
        ({
            let recorded = run_recording(m, states, record_inputs, dt, normal_gravity);
            let r = iterate_ticks(recorded, rewind_inputs, dt, normal_gravity, states.len());
            &&& r.samples.len() == 0
            &&& r.transform == states[0].transform
            &&& r.velocity == states[0].velocity
        }),
{
    lemma_recording_records(m, states, record_inputs, dt, normal_gravity);
    let recorded = run_recording(m, states, record_inputs, dt, normal_gravity);
    assert(recorded.samples =~= states);
    lemma_rewind_drains(recorded, rewind_inputs, dt, normal_gravity, states.len());
}

/// Idle is idempotent: while no rewind command is held, the entity stays
/// idle, its live state is never touched, its history only ever grows by
/// normal recording (the old samples stay a prefix), and the gravity scale
/// stays at its normal value.
pub proof fn lemma_idle_idempotent(
    m: EntityModel,
    inputs: RewindInputs,
    dt: u64,
    normal_gravity: i64,
    n: nat,
)
    requires
        m.wf(),
        m.rewind_state == RewindState::Idle,
        no_rewind_input(inputs),
    ensures
        ({
            let r = iterate_ticks(m, inputs, dt, normal_gravity, n);
            &&& r.wf()
            &&& r.rewind_state == RewindState::Idle
            &&& r.transform == m.transform
            &&& r.velocity == m.velocity
            &&& m.samples.is_prefix_of(r.samples)
            &&& n > 0 ==> r.gravity_scale == normal_gravity
            &&& n == 0 ==> r == m
        }),
    decreases n,
{
    if n > 0 {
        let m1 = spec_rewind_record_tick(m, inputs, dt, normal_gravity);
        assert(m1.rewind_state == RewindState::Idle);
        assert(m1.wf());
        lemma_idle_idempotent(m1, inputs, dt, normal_gravity, (n - 1) as nat);
        let r = iterate_ticks(m1, inputs, dt, normal_gravity, (n - 1) as nat);
        assert(m1.samples.take(m.samples.len() as int) =~= m.samples);
        assert(r.samples.take(m.samples.len() as int) =~= m.samples);
    }
}

/// Mutual exclusion: when the global command and the entity's own scoped
/// command are both held for an entity with history that is not already in a
/// scoped rewind, the arbiter picks the global rewind — never the scoped one.
pub proof fn lemma_global_preempts(
    state: RewindState,
    has_samples: bool,
    inputs: RewindInputs,
    is_player: bool,
)
    requires
        has_samples,
        inputs.global_held,
        is_player ==> inputs.local_held,
        !is_player ==> inputs.object_held,
        !is_scoped(state),
    ensures
        spec_next_state(state, has_samples, inputs, is_player)
            == RewindState::RewindingGlobal,
        !is_scoped(spec_next_state(state, has_samples, inputs, is_player)),
{
}

/// Starvation handling: an entity whose history is empty when a rewind
/// command is asserted ends that very tick idle, whatever commands are held —
/// it never sits in a rewind state with nothing to play.
pub proof fn lemma_empty_history_forces_idle(
    m: EntityModel,
    inputs: RewindInputs,
    dt: u64,
    normal_gravity: i64,
)
    requires
        m.samples.len() == 0,
    ensures
        spec_rewind_record_tick(m, inputs, dt, normal_gravity).rewind_state
            == RewindState::Idle,
{
}

/// The gravity scale tracks the rewind state exactly: after any tick it is
/// zero when the entity is rewinding in any scope and the normal value when
/// the entity is idle.
pub proof fn lemma_gravity_tracks_rewind(
    m: EntityModel,
    inputs: RewindInputs,
    dt: u64,
    normal_gravity: i64,
)
    ensures
        ({
            let r = spec_rewind_record_tick(m, inputs, dt, normal_gravity);
            r.gravity_scale == if r.rewind_state == RewindState::Idle {
                normal_gravity
            } else {
                0
            }
        }),
{
}

} // verus!
