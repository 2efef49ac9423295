use time_rewind::arbiter::{arbitrate, next_rewind_state, RewindInputs};
use time_rewind::history::{History, RewindState};
use time_rewind::kinematics::{Player, Snapshot, Transform, Vec2, Velocity};
use time_rewind::movement::{character_horizontal_movement, character_jump};
use time_rewind::playback::playback_tick;
use time_rewind::timer::SampleTimer;

fn transform_at(x: i64, y: i64) -> Transform {
    Transform {
        translation: Vec2 { x, y },
        rotation: 0,
    }
}

fn velocity_of(x: i64, y: i64) -> Velocity {
    Velocity {
        linvel: Vec2 { x, y },
        angvel: 0,
    }
}

fn inputs(global_held: bool, local_held: bool, object_held: bool) -> RewindInputs {
    RewindInputs {
        global_held,
        local_held,
        object_held,
    }
}

#[test]
fn timer_fires_on_period_boundary() {
    let mut t = SampleTimer::new(4);
    assert_eq!(t.elapsed, 0);
    assert_eq!(t.period, 4);
    assert!(!t.advance(2));
    assert_eq!(t.elapsed, 2);
    assert!(t.advance(2));
    assert_eq!(t.elapsed, 0);
}

#[test]
fn timer_keeps_overshoot() {
    let mut t = SampleTimer::new(4);
    assert!(t.advance(6));
    assert_eq!(t.elapsed, 2);
    assert!(t.advance(3));
    assert_eq!(t.elapsed, 1);
}

#[test]
fn record_appends_only_when_idle_and_fired() {
    let mut h = History::new(2);
    // timer does not fire: nothing recorded
    assert!(!h.record(transform_at(1, 1), velocity_of(0, 0), 1));
    assert_eq!(h.samples.len(), 0);
    // timer fires while idle: one sample
    assert!(h.record(transform_at(2, 2), velocity_of(3, 0), 1));
    assert_eq!(h.samples.len(), 1);
    assert_eq!(h.samples[0].transform.translation.x, 2);
    assert_eq!(h.samples[0].velocity.linvel.x, 3);
    // timer fires while rewinding: nothing recorded
    h.rewind_state = RewindState::RewindingGlobal;
    assert!(!h.record(transform_at(9, 9), velocity_of(9, 9), 2));
    assert_eq!(h.samples.len(), 1);
}

#[test]
fn pop_is_last_in_first_out() {
    let mut h = History::new(1);
    h.record(transform_at(1, 0), velocity_of(10, 0), 1);
    h.record(transform_at(2, 0), velocity_of(20, 0), 1);
    let first = h.pop().unwrap();
    assert_eq!(first.transform.translation.x, 2);
    assert_eq!(first.velocity.linvel.x, 20);
    let second = h.pop().unwrap();
    assert_eq!(second.transform.translation.x, 1);
    assert!(h.pop().is_none());
    assert_eq!(h.samples.len(), 0);
}

#[test]
fn arbiter_rests_without_input() {
    let state = next_rewind_state(RewindState::Idle, true, inputs(false, false, false), true);
    assert_eq!(state, RewindState::Idle);
}

#[test]
fn arbiter_enters_global_for_any_entity() {
    assert_eq!(
        next_rewind_state(RewindState::Idle, true, inputs(true, false, false), true),
        RewindState::RewindingGlobal
    );
    assert_eq!(
        next_rewind_state(RewindState::Idle, true, inputs(true, false, false), false),
        RewindState::RewindingGlobal
    );
}

#[test]
fn arbiter_scopes_local_to_player_only() {
    assert_eq!(
        next_rewind_state(RewindState::Idle, true, inputs(false, true, false), true),
        RewindState::RewindingLocal
    );
    assert_eq!(
        next_rewind_state(RewindState::Idle, true, inputs(false, true, false), false),
        RewindState::Idle
    );
}

#[test]
fn arbiter_scopes_object_to_non_player_only() {
    assert_eq!(
        next_rewind_state(RewindState::Idle, true, inputs(false, false, true), false),
        RewindState::RewindingObject
    );
    assert_eq!(
        next_rewind_state(RewindState::Idle, true, inputs(false, false, true), true),
        RewindState::Idle
    );
}

#[test]
fn arbiter_global_release_goes_idle_even_with_scope_held() {
    let both = inputs(false, true, false);
    // a global rewind ends on release; the scoped command does not take over
    // until the entity has passed through idle
    assert_eq!(
        next_rewind_state(RewindState::RewindingGlobal, true, both, true),
        RewindState::Idle
    );
}

#[test]
fn arbiter_keeps_scoped_rewind_against_late_global() {
    let both = inputs(true, true, false);
    // an already-running scoped rewind is not stolen by a later global press
    assert_eq!(
        next_rewind_state(RewindState::RewindingLocal, true, both, true),
        RewindState::RewindingLocal
    );
}

#[test]
fn arbitrate_sets_gravity_with_state() {
    let mut h = History::new(1);
    h.record(transform_at(5, 5), velocity_of(0, 0), 1);
    let mut gravity: i64 = 10;
    arbitrate(&mut h, &mut gravity, inputs(true, false, false), false, 10);
    assert_eq!(h.rewind_state, RewindState::RewindingGlobal);
    assert_eq!(gravity, 0);
    assert_eq!(h.samples.len(), 1);
    arbitrate(&mut h, &mut gravity, inputs(false, false, false), false, 10);
    assert_eq!(h.rewind_state, RewindState::Idle);
    assert_eq!(gravity, 10);
}

#[test]
fn playback_pops_into_live_state() {
    let mut h = History::new(1);
    h.record(transform_at(7, -3), velocity_of(4, 5), 1);
    h.rewind_state = RewindState::RewindingLocal;
    let mut t = transform_at(100, 100);
    let mut v = velocity_of(0, 0);
    playback_tick(&mut h, &mut t, &mut v, 1);
    assert_eq!(t.translation.x, 7);
    assert_eq!(t.translation.y, -3);
    assert_eq!(v.linvel.x, 4);
    assert_eq!(v.linvel.y, 5);
    assert_eq!(h.samples.len(), 0);
}

#[test]
fn playback_leaves_idle_entity_alone() {
    let mut h = History::new(1);
    h.record(transform_at(7, -3), velocity_of(4, 5), 1);
    let mut t = transform_at(100, 100);
    let mut v = velocity_of(0, 0);
    playback_tick(&mut h, &mut t, &mut v, 1);
    assert_eq!(t.translation.x, 100);
    assert_eq!(v.linvel.x, 0);
    assert_eq!(h.samples.len(), 1);
}

#[test]
fn playback_on_empty_history_changes_nothing() {
    let mut h = History::new(1);
    h.rewind_state = RewindState::RewindingGlobal;
    let mut t = transform_at(8, 9);
    let mut v = velocity_of(1, 2);
    playback_tick(&mut h, &mut t, &mut v, 1);
    assert_eq!(t.translation.x, 8);
    assert_eq!(v.linvel.x, 1);
}

#[test]
fn horizontal_movement_exact_speed() {
    let player = Player { speed: 300 };
    let mut v = velocity_of(0, 17);
    character_horizontal_movement(&player, RewindState::Idle, &mut v, true, false, 1);
    assert_eq!(v.linvel.x, 9000);
    assert_eq!(v.linvel.y, 17);
    character_horizontal_movement(&player, RewindState::Idle, &mut v, false, true, 1);
    assert_eq!(v.linvel.x, -9000);
}

#[test]
fn horizontal_movement_right_wins_and_idle_keeps_velocity() {
    let player = Player { speed: 300 };
    let mut v = velocity_of(123, 0);
    character_horizontal_movement(&player, RewindState::Idle, &mut v, true, true, 1);
    assert_eq!(v.linvel.x, 9000);
    // no key held: horizontal velocity stays under physics control
    let mut w = velocity_of(123, 0);
    character_horizontal_movement(&player, RewindState::Idle, &mut w, false, false, 1);
    assert_eq!(w.linvel.x, 123);
}

#[test]
fn movement_ignored_while_rewinding() {
    let player = Player { speed: 300 };
    let mut v = velocity_of(5, 6);
    character_horizontal_movement(
        &player,
        RewindState::RewindingLocal,
        &mut v,
        true,
        false,
        1,
    );
    assert_eq!(v.linvel.x, 5);
    character_jump(&player, RewindState::RewindingGlobal, true, true, &mut v, 1);
    assert_eq!(v.linvel.x, 5);
    assert_eq!(v.linvel.y, 6);
}

#[test]
fn jump_sets_vertical_impulse_when_grounded() {
    let player = Player { speed: 300 };
    let mut v = velocity_of(9000, 0);
    character_jump(&player, RewindState::Idle, true, true, &mut v, 1);
    assert_eq!(v.linvel.x, 0);
    assert_eq!(v.linvel.y, 36000);
    // airborne: no jump
    let mut w = velocity_of(1, 2);
    character_jump(&player, RewindState::Idle, false, true, &mut w, 1);
    assert_eq!(w.linvel.y, 2);
}

#[test]
fn snapshot_holds_both_halves() {
    let s = Snapshot {
        transform: transform_at(1, 2),
        velocity: velocity_of(3, 4),
    };
    assert_eq!(s.transform.rotation, 0);
    assert_eq!(s.velocity.angvel, 0);
}
