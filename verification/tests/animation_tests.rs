//! The underground-base door control: when the door animations start.

use tank_demo::systems::underground_base_control::{
    AnimationState, UndergroundBaseControlSystem, start_animation,
};

const DOORS: [u64; 3] = [10, 11, 12];

/// Entity 0 is scenery; entity 1 is the base's scene node with the door
/// animations and an idle control set.
fn base_state() -> AnimationState {
    AnimationState {
        animation_sets: vec![None, Some(DOORS.to_vec())],
        control_sets: vec![Some(vec![]), Some(vec![])],
    }
}

#[test]
fn holding_the_key_queues_the_door_animations() {
    let mut state = base_state();
    UndergroundBaseControlSystem.run(true, &vec![1], &mut state);
    assert_eq!(state.control_sets[1], Some(DOORS.to_vec()));
    assert_eq!(state.control_sets[0], Some(vec![]));
}

#[test]
fn without_the_key_nothing_is_queued() {
    let mut state = base_state();
    UndergroundBaseControlSystem.run(false, &vec![1], &mut state);
    assert_eq!(state.control_sets[1], Some(vec![]));
}

#[test]
fn a_busy_control_set_is_left_playing() {
    let mut state = base_state();
    state.control_sets[1] = Some(vec![99]);
    UndergroundBaseControlSystem.run(true, &vec![1], &mut state);
    assert_eq!(state.control_sets[1], Some(vec![99]));
}

#[test]
fn a_missing_control_set_is_left_alone() {
    let mut state = base_state();
    state.control_sets[1] = None;
    UndergroundBaseControlSystem.run(true, &vec![1], &mut state);
    assert_eq!(state.control_sets[1], None);
}

#[test]
fn a_node_without_animations_stays_idle() {
    let mut state = base_state();
    UndergroundBaseControlSystem.run(true, &vec![0], &mut state);
    assert_eq!(state.control_sets[0], Some(vec![]));
}

#[test]
fn two_bases_on_one_node_queue_the_animations_once() {
    let mut state = base_state();
    UndergroundBaseControlSystem.run(true, &vec![1, 1], &mut state);
    assert_eq!(state.control_sets[1], Some(DOORS.to_vec()));
}

#[test]
fn starting_appends_the_whole_animation_set() {
    let mut state = base_state();
    start_animation(1, &mut state);
    assert_eq!(state.control_sets[1], Some(DOORS.to_vec()));
    assert_eq!(state.animation_sets[1], Some(DOORS.to_vec()));
}
