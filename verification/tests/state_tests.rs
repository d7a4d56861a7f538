//! The Service State Inspector's mapping from captured text to states.

use tickle::state::{get_state, ServiceState};

#[test]
fn active_maps_to_active() {
    assert_eq!(get_state(&b"active".to_vec()), ServiceState::Active);
}

#[test]
fn inactive_maps_to_inactive() {
    assert_eq!(get_state(&b"inactive".to_vec()), ServiceState::Inactive);
}

#[test]
fn failed_maps_to_failed() {
    assert_eq!(get_state(&b"failed".to_vec()), ServiceState::Failed);
}

#[test]
fn garbage_maps_to_unknown() {
    assert_eq!(get_state(&b"garbage-text".to_vec()), ServiceState::Unknown);
}

#[test]
fn mapping_trims_whitespace() {
    assert_eq!(get_state(&b"  active \n".to_vec()), ServiceState::Active);
    assert_eq!(get_state(&b"\tinactive\r\n".to_vec()), ServiceState::Inactive);
    assert_eq!(get_state(&b"\n failed \t".to_vec()), ServiceState::Failed);
}

#[test]
fn mapping_is_case_insensitive() {
    assert_eq!(get_state(&b"Active".to_vec()), ServiceState::Active);
    assert_eq!(get_state(&b"INACTIVE".to_vec()), ServiceState::Inactive);
    assert_eq!(get_state(&b"FaIlEd".to_vec()), ServiceState::Failed);
}

#[test]
fn empty_answer_is_unknown() {
    assert_eq!(get_state(&b"".to_vec()), ServiceState::Unknown);
    assert_eq!(get_state(&b"   ".to_vec()), ServiceState::Unknown);
}

#[test]
fn near_miss_is_unknown() {
    assert_eq!(get_state(&b"activating".to_vec()), ServiceState::Unknown);
    assert_eq!(get_state(&b"in active".to_vec()), ServiceState::Unknown);
}
