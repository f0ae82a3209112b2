use axum_maintenance::MaintenanceState;

#[test]
fn new_state_is_off() {
    let state = MaintenanceState::new();
    assert!(!state.status());
}

#[test]
fn default_state_is_off() {
    let state = MaintenanceState::default();
    assert!(!state.status());
}

#[test]
fn enable_turns_on() {
    let mut state = MaintenanceState::new();
    state.enable();
    assert!(state.status());
}

#[test]
fn disable_turns_off() {
    let mut state = MaintenanceState::new();
    state.enable();
    state.disable();
    assert!(!state.status());
}

#[test]
fn enable_twice_stays_on() {
    let mut state = MaintenanceState::new();
    state.enable();
    state.enable();
    assert!(state.status());
}

#[test]
fn disable_twice_stays_off() {
    let mut state = MaintenanceState::new();
    state.enable();
    state.disable();
    state.disable();
    assert!(!state.status());
}

#[test]
fn disable_when_already_off_stays_off() {
    let mut state = MaintenanceState::new();
    state.disable();
    assert!(!state.status());
}

#[test]
fn status_does_not_change_the_flag() {
    let mut state = MaintenanceState::new();
    state.enable();
    assert!(state.status());
    assert!(state.status());
    state.disable();
    assert!(!state.status());
    assert!(!state.status());
}

#[test]
fn flag_made_by_hand_reads_as_made() {
    let on = MaintenanceState { enabled: true };
    let off = MaintenanceState { enabled: false };
    assert!(on.status());
    assert!(!off.status());
}

#[test]
fn toggles_alternate() {
    let mut state = MaintenanceState::new();
    let mut seen = Vec::new();
    for _ in 0..3 {
        state.enable();
        seen.push(state.status());
        state.disable();
        seen.push(state.status());
    }
    assert_eq!(seen, vec![true, false, true, false, true, false]);
}
