use bevy_hop::input::{cleanup_timed, handle_input, loading, PickupAction};

#[test]
fn pickup_actions_in_order() {
    assert_eq!(handle_input(false, false, false), vec![]);
    assert_eq!(handle_input(true, false, false), vec![PickupAction::Throw]);
    assert_eq!(handle_input(false, true, true), vec![PickupAction::Drop, PickupAction::Pull]);
    assert_eq!(handle_input(false, false, true), vec![PickupAction::Pull]);
    assert_eq!(
        handle_input(true, true, true),
        vec![PickupAction::Throw, PickupAction::Drop, PickupAction::Pull]
    );
}

#[test]
fn timed_entities_go_when_their_timer_runs_out() {
    assert!(cleanup_timed(true, true));
    assert!(!cleanup_timed(false, true));
    assert!(!cleanup_timed(true, false));
    assert!(!cleanup_timed(false, false));
}

#[test]
fn loading_needs_everything_in_place() {
    assert!(loading(true, true, true, false));
    assert!(!loading(true, true, true, true));
    assert!(!loading(false, true, true, false));
    assert!(!loading(true, false, true, false));
    assert!(!loading(true, true, false, false));
}
