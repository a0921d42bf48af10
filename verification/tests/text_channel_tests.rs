use tela::text_channel::{
    finish_after_back, system_back_action, system_back_code, ControlledTextSync,
    NativeBridgeState, SystemBackAction, BACK_BLURRED_TEXT_INPUT, BACK_DISPATCHED_TO_GUEST,
    BACK_NOT_DELIVERED,
};

#[test]
fn guest_and_native_always_exchange_the_complete_value() {
    let mut sync = ControlledTextSync::default();
    assert!(sync.publish_guest(true, "架构"));
    assert_eq!(sync.snapshot().value, "架构");
    assert!(sync.accept_native_value("架构迭代".to_owned()));
    assert_eq!(sync.snapshot().value, "架构迭代");
    assert!(!sync.accept_native_value("架构迭代".to_owned()));
}

#[test]
fn composition_markers_are_balanced_without_affecting_the_value() {
    let mut sync = ControlledTextSync::default();
    assert!(sync.begin_composition());
    assert!(!sync.begin_composition());
    assert!(sync.end_composition());
    assert!(!sync.end_composition());
    assert!(sync.snapshot().value.is_empty());
}

#[test]
fn republishing_the_same_guest_state_changes_nothing() {
    let mut sync = ControlledTextSync::default();
    assert!(sync.publish_guest(true, "a"));
    assert!(!sync.publish_guest(true, "a"));
    assert!(sync.publish_guest(false, "a"));
    assert!(!sync.snapshot().focused);
}

#[test]
fn a_finish_request_is_consumed_once() {
    let mut bridge = NativeBridgeState::default();
    assert!(!bridge.consume_finish_request());
    bridge.request_activity_finish();
    assert!(bridge.consume_finish_request());
    assert!(!bridge.consume_finish_request());
}

#[test]
fn system_back_codes_and_actions() {
    assert_eq!(system_back_code(true, true), BACK_BLURRED_TEXT_INPUT);
    assert_eq!(system_back_code(false, true), BACK_DISPATCHED_TO_GUEST);
    assert_eq!(system_back_code(true, false), BACK_NOT_DELIVERED);
    assert_eq!(system_back_action(false, true), SystemBackAction::FinishActivity);
    assert!(finish_after_back(false, false));
    assert!(!finish_after_back(true, false));
}
