use tela::touch::{PointerPhase, TouchAdapter, TouchPhase, NO_BUTTONS, PRIMARY_BUTTON};

#[test]
fn every_touch_phase_is_forwarded_immediately_without_gesture_preclassification() {
    let mut adapter = TouchAdapter::new();
    let down = adapter.handle_at(7, TouchPhase::Started, (20.0f32, 30.0f32), 10);
    let moved = adapter.handle_at(7, TouchPhase::Moved, (24.0, 33.0), 20);
    let up = adapter.handle_at(7, TouchPhase::Ended, (24.0, 33.0), 30);
    assert_eq!(down.phase, PointerPhase::Down);
    assert_eq!(down.buttons, PRIMARY_BUTTON);
    assert_eq!(moved.phase, PointerPhase::Move);
    assert_eq!(up.phase, PointerPhase::Up);
    assert_eq!(moved.pointer_id, 7);
    assert_eq!((moved.position.0, moved.position.1, moved.timestamp_micros), (24.0, 33.0, 20));
    assert_eq!(adapter.handle(8, TouchPhase::Cancelled, (1.0, 2.0)).phase, PointerPhase::Cancel);
}

#[test]
fn simultaneous_pointers_are_preserved_and_lifecycle_reset_cancels_each_one() {
    let mut adapter = TouchAdapter::new();
    let _ = adapter.handle_at(1, TouchPhase::Started, (10.0f32, 20.0f32), 10);
    let _ = adapter.handle_at(2, TouchPhase::Started, (30.0, 40.0), 11);
    let _ = adapter.handle_at(1, TouchPhase::Moved, (12.0, 22.0), 12);
    let cancelled = adapter.cancel_all();
    assert_eq!(cancelled.len(), 2);
    assert_eq!(cancelled[0].pointer_id, 1);
    assert_eq!((cancelled[0].position.0, cancelled[0].position.1), (12.0, 22.0));
    assert_eq!(cancelled[1].pointer_id, 2);
    assert!(cancelled.iter().all(|event| event.phase == PointerPhase::Cancel));
}

#[test]
fn each_touch_phase_is_delivered_as_the_same_raw_sequence() {
    let mut adapter = TouchAdapter::new();
    let down = adapter.handle_at(7, TouchPhase::Started, (20.0f32, 30.0f32), 10);
    let moved = adapter.handle_at(7, TouchPhase::Moved, (24.0, 33.0), 20);
    let up = adapter.handle_at(7, TouchPhase::Ended, (24.0, 33.0), 30);
    assert_eq!(down.phase, PointerPhase::Down);
    assert_eq!(moved.phase, PointerPhase::Move);
    assert_eq!(up.phase, PointerPhase::Up);
    assert_eq!(down.buttons, PRIMARY_BUTTON);
    assert_eq!(up.buttons, NO_BUTTONS);
    assert_eq!(moved.pointer_id, 7);
    assert_eq!(moved.position, (24.0, 33.0));
    assert_eq!(moved.timestamp_micros, 20);
}

#[test]
fn simultaneous_touches_survive_and_lifecycle_reset_cancels_each_one() {
    let mut adapter = TouchAdapter::new();
    let _ = adapter.handle_at(1, TouchPhase::Started, (10.0f32, 20.0f32), 10);
    let _ = adapter.handle_at(2, TouchPhase::Started, (30.0, 40.0), 11);
    let _ = adapter.handle_at(1, TouchPhase::Moved, (12.0, 22.0), 12);
    let cancelled = adapter.cancel_all();
    assert_eq!(cancelled.len(), 2);
    assert_eq!(cancelled[0].pointer_id, 1);
    assert_eq!(cancelled[0].position, (12.0, 22.0));
    assert_eq!(cancelled[1].pointer_id, 2);
    assert!(cancelled.iter().all(|event| event.phase == PointerPhase::Cancel && event.buttons == NO_BUTTONS));
}

#[test]
fn ended_touches_are_not_cancelled_again_and_cancel_all_empties() {
    let mut adapter = TouchAdapter::new();
    let _ = adapter.handle_at(5, TouchPhase::Started, (1u8, 1u8), 1);
    let _ = adapter.handle_at(3, TouchPhase::Started, (2u8, 2u8), 2);
    let _ = adapter.handle_at(5, TouchPhase::Ended, (1u8, 1u8), 3);
    let cancelled = adapter.cancel_all_at(99);
    assert_eq!(cancelled.len(), 1);
    assert_eq!(cancelled[0].pointer_id, 3);
    assert_eq!(cancelled[0].timestamp_micros, 99);
    assert!(adapter.cancel_all_at(100).is_empty());
}
