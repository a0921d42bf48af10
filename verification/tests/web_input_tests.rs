use tela::session::CursorKind;
use tela::web_input::{
    browser_pointer, cursor_code, frame_input_token, PointerKind, WebInputError, WebPointerPhase,
};

#[test]
fn frame_input_requires_a_non_zero_presented_token() {
    assert_eq!(frame_input_token(7), Ok(7));
    assert_eq!(frame_input_token(0), Err(WebInputError::MissingFrameToken));
}

#[test]
fn browser_pointer_codes_are_checked_in_order() {
    let packet = browser_pointer(7, 3, 1, 4, (1.5f32, 2.5f32, 0.0f32, -3.0f32), 1, 99).expect("packet");
    assert_eq!(packet.kind, PointerKind::Touch);
    assert_eq!(packet.phase, WebPointerPhase::Scroll);
    assert_eq!(packet.geometry, (1.5, 2.5, 0.0, -3.0));
    assert_eq!((packet.source_frame_token, packet.pointer_id, packet.buttons, packet.timestamp_micros), (7, 3, 1, 99));
    assert_eq!(browser_pointer(0, 3, 9, 9, (), 0, 0).err(), Some(WebInputError::UnsupportedPointerKind(9)));
    assert_eq!(browser_pointer(0, 3, 2, 9, (), 0, 0).err(), Some(WebInputError::UnsupportedPointerPhase(9)));
    assert_eq!(browser_pointer(0, 3, 0, 0, (), 0, 0).err(), Some(WebInputError::MissingFrameToken));
}

#[test]
fn cursor_requests_leave_as_codes() {
    assert_eq!(cursor_code(CursorKind::Default), 0);
    assert_eq!(cursor_code(CursorKind::Text), 1);
    assert_eq!(cursor_code(CursorKind::Pointer), 2);
}
