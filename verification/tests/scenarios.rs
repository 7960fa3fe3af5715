use alternating_tiler::decode::decode_event;
use alternating_tiler::dispatch::{dispatch, ReactorState};
use alternating_tiler::event::{DecodeError, EventKind};
use alternating_tiler::policy::Direction;

#[test]
fn wide_focus_change_emits_horizontal() {
    let text = r#"{"data":{"eventType":"focus_changed","focusedContainer":{"width":800,"height":400}}}"#;
    let out = dispatch(ReactorState::AwaitingMessage, decode_event(text));
    assert_eq!(out.command, Some(Direction::Horizontal));
    assert_eq!(out.next, ReactorState::AwaitingMessage);
}

#[test]
fn tall_focus_change_emits_vertical() {
    let text = r#"{"data":{"eventType":"focus_changed","focusedContainer":{"width":400,"height":800}}}"#;
    let out = dispatch(ReactorState::AwaitingMessage, decode_event(text));
    assert_eq!(out.command, Some(Direction::Vertical));
    assert_eq!(out.next, ReactorState::AwaitingMessage);
}

#[test]
fn square_window_after_move_emits_nothing() {
    let text = r#"{"data":{"eventType":"focused_container_moved","focusedContainer":{"type":"split","children":[{"type":"window","hasFocus":false,"width":1,"height":1},{"type":"window","hasFocus":true,"width":500,"height":500}]}}}"#;
    let out = dispatch(ReactorState::AwaitingMessage, decode_event(text));
    assert_eq!(out.command, None);
    assert_eq!(out.next, ReactorState::AwaitingMessage);
}

#[test]
fn moved_event_resolves_the_focused_window() {
    let text = r#"{"data":{"eventType":"focused_container_moved","focusedContainer":{"type":"split","children":[{"type":"window","hasFocus":false,"width":900,"height":100},{"type":"window","hasFocus":true,"width":200,"height":600}]}}}"#;
    let out = dispatch(ReactorState::AwaitingMessage, decode_event(text));
    assert_eq!(out.command, Some(Direction::Vertical));
}

#[test]
fn application_exiting_shuts_the_reactor_down() {
    let text = r#"{"data":{"eventType":"application_exiting"}}"#;
    let out = dispatch(ReactorState::AwaitingMessage, decode_event(text));
    assert_eq!(out.next, ReactorState::Shutdown);
    assert_eq!(out.command, None);
}

#[test]
fn malformed_text_is_skipped_and_the_loop_goes_on() {
    let bad = decode_event("this is not structured data");
    match bad {
        Err(e) => {
            assert_eq!(e, DecodeError::MalformedPayload);
            assert_eq!(e.message(), "malformed event payload");
        },
        Ok(_) => panic!("junk text must not decode"),
    }

    let out = dispatch(ReactorState::AwaitingMessage, decode_event("this is not structured data"));
    assert_eq!(out.next, ReactorState::AwaitingMessage);
    assert_eq!(out.command, None);

    // The next well-formed message is still processed.
    let text = r#"{"data":{"eventType":"focus_changed","focusedContainer":{"width":800,"height":400}}}"#;
    let after = dispatch(out.next, decode_event(text));
    assert_eq!(after.command, Some(Direction::Horizontal));
}

#[test]
fn shutdown_is_terminal() {
    let text = r#"{"data":{"eventType":"focus_changed","focusedContainer":{"width":800,"height":400}}}"#;
    let out = dispatch(ReactorState::Shutdown, decode_event(text));
    assert_eq!(out.next, ReactorState::Shutdown);
    assert_eq!(out.command, None);
}

#[test]
fn unknown_event_types_are_left_alone() {
    let text = r#"{"data":{"eventType":"workspace_activated","focusedContainer":{"width":800,"height":400}}}"#;
    let out = dispatch(ReactorState::AwaitingMessage, decode_event(text));
    assert_eq!(out.next, ReactorState::AwaitingMessage);
    assert_eq!(out.command, None);
}

#[test]
fn missing_event_type_is_left_alone() {
    let out = dispatch(ReactorState::AwaitingMessage, decode_event(r#"{"data":{}}"#));
    assert_eq!(out.next, ReactorState::AwaitingMessage);
    assert_eq!(out.command, None);
    let out2 = dispatch(ReactorState::AwaitingMessage, decode_event(r#"{}"#));
    assert_eq!(out2.next, ReactorState::AwaitingMessage);
    assert_eq!(out2.command, None);
}

#[test]
fn missing_dimensions_are_skipped_silently() {
    let text = r#"{"data":{"eventType":"focus_changed","focusedContainer":{"width":800}}}"#;
    let out = dispatch(ReactorState::AwaitingMessage, decode_event(text));
    assert_eq!(out.command, None);
    assert_eq!(out.next, ReactorState::AwaitingMessage);
}

#[test]
fn missing_container_is_skipped_silently() {
    let text = r#"{"data":{"eventType":"focus_changed"}}"#;
    let out = dispatch(ReactorState::AwaitingMessage, decode_event(text));
    assert_eq!(out.command, None);
    assert_eq!(out.next, ReactorState::AwaitingMessage);
}

#[test]
fn decoded_event_carries_its_kind() {
    let e = decode_event(r#"{"data":{"eventType":"focus_changed"}}"#).unwrap();
    assert_eq!(e.kind, EventKind::FocusChanged);
    let e = decode_event(r#"{"data":{"eventType":"focused_container_moved"}}"#).unwrap();
    assert_eq!(e.kind, EventKind::FocusedContainerMoved);
    let e = decode_event(r#"{"data":{"eventType":"application_exiting"}}"#).unwrap();
    assert_eq!(e.kind, EventKind::ApplicationExiting);
    let e = decode_event(r#"{"data":{"eventType":"something_else"}}"#).unwrap();
    assert_eq!(e.kind, EventKind::Other);
}

#[test]
fn float_formatted_dimensions_still_decide() {
    // The protocol's dimensions are floating-point: fractional, float
    // formatted and exponent-formatted numbers all reach the policy.
    let text = r#"{"data":{"eventType":"focus_changed","focusedContainer":{"width":800.5,"height":400}}}"#;
    let out = dispatch(ReactorState::AwaitingMessage, decode_event(text));
    assert_eq!(out.command, Some(Direction::Horizontal));

    let text = r#"{"data":{"eventType":"focus_changed","focusedContainer":{"width":800.0,"height":400}}}"#;
    let out = dispatch(ReactorState::AwaitingMessage, decode_event(text));
    assert_eq!(out.command, Some(Direction::Horizontal));

    let text = r#"{"data":{"eventType":"focus_changed","focusedContainer":{"width":4e2,"height":800}}}"#;
    let out = dispatch(ReactorState::AwaitingMessage, decode_event(text));
    assert_eq!(out.command, Some(Direction::Vertical));

    // An exact square stays an exact square in either formatting.
    let text = r#"{"data":{"eventType":"focus_changed","focusedContainer":{"width":500.0,"height":500}}}"#;
    let out = dispatch(ReactorState::AwaitingMessage, decode_event(text));
    assert_eq!(out.command, None);
}
