use serial_bridge::{ReceiveEvent, ReceivePump, ReceiveState, StopReason};

#[test]
fn forwards_lines_in_order() {
    let mut pump = ReceivePump::new();
    assert!(pump.is_running());
    assert_eq!(pump.handle(ReceiveEvent::Line("one\n".to_string())), Some("one\n".to_string()));
    assert_eq!(pump.handle(ReceiveEvent::Line("two\n".to_string())), Some("two\n".to_string()));
    assert_eq!(pump.current_state(), ReceiveState::Running);
}

#[test]
fn read_error_is_fatal() {
    let mut pump = ReceivePump::new();
    assert_eq!(pump.handle(ReceiveEvent::ReadFailed), None);
    assert_eq!(pump.current_state(), ReceiveState::Stopped(StopReason::ReadFailed));
    assert_eq!(pump.handle(ReceiveEvent::Line("late\n".to_string())), None);
    assert!(!pump.is_running());
    assert_eq!(pump.current_state(), ReceiveState::Stopped(StopReason::ReadFailed));
}

#[test]
fn invalid_text_is_fatal() {
    let mut pump = ReceivePump::new();
    assert_eq!(pump.handle(ReceiveEvent::Line("ok\n".to_string())), Some("ok\n".to_string()));
    assert_eq!(pump.handle(ReceiveEvent::InvalidText), None);
    assert_eq!(pump.handle(ReceiveEvent::Line("after\n".to_string())), None);
    assert_eq!(pump.current_state(), ReceiveState::Stopped(StopReason::InvalidText));
}

#[test]
fn end_of_stream_is_fatal() {
    let mut pump = ReceivePump::new();
    assert_eq!(pump.handle(ReceiveEvent::Closed), None);
    assert_eq!(pump.handle(ReceiveEvent::ReadFailed), None);
    assert_eq!(pump.current_state(), ReceiveState::Stopped(StopReason::StreamClosed));
}

#[test]
fn delivery_failure_is_fatal() {
    let mut pump = ReceivePump::new();
    assert_eq!(pump.handle(ReceiveEvent::DeliveryFailed), None);
    assert_eq!(pump.handle(ReceiveEvent::Line("x\n".to_string())), None);
    assert_eq!(pump.current_state(), ReceiveState::Stopped(StopReason::DeliveryFailed));
}
