use actors::{Continue, Message, Reject, Shutdown, Start, Timeout};

struct TestMessage {
    value: i32,
}

impl Message for TestMessage {}

#[test]
fn test_downcast() {
    let msg = TestMessage { value: 42 };
    let any_ref: &dyn std::any::Any = &msg;
    let downcasted = any_ref.downcast_ref::<TestMessage>().unwrap();
    assert_eq!(downcasted.value, 42);
    assert_eq!(downcasted.message_id(), 0);
}

#[test]
fn test_timeout_new() {
    let t = Timeout::new(42);
    assert_eq!(t.id, 42);
}

#[test]
fn test_continue_new() {
    let c = Continue::new(100);
    assert_eq!(c.state, 100);
}

#[test]
fn test_reject_new() {
    let r = Reject::new("Ping", "Unknown message type: Ping", "pong");
    assert_eq!(r.message_type, "Ping");
    assert_eq!(r.reason, "Unknown message type: Ping");
    assert_eq!(r.rejected_by, "pong");
    let d = Reject::default();
    assert_eq!(d.message_type, "");
}

#[test]
fn test_builtin_messages_have_no_id() {
    assert_eq!(Start.message_id(), 0);
    assert_eq!(Shutdown.message_id(), 0);
    assert_eq!(Timeout::new(1).message_id(), 0);
}

#[test]
fn test_timeout_on_tick() {
    assert_eq!(Timeout::on_tick(true, 7).map(|t| t.id), Some(7));
    assert!(Timeout::on_tick(false, 7).is_none());
}
