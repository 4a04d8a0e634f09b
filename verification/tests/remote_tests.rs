use std::sync::mpsc::channel;
use std::sync::Arc;

use actors::remote::{bind_address, connect_address};
use actors::{
    after_connect, push_plan, ActorRef, ActorRegistry, Envelope, Incoming, Message, NameMap,
    Poll, PushStep, RemoteActorRef, SendRequest, WireEnvelope, WirePayload, ZmqReceiver, ZmqSender,
};

#[derive(Debug, Clone, PartialEq)]
enum Payload {
    Ping(i64),
    Local(i64),
}

impl Message for Payload {
    fn wire_payload(&self) -> Option<WirePayload> {
        match self {
            Payload::Ping(n) => Some(WirePayload {
                message_type: "Ping".to_string(),
                message: format!("{{\"count\":{}}}", n),
            }),
            Payload::Local(_) => None,
        }
    }
}

#[test]
fn test_remote_actor_ref_creation() {
    let (sender, _queue) = ZmqSender::with_queue("tcp://0.0.0.0:5555");
    let sender = Arc::new(sender);
    let remote_ref = RemoteActorRef::new("test_actor", "tcp://localhost:5556", sender);

    assert_eq!(remote_ref.name(), "test_actor");
    assert_eq!(remote_ref.endpoint(), "tcp://localhost:5556");
}

#[test]
fn test_zmq_sender_creation() {
    let (sender, _queue) = ZmqSender::with_queue("tcp://0.0.0.0:5557");
    assert_eq!(sender.local_endpoint(), "tcp://0.0.0.0:5557");
}

#[test]
fn test_actor_registry() {
    let mut registry = ActorRegistry::new();
    let (tx, _rx) = channel::<Envelope<Payload>>();
    let actor_ref = ActorRef::new(tx, "test".to_string());

    registry.register("test", actor_ref.clone());

    assert!(registry.get("test").is_some());
    assert!(registry.get("nonexistent").is_none());
}

#[test]
fn test_registry_replaces_and_lists_names_once() {
    let mut registry = ActorRegistry::new();
    let (tx1, _rx1) = channel::<Envelope<Payload>>();
    let (tx2, _rx2) = channel::<Envelope<Payload>>();
    registry.register("a", ActorRef::new(tx1, "first".to_string()));
    registry.register("a", ActorRef::new(tx2, "second".to_string()));
    assert_eq!(registry.get("a").unwrap().name(), "second");
    assert_eq!(registry.names(), vec!["a".to_string()]);
    let empty: ActorRegistry<Payload> = ActorRegistry::default();
    assert!(empty.names().is_empty());
}

#[test]
fn test_remote_ref_kind_and_endpoint() {
    let (sender, _queue) = ZmqSender::with_queue("tcp://localhost:5002");
    let sender = Arc::new(sender);
    let remote = sender.remote_ref("pong", "tcp://localhost:5001");
    let r: ActorRef<Payload> = remote.into_actor_ref();
    assert!(r.is_remote());
    assert!(!r.is_local());
    assert_eq!(r.endpoint(), Some("tcp://localhost:5001"));
    assert_eq!(r.name(), "pong");
    assert!(r.fast_send(Payload::Ping(1), None).is_none());
}

#[test]
fn test_reply_address_of_senders() {
    let (sender, _queue) = ZmqSender::with_queue("tcp://localhost:5002");
    let sender = Arc::new(sender);
    let (tx, _rx) = channel::<Envelope<Payload>>();
    let local = Some(ActorRef::new(tx, "ping".to_string()));
    assert_eq!(
        sender.reply_address(&local),
        (Some("ping".to_string()), Some("tcp://localhost:5002".to_string()))
    );
    let remote: Option<ActorRef<Payload>> =
        Some(sender.remote_ref("far", "tcp://otherhost:6000").into_actor_ref());
    assert_eq!(
        sender.reply_address(&remote),
        (Some("far".to_string()), Some("tcp://otherhost:6000".to_string()))
    );
    let none: Option<ActorRef<Payload>> = None;
    assert_eq!(sender.reply_address(&none), (None, None));
}

#[test]
fn test_frame_builds_wire_envelope() {
    let (sender, _queue) = ZmqSender::with_queue("tcp://localhost:5002");
    let (tx, _rx) = channel::<Envelope<Payload>>();
    let from = Some(ActorRef::new(tx, "ping".to_string()));
    let payload = Payload::Ping(1).wire_payload().unwrap();
    let e = sender.frame("pong", payload, &from);
    assert_eq!(e.sender_actor.as_deref(), Some("ping"));
    assert_eq!(e.sender_endpoint.as_deref(), Some("tcp://localhost:5002"));
    assert_eq!(e.receiver, "pong");
    assert_eq!(e.message_type, "Ping");
    assert_eq!(e.message, "{\"count\":1}");
}

#[test]
fn test_send_to_queues_framed_request() {
    let (sender, outgoing) = ZmqSender::with_queue("tcp://localhost:5002");
    let sender = Arc::new(sender);
    let remote = RemoteActorRef::new("pong", "tcp://localhost:5001", sender.clone());
    remote.send(Payload::Ping(3), None);
    let req = outgoing.take().unwrap();
    assert_eq!(req.endpoint, "tcp://localhost:5001");
    assert_eq!(req.envelope.receiver, "pong");
    assert_eq!(req.envelope.message_type, "Ping");
    assert_eq!(req.envelope.message, "{\"count\":3}");
    assert!(req.envelope.sender_actor.is_none());
    assert!(req.envelope.sender_endpoint.is_none());

    // A message with no wire form is not sent.
    remote.send(Payload::Local(4), None);
    assert!(matches!(outgoing.try_take(), Poll::Empty));
}

#[test]
fn test_endpoint_normalization() {
    assert_eq!(bind_address("tcp://*:5001"), "tcp://0.0.0.0:5001");
    assert_eq!(connect_address("tcp://*:5001"), "tcp://localhost:5001");
    assert_eq!(bind_address("tcp://0.0.0.0:5001"), "tcp://0.0.0.0:5001");
    assert_eq!(connect_address("tcp://localhost:5001"), "tcp://localhost:5001");
    assert_eq!(connect_address("tcp://*:1 tcp://*:2"), "tcp://localhost:1 tcp://localhost:2");
    let (zmq, _queue) = ZmqSender::with_queue("tcp://localhost:5001");
    let zmq = Arc::new(zmq);
    let receiver: ZmqReceiver<Payload> = ZmqReceiver::new("tcp://*:5001", zmq);
    assert_eq!(receiver.bind_address(), "tcp://0.0.0.0:5001");
}

fn envelope(receiver: &str, with_sender: bool) -> WireEnvelope {
    WireEnvelope {
        sender_actor: if with_sender { Some("ping".to_string()) } else { None },
        sender_endpoint: if with_sender { Some("tcp://localhost:5002".to_string()) } else { None },
        receiver: receiver.to_string(),
        message_type: "Ping".to_string(),
        message: "{\"count\":1}".to_string(),
    }
}

#[test]
fn test_incoming_unknown_actor_is_rejected() {
    let (zmq, _queue) = ZmqSender::with_queue("tcp://localhost:5001");
    let zmq = Arc::new(zmq);
    let receiver: ZmqReceiver<Payload> = ZmqReceiver::new("tcp://0.0.0.0:5001", zmq);
    match receiver.plan_incoming(&envelope("nobody", true), Ok(Payload::Ping(1))) {
        Incoming::Reject { endpoint, actor, reject } => {
            assert_eq!(endpoint, "tcp://localhost:5002");
            assert_eq!(actor, "ping");
            assert_eq!(reject.message_type, "Ping");
            assert_eq!(reject.reason, "Actor 'nobody' not found");
            assert_eq!(reject.rejected_by, "nobody");
        }
        _ => panic!("expected a reject"),
    }
    assert!(matches!(
        receiver.plan_incoming(&envelope("nobody", false), Ok(Payload::Ping(1))),
        Incoming::Ignore
    ));
}

#[test]
fn test_incoming_undecodable_is_rejected() {
    let (zmq, _queue) = ZmqSender::with_queue("tcp://localhost:5001");
    let zmq = Arc::new(zmq);
    let mut receiver: ZmqReceiver<Payload> = ZmqReceiver::new("tcp://0.0.0.0:5001", zmq);
    let (tx, _rx) = channel::<Envelope<Payload>>();
    receiver.register("pong", ActorRef::new(tx, "pong".to_string()));
    match receiver.plan_incoming(&envelope("pong", true), Err("Unknown message type: Ping".to_string())) {
        Incoming::Reject { endpoint, actor, reject } => {
            assert_eq!(endpoint, "tcp://localhost:5002");
            assert_eq!(actor, "ping");
            assert_eq!(reject.reason, "Unknown message type: Ping");
            assert_eq!(reject.rejected_by, "pong");
        }
        _ => panic!("expected a reject"),
    }
    assert!(matches!(
        receiver.plan_incoming(&envelope("pong", false), Err("bad".to_string())),
        Incoming::Ignore
    ));
}

#[test]
fn test_incoming_delivered_with_reply_reference() {
    let (zmq, _queue) = ZmqSender::with_queue("tcp://localhost:5001");
    let zmq = Arc::new(zmq);
    let mut receiver: ZmqReceiver<Payload> = ZmqReceiver::new("tcp://0.0.0.0:5001", zmq);
    let (tx, rx) = channel::<Envelope<Payload>>();
    receiver.register("pong", ActorRef::new(tx, "pong".to_string()));
    assert!(receiver.registry().get("pong").is_some());
    match receiver.plan_incoming(&envelope("pong", true), Ok(Payload::Ping(1))) {
        Incoming::Deliver { target, msg, sender } => {
            let sender = sender.unwrap();
            assert_eq!(sender.name(), "ping");
            assert_eq!(sender.endpoint(), "tcp://localhost:5002");
            target.send(msg, Some(sender.into_actor_ref()));
            let env = rx.recv().unwrap();
            assert_eq!(env.msg, Payload::Ping(1));
            assert_eq!(env.sender.unwrap().endpoint(), Some("tcp://localhost:5002"));
        }
        _ => panic!("expected a delivery"),
    }
    match receiver.plan_incoming(&envelope("pong", false), Ok(Payload::Ping(2))) {
        Incoming::Deliver { sender, .. } => assert!(sender.is_none()),
        _ => panic!("expected a delivery"),
    }
}

#[test]
fn test_plan_send() {
    let (sender, _queue) = ZmqSender::with_queue("tcp://localhost:5002");
    let (tx, _rx) = channel::<Envelope<Payload>>();
    let from = Some(ActorRef::new(tx, "ping".to_string()));
    assert!(sender.plan_send("tcp://localhost:5001", "pong", None, &from).is_none());
    let req = sender
        .plan_send("tcp://localhost:5001", "pong", Payload::Ping(1).wire_payload(), &from)
        .unwrap();
    assert_eq!(req.endpoint, "tcp://localhost:5001");
    assert_eq!(req.envelope.receiver, "pong");
    assert_eq!(req.envelope.sender_actor.as_deref(), Some("ping"));
    assert_eq!(req.envelope.sender_endpoint.as_deref(), Some("tcp://localhost:5002"));
    assert_eq!(req.envelope.message, "{\"count\":1}");
}

#[test]
fn test_push_plan_and_after_connect() {
    let req = SendRequest { endpoint: "tcp://*:5001".to_string(), envelope: envelope("pong", false) };
    let mut connected: NameMap<()> = NameMap::new();
    match push_plan(&connected, &req) {
        PushStep::Connect(a) => assert_eq!(a, "tcp://localhost:5001"),
        PushStep::Push => panic!("expected a connect"),
    }
    assert!(!after_connect(&mut connected, "tcp://*:5001", false));
    assert!(matches!(push_plan(&connected, &req), PushStep::Connect(_)));
    assert!(after_connect(&mut connected, "tcp://*:5001", true));
    assert!(matches!(push_plan(&connected, &req), PushStep::Push));
}

#[test]
fn test_wire_envelope_from_fields_defaults_missing_names() {
    let e = WireEnvelope::from_fields(None, Some("tcp://h:1".to_string()), None, Some("Ping".to_string()), "{}".to_string());
    assert!(e.sender_actor.is_none());
    assert_eq!(e.sender_endpoint.as_deref(), Some("tcp://h:1"));
    assert_eq!(e.receiver, "");
    assert_eq!(e.message_type, "Ping");
    assert_eq!(e.message, "{}");
}
