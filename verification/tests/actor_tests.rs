use std::sync::mpsc::channel;

use actors::actor::{ReplyRoute, ReplyTarget};
use actors::Poll;
use actors::{Actor, ActorContext, ActorRef, ActorRuntime, Envelope, LocalActorRef, Message};

struct TestMessage {
    value: i32,
}

impl Message for TestMessage {}

#[derive(Debug, Clone, PartialEq)]
enum Payload {
    Text(String),
    Number(i64),
    Stop,
}

impl Message for Payload {
    fn is_shutdown(&self) -> bool {
        *self == Payload::Stop
    }
}

#[test]
fn test_actor_ref_clone() {
    let (tx, _rx) = channel::<Envelope<TestMessage>>();
    let actor_ref = ActorRef::new(tx, "test".to_string());
    let cloned = actor_ref.clone();
    assert_eq!(actor_ref.name(), cloned.name());
}

#[test]
fn test_envelope_creation() {
    let msg = Box::new(TestMessage { value: 42 });
    let envelope = Envelope::new(msg, None);
    assert!(envelope.sender.is_none());
    assert!(envelope.reply_channel.is_none());
    assert_eq!(envelope.msg.value, 42);
}

#[test]
fn test_envelope_new_sync_keeps_reply_channel() {
    let (reply_tx, reply_rx) = channel::<Payload>();
    let envelope = Envelope::new_sync(Payload::Number(7), None, reply_tx);
    assert!(envelope.reply_channel.is_some());
    envelope.reply_channel.unwrap().send(Payload::Number(8)).unwrap();
    assert_eq!(reply_rx.recv().unwrap(), Payload::Number(8));
}

#[test]
fn test_local_ref_kind_and_endpoint() {
    let (tx, _rx) = channel::<Envelope<Payload>>();
    let r = ActorRef::new(tx, "pong".to_string());
    assert!(r.is_local());
    assert!(!r.is_remote());
    assert_eq!(r.endpoint(), None);
    assert_eq!(r.name(), "pong");
}

#[test]
fn test_local_send_queues_envelope() {
    let (tx, rx) = channel::<Envelope<Payload>>();
    let (tx2, _rx2) = channel::<Envelope<Payload>>();
    let target = LocalActorRef::new(tx, "target".to_string());
    let me = ActorRef::new(tx2, "me".to_string());
    target.send(Payload::Text("hi".to_string()), Some(me));
    let env = rx.recv().unwrap();
    assert_eq!(env.msg, Payload::Text("hi".to_string()));
    assert_eq!(env.sender.unwrap().name(), "me");
    assert!(env.reply_channel.is_none());
}

#[test]
fn test_fast_send_to_closed_mailbox_gives_none() {
    let (tx, rx) = channel::<Envelope<Payload>>();
    drop(rx);
    let target = ActorRef::new(tx, "gone".to_string());
    assert!(target.fast_send(Payload::Number(1), None).is_none());
}

#[test]
fn test_into_actor_ref_keeps_name() {
    let (tx, _rx) = channel::<Envelope<Payload>>();
    let local = LocalActorRef::new(tx, "worker".to_string());
    assert_eq!(local.name(), "worker");
    let r = local.into_actor_ref();
    assert!(r.is_local());
    assert_eq!(r.name(), "worker");
}

#[test]
fn test_context_new_is_empty() {
    let ctx: ActorContext<Payload> = ActorContext::new();
    assert!(ctx.self_ref().is_none());
    assert_eq!(ctx.reply_route(), ReplyRoute::Dropped);
    let d: ActorContext<Payload> = ActorContext::default();
    assert!(d.self_ref().is_none());
}

#[test]
fn test_reply_uses_reply_channel_once_then_sender() {
    let (sender_tx, sender_rx) = channel::<Envelope<Payload>>();
    let (self_tx, _self_rx) = channel::<Envelope<Payload>>();
    let (reply_tx, reply_rx) = channel::<Payload>();
    let mut ctx = ActorContext::new();
    ctx.set_self_ref(ActorRef::new(self_tx, "me".to_string()));
    ctx.prepare_for_envelope(Some(ActorRef::new(sender_tx, "caller".to_string())), Some(reply_tx));
    assert_eq!(ctx.reply_route(), ReplyRoute::ReplyChannel);

    ctx.reply(Payload::Number(1));
    assert_eq!(reply_rx.recv().unwrap(), Payload::Number(1));
    assert_eq!(ctx.reply_route(), ReplyRoute::Sender);

    ctx.reply(Payload::Number(2));
    let env = sender_rx.recv().unwrap();
    assert_eq!(env.msg, Payload::Number(2));
    assert_eq!(env.sender.unwrap().name(), "me");
    assert!(reply_rx.try_recv().is_err());
}

#[test]
fn test_reply_without_sender_is_dropped() {
    let mut ctx: ActorContext<Payload> = ActorContext::new();
    ctx.prepare_for_envelope(None, None);
    assert_eq!(ctx.reply_route(), ReplyRoute::Dropped);
    ctx.reply(Payload::Number(3));
    assert_eq!(ctx.reply_route(), ReplyRoute::Dropped);
}

struct Recorder {
    seen: std::sync::Arc<std::sync::Mutex<Vec<Payload>>>,
}

impl Actor<Payload> for Recorder {
    fn process_message(&mut self, msg: &Payload, ctx: &mut ActorContext<Payload>) {
        self.seen.lock().unwrap().push(msg.clone());
        ctx.reply(Payload::Text("ack".to_string()));
    }
}

#[test]
fn test_runtime_dispatches_and_stops() {
    let seen = std::sync::Arc::new(std::sync::Mutex::new(Vec::new()));
    let mut rt = ActorRuntime::new("rec".to_string(), Box::new(Recorder { seen: seen.clone() }));
    assert_eq!(rt.get_ref().name(), "rec");
    assert_eq!(rt.context.self_ref().unwrap().name(), "rec");

    let (caller_tx, caller_rx) = channel::<Envelope<Payload>>();
    let caller = ActorRef::new(caller_tx, "caller".to_string());
    rt.get_ref().send(Payload::Number(5), Some(caller));
    assert!(rt.step());
    assert_eq!(seen.lock().unwrap().clone(), vec![Payload::Number(5)]);
    let reply = caller_rx.recv().unwrap();
    assert_eq!(reply.msg, Payload::Text("ack".to_string()));
    assert_eq!(reply.sender.unwrap().name(), "rec");

    rt.stop();
    assert!(!rt.step());
}

#[test]
fn test_actor_defaults() {
    struct Quiet;
    impl Actor<Payload> for Quiet {}
    let mut q = Quiet;
    q.init();
    q.end();
    assert!(!q.is_group());
}

#[test]
fn test_message_id_default_is_zero() {
    let m = TestMessage { value: 1 };
    assert_eq!(m.message_id(), 0);
    assert!(m.wire_payload().is_none());
    assert_eq!(m.value, 1);
}

#[test]
fn test_take_reply_target() {
    let (sender_tx, _sender_rx) = channel::<Envelope<Payload>>();
    let (self_tx, _self_rx) = channel::<Envelope<Payload>>();
    let (reply_tx, _reply_rx) = channel::<Payload>();
    let mut ctx = ActorContext::new();
    assert!(matches!(ctx.take_reply_target(), ReplyTarget::Nowhere));
    ctx.set_self_ref(ActorRef::new(self_tx, "me".to_string()));
    ctx.prepare_for_envelope(Some(ActorRef::new(sender_tx, "caller".to_string())), Some(reply_tx));
    assert!(matches!(ctx.take_reply_target(), ReplyTarget::Channel(_)));
    match ctx.take_reply_target() {
        ReplyTarget::Actor { to, from } => {
            assert_eq!(to.name(), "caller");
            assert_eq!(from.unwrap().name(), "me");
        }
        _ => panic!("expected the sender"),
    }
}

#[test]
fn test_runtime_drains_after_stop_and_stops_on_shutdown() {
    let seen = std::sync::Arc::new(std::sync::Mutex::new(Vec::new()));
    let mut rt = ActorRuntime::new("rec".to_string(), Box::new(Recorder { seen: seen.clone() }));
    let me = rt.get_ref();
    me.send(Payload::Number(1), None);
    me.send(Payload::Number(2), None);
    rt.stop();
    assert!(rt.step());
    assert!(rt.step());
    assert!(!rt.step());
    assert_eq!(seen.lock().unwrap().clone(), vec![Payload::Number(1), Payload::Number(2)]);

    let seen2 = std::sync::Arc::new(std::sync::Mutex::new(Vec::new()));
    let mut rt2 = ActorRuntime::new("rec2".to_string(), Box::new(Recorder { seen: seen2.clone() }));
    let me2 = rt2.get_ref();
    me2.send(Payload::Stop, None);
    me2.send(Payload::Number(3), None);
    assert!(rt2.step());
    assert!(rt2.step());
    assert!(!rt2.step());
    assert_eq!(seen2.lock().unwrap().clone(), vec![Payload::Stop, Payload::Number(3)]);
}

#[test]
fn test_advance_decisions() {
    let mut rt = ActorRuntime::new("x".to_string(), Box::new(Recorder {
        seen: std::sync::Arc::new(std::sync::Mutex::new(Vec::new())),
    }));
    assert!(rt.advance(true, Poll::Empty));
    assert!(!rt.advance(false, Poll::Empty));
    assert!(!rt.advance(true, Poll::Closed));
    assert!(rt.advance(false, Poll::Item(Envelope::new(Payload::Number(1), None))));
}

#[test]
fn test_queue_pair_connects_its_ends() {
    let (tx, rx) = actors::queue_pair::<i64>();
    assert!(tx.send(5));
    assert!(tx.send(6));
    assert_eq!(rx.take(), Some(5));
    assert!(matches!(rx.try_take(), Poll::Item(6)));
    assert!(matches!(rx.try_take(), Poll::Empty));
    drop(tx);
    assert!(matches!(rx.try_take(), Poll::Closed));
    assert_eq!(rx.take(), None);
}

#[test]
fn test_reply_after_post_needs_the_post() {
    let (tx, rx) = actors::queue_pair::<i64>();
    assert!(tx.send(9));
    assert_eq!(actors::reply_after_post(false, &rx), None);
    assert_eq!(actors::reply_after_post(true, &rx), Some(9));
}

#[test]
fn test_mailbox_pair_connects_mailbox_and_inbox() {
    let (mailbox, inbox) = actors::mailbox_pair::<Payload>();
    let copy = mailbox.duplicate();
    assert!(mailbox.post(Envelope::new(Payload::Number(1), None)));
    assert!(copy.post(Envelope::new(Payload::Number(2), None)));
    assert_eq!(inbox.take().unwrap().msg, Payload::Number(1));
    assert!(matches!(inbox.try_take(), Poll::Item(e) if e.msg == Payload::Number(2)));
    drop(mailbox);
    drop(copy);
    assert!(inbox.take().is_none());
}

#[test]
fn test_runtime_ref_reaches_its_own_inbox() {
    let seen = std::sync::Arc::new(std::sync::Mutex::new(Vec::new()));
    let rt = ActorRuntime::new("own".to_string(), Box::new(Recorder { seen: seen.clone() }));
    rt.get_ref().send(Payload::Number(4), None);
    rt.context.self_ref().unwrap().send(Payload::Number(5), None);
    assert_eq!(rt.receiver.take().unwrap().msg, Payload::Number(4));
    assert_eq!(rt.receiver.take().unwrap().msg, Payload::Number(5));
}

#[test]
fn test_open_envelope_sets_context() {
    let mut ctx: ActorContext<Payload> = ActorContext::new();
    let (tx, _rx) = channel::<Envelope<Payload>>();
    let from = ActorRef::new(tx, "from".to_string());
    let msg = ctx.open_envelope(Envelope::new(Payload::Number(3), Some(from)));
    assert_eq!(msg, Payload::Number(3));
    assert_eq!(ctx.reply_route(), ReplyRoute::Sender);
}
