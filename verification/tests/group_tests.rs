use std::sync::mpsc::channel;
use std::sync::{Arc, Mutex};

use actors::{Actor, ActorContext, Envelope, Group, Message, Shutdown, Start};

#[derive(Debug, Clone, PartialEq)]
enum Ev {
    Started,
    Stopping,
}

impl Message for Ev {}

impl From<Start> for Ev {
    fn from(_: Start) -> Self {
        Ev::Started
    }
}

impl From<Shutdown> for Ev {
    fn from(_: Shutdown) -> Self {
        Ev::Stopping
    }
}

struct DummyActor;
impl Actor<Ev> for DummyActor {}

struct Counting {
    inits: Arc<Mutex<u32>>,
}

impl Actor<Ev> for Counting {
    fn init(&mut self) {
        *self.inits.lock().unwrap() += 1;
    }

    fn process_message(&mut self, _msg: &Ev, _ctx: &mut ActorContext<Ev>) {}
}

#[test]
fn test_group_creation() {
    let group: Group<Ev> = Group::new("test_group", 4);
    assert_eq!(group.name(), "test_group");
    assert_eq!(group.num_workers(), 4);
}

#[test]
fn test_group_add_actors() {
    let mut group: Group<Ev> = Group::new("test_group", 2);
    let (tx1, _rx1) = channel::<Envelope<Ev>>();
    let (tx2, _rx2) = channel::<Envelope<Ev>>();

    let ref1 = group.add("actor1", Box::new(DummyActor), tx1);
    let ref2 = group.add("actor2", Box::new(DummyActor), tx2);

    let (tx3, _rx3) = channel::<Envelope<Ev>>();
    let (tx4, _rx4) = channel::<Envelope<Ev>>();
    let (tx5, _rx5) = channel::<Envelope<Ev>>();
    assert!(group.get_ref("actor1", tx3).is_some());
    assert!(group.get_ref("actor2", tx4).is_some());
    assert!(group.get_ref("actor3", tx5).is_none());
    assert!(group.has_member("actor1"));
    assert!(!group.has_member("actor3"));

    assert_eq!(ref1.name(), "actor1");
    assert_eq!(ref2.name(), "actor2");
}

#[test]
fn test_group_start_inits_members_and_sends_start() {
    let inits = Arc::new(Mutex::new(0));
    let mut group: Group<Ev> = Group::new("g", 1);
    let (tx, rx) = channel::<Envelope<Ev>>();
    group.add("a", Box::new(Counting { inits: inits.clone() }), tx);
    let mut names = group.get_names();
    names.sort();
    assert_eq!(names, vec!["a".to_string()]);

    let members = group.start();
    assert_eq!(*inits.lock().unwrap(), 1);
    assert!(members.contains_key("a"));
    assert_eq!(members.get("a").unwrap().context.self_ref().unwrap().name(), "a");
    assert_eq!(group.get_names(), vec!["a".to_string()]);
    assert!(group.has_member("a"));
    assert_eq!(rx.recv().unwrap().msg, Ev::Started);

    group.shutdown();
    assert_eq!(rx.recv().unwrap().msg, Ev::Stopping);
}

#[test]
fn test_group_names_cover_started_and_added_members() {
    let mut group: Group<Ev> = Group::new("g", 1);
    let (tx1, _rx1) = channel::<Envelope<Ev>>();
    let (tx2, _rx2) = channel::<Envelope<Ev>>();
    let (tx3, _rx3) = channel::<Envelope<Ev>>();
    group.add("first", Box::new(DummyActor), tx1);
    let _members = group.start();
    group.add("second", Box::new(DummyActor), tx2);
    group.add("first", Box::new(DummyActor), tx3);
    let mut names = group.get_names();
    names.sort();
    assert_eq!(names, vec!["first".to_string(), "second".to_string()]);
}

#[test]
fn test_group_add_routes_through_given_sender() {
    let mut group: Group<Ev> = Group::new("g", 1);
    let (tx, rx) = channel::<Envelope<Ev>>();
    let r = group.add("member", Box::new(DummyActor), tx);
    assert!(r.is_local());
    r.send(Ev::Started, None);
    assert_eq!(rx.recv().unwrap().msg, Ev::Started);
}

#[test]
fn test_group_start_keeps_each_members_context() {
    let mut group: Group<Ev> = Group::new("g", 1);
    let (tx1, _rx1) = channel::<Envelope<Ev>>();
    let (tx2, _rx2) = channel::<Envelope<Ev>>();
    group.add("one", Box::new(DummyActor), tx1);
    group.add("two", Box::new(DummyActor), tx2);
    let members = group.start();
    assert_eq!(members.get("one").unwrap().context.self_ref().unwrap().name(), "one");
    assert_eq!(members.get("two").unwrap().context.self_ref().unwrap().name(), "two");
}
