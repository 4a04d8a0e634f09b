use std::sync::mpsc::channel;

use actors::{
    worker_step, Actor, ActorContext, ActorRef, Envelope, GroupMember, Manager, Message,
    MessageRegistry, NameMap, Poll, Shutdown, Start, ThreadConfig, WorkerStep,
};

#[derive(Debug, Clone, PartialEq)]
enum Lifecycle {
    Started,
    Stopping,
}

impl Message for Lifecycle {}

impl From<Start> for Lifecycle {
    fn from(_: Start) -> Self {
        Lifecycle::Started
    }
}

impl From<Shutdown> for Lifecycle {
    fn from(_: Shutdown) -> Self {
        Lifecycle::Stopping
    }
}

struct DummyActor;
impl Actor<Lifecycle> for DummyActor {}

struct Log {
    seen: std::sync::Arc<std::sync::Mutex<Vec<Lifecycle>>>,
}

impl Actor<Lifecycle> for Log {
    fn process_message(&mut self, msg: &Lifecycle, _ctx: &mut ActorContext<Lifecycle>) {
        self.seen.lock().unwrap().push(msg.clone());
    }
}

#[test]
fn test_manager_registry() {
    let mut mgr: Manager<Lifecycle> = Manager::new();

    let _ref1 = mgr.manage("actor1", Box::new(DummyActor), Default::default());
    let _ref2 = mgr.manage("actor2", Box::new(DummyActor), Default::default());

    assert!(mgr.get_ref("actor1").is_some());
    assert!(mgr.get_ref("actor2").is_some());
    assert!(mgr.get_ref("actor3").is_none());

    let names = mgr.get_names();
    assert_eq!(names.len(), 2);
}

#[test]
fn test_manager_init_and_shutdown_send_lifecycle_messages() {
    let seen = std::sync::Arc::new(std::sync::Mutex::new(Vec::new()));
    let mut mgr: Manager<Lifecycle> = Manager::new();
    let r = mgr.manage("log", Box::new(Log { seen: seen.clone() }), ThreadConfig::with_affinity(vec![0]));
    assert_eq!(r.name(), "log");
    let mut runtimes = mgr.init();
    assert_eq!(runtimes.len(), 1);
    assert_eq!(runtimes[0].1.affinity, vec![0]);
    assert!(mgr.init().is_empty());
    mgr.shutdown();
    let rt = &mut runtimes[0].0;
    assert!(rt.step());
    assert!(rt.step());
    assert_eq!(seen.lock().unwrap().clone(), vec![Lifecycle::Started, Lifecycle::Stopping]);
}

#[test]
fn test_thread_config() {
    let config = ThreadConfig::with_affinity(vec![0, 1]);
    assert_eq!(config.affinity, vec![0, 1]);
    assert_eq!(config.priority, 0);

    let config2 = ThreadConfig::with_priority(50, libc::SCHED_FIFO);
    assert_eq!(config2.priority, 50);
    assert_eq!(config2.sched_policy, libc::SCHED_FIFO);
}

#[test]
fn test_thread_config_default_and_new() {
    let d = ThreadConfig::default();
    assert!(d.affinity.is_empty());
    assert_eq!(d.priority, 0);
    assert_eq!(d.sched_policy, libc::SCHED_OTHER);
    let c = ThreadConfig::new(vec![2], 50, libc::SCHED_RR);
    assert_eq!(c.affinity, vec![2]);
    assert_eq!(c.priority, 50);
    assert_eq!(c.sched_policy, libc::SCHED_RR);
}

#[test]
fn test_manager_handle() {
    let mgr: Manager<Lifecycle> = Manager::new();
    let handle = mgr.get_handle();

    assert!(!handle.is_terminated());
    handle.terminate();
    assert!(handle.is_terminated());
    let other = handle.clone();
    assert!(other.is_terminated());
    assert!(mgr.get_handle().is_terminated());
    let fresh: Manager<Lifecycle> = Manager::new();
    assert!(!fresh.get_handle().is_terminated());
}

#[test]
fn test_message_registry_lookup_reasons() {
    let mut reg: MessageRegistry<u32> = MessageRegistry::new();
    assert_eq!(reg.lookup("Ping"), Err("No messages registered".to_string()));
    assert!(!reg.is_message_registered("Ping"));
    reg.register_remote_message("Ping", 1);
    assert!(reg.is_message_registered("Ping"));
    assert_eq!(reg.lookup("Ping"), Ok(&1));
    assert_eq!(reg.lookup("Pong"), Err("Unknown message type: Pong".to_string()));
    reg.register_remote_message("Ping", 2);
    assert_eq!(reg.lookup("Ping"), Ok(&2));
}

#[test]
fn test_name_map() {
    let mut m: NameMap<i32> = NameMap::new();
    assert!(m.is_empty());
    m.insert("x".to_string(), 1);
    m.insert("y".to_string(), 2);
    m.insert("x".to_string(), 3);
    assert!(!m.is_empty());
    assert_eq!(m.get("x"), Some(&3));
    assert_eq!(m.get("y"), Some(&2));
    assert_eq!(m.get("z"), None);
    assert!(m.contains_key("y"));
    let mut names = m.names();
    names.sort();
    assert_eq!(names, vec!["x".to_string(), "y".to_string()]);
}

#[test]
fn test_worker_step_decisions() {
    assert!(matches!(worker_step(true, Poll::Item(7)), WorkerStep::Dispatch(7)));
    assert!(matches!(worker_step(false, Poll::Item(8)), WorkerStep::Dispatch(8)));
    assert!(matches!(worker_step::<i32>(true, Poll::Empty), WorkerStep::Idle));
    assert!(matches!(worker_step::<i32>(false, Poll::Empty), WorkerStep::Exit));
    assert!(matches!(worker_step::<i32>(true, Poll::Closed), WorkerStep::Exit));
    assert!(matches!(worker_step::<i32>(false, Poll::Closed), WorkerStep::Exit));
}

#[test]
fn test_group_member_dispatch() {
    let seen = std::sync::Arc::new(std::sync::Mutex::new(Vec::new()));
    let (tx, _rx) = channel::<Envelope<Lifecycle>>();
    let mut member = GroupMember::new(Box::new(Log { seen: seen.clone() }), ActorRef::new(tx, "m".to_string()));
    assert_eq!(member.context.self_ref().unwrap().name(), "m");
    member.dispatch(Envelope::new(Lifecycle::Started, None));
    assert_eq!(seen.lock().unwrap().clone(), vec![Lifecycle::Started]);
}
