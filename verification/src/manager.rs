//! The manager of actor lifecycles: it registers actors by name, hands out
//! their references, sends them `Start` and `Shutdown`, and holds the flag
//! through which an actor asks for termination. Running each actor on a
//! thread of its own (with the configured affinity and priority) is the
//! caller's part.

use std::sync::atomic::{AtomicBool, Ordering};
use std::sync::Arc;
use vstd::prelude::*;

use crate::actor::{Actor, ActorRef, ActorRuntime, Delivery};
use crate::mailbox::Inbox;
use crate::mailbox::share;
use crate::message::Message;
use crate::messages::{Shutdown, Start};
use crate::remote::ActorRegistry;

verus! {

/// The default scheduling policy, `libc::SCHED_OTHER`. Its value differs
/// between platforms (0 on Linux, 1 on Apple systems, 2 on FreeBSD), so
/// nothing is claimed of it.
#[verifier::external_body]
fn sched_other() -> i32 {
    libc::SCHED_OTHER
}

/// Configuration for an actor's thread
#[derive(Clone, Debug)]
pub struct ThreadConfig {
    /// CPU cores to pin the thread to (empty = no pinning)
    pub affinity: Vec<usize>,
    /// Thread priority (1-99 for RT, 0 = default)
    pub priority: i32,
    /// Scheduling policy (SCHED_OTHER, SCHED_FIFO, SCHED_RR)
    pub sched_policy: i32,
}

impl Default for ThreadConfig {
    /// No pinning, default priority, the platform's `SCHED_OTHER`.
    fn default() -> (c: Self)
        ensures
            c.affinity@ == Seq::<usize>::empty(),
            c.priority == 0,
    {
        ThreadConfig { affinity: Vec::new(), priority: 0, sched_policy: sched_other() }
    }
}

impl ThreadConfig {
    /// Create config with CPU affinity
    pub fn with_affinity(cores: Vec<usize>) -> (c: Self)
        ensures
            c.affinity == cores,
            c.priority == 0,
    {
        ThreadConfig { affinity: cores, priority: 0, sched_policy: sched_other() }
    }

    /// Create config with real-time priority
    pub fn with_priority(priority: i32, policy: i32) -> (c: Self)
        ensures
            c.affinity@ == Seq::<usize>::empty(),
            c.priority == priority,
            c.sched_policy == policy,
    {
        ThreadConfig { affinity: Vec::new(), priority, sched_policy: policy }
    }

    /// Create config with both affinity and priority
    pub fn new(affinity: Vec<usize>, priority: i32, policy: i32) -> (c: Self)
        ensures
            c.affinity == affinity,
            c.priority == priority,
            c.sched_policy == policy,
    {
        ThreadConfig { affinity, priority, sched_policy: policy }
    }
}

/// Handle for actors to signal termination to the manager.
///
/// Clones share one flag: a termination signalled through any of them is
/// seen through all.
pub struct ManagerHandle {
    terminate_flag: Arc<AtomicBool>,
}

impl Clone for ManagerHandle {
    fn clone(&self) -> (h: Self)
        ensures
            h == *self,
    {
        ManagerHandle { terminate_flag: share(&self.terminate_flag) }
    }
}

impl ManagerHandle {
    /// A handle whose termination has not been signalled.
    fn new() -> Self {
        ManagerHandle { terminate_flag: Arc::new(AtomicBool::new(false)) }
    }

    /// Signal the manager to terminate.
    pub fn terminate(&self) {
        self.terminate_flag.store(true, Ordering::SeqCst);
    }

    /// Check if termination has been signaled.
    pub fn is_terminated(&self) -> bool {
        self.terminate_flag.load(Ordering::SeqCst)
    }
}

/// Manages the lifecycle of actors.
#[verifier::reject_recursive_types(M)]
pub struct Manager<M> {
    /// Actor name -> ActorRef registry (top-level only)
    registry: ActorRegistry<M>,
    /// Expanded registry including Group members
    expanded_registry: ActorRegistry<M>,
    /// Actor runtimes (owned until init())
    runtimes: Vec<(ActorRuntime<M>, ThreadConfig)>,
    /// Actor refs for shutdown
    actor_refs: Vec<ActorRef<M>>,
    /// Termination flag
    handle: ManagerHandle,
    /// The records of the `Start` messages sent by the last `init`
    start_sends: Ghost<Seq<Delivery<M>>>,
}

impl<M: 'static> Manager<M> {
    /// The actors registered under their names.
    pub closed spec fn registry_view(&self) -> Map<Seq<char>, ActorRef<M>> {
        self.expanded_registry@
    }

    /// The references of all managed actors, in the order they were managed.
    pub closed spec fn refs_view(&self) -> Seq<ActorRef<M>> {
        self.actor_refs@
    }

    /// The runtimes not yet started, with their thread configurations.
    pub closed spec fn runtimes_view(&self) -> Seq<(ActorRuntime<M>, ThreadConfig)> {
        self.runtimes@
    }

    /// The records of the `Start` messages sent by the last `init`, one per
    /// runtime started, in order.
    pub closed spec fn start_sends_view(&self) -> Seq<Delivery<M>> {
        self.start_sends@
    }

    /// The termination handle shared with the actors.
    pub closed spec fn handle_view(&self) -> ManagerHandle {
        self.handle
    }

    /// Create a new Manager with no actor.
    pub fn new() -> (m: Self)
        ensures
            m.registry_view() == Map::<Seq<char>, ActorRef<M>>::empty(),
            m.refs_view() == Seq::<ActorRef<M>>::empty(),
            m.runtimes_view().len() == 0,
    {
        Manager {
            registry: ActorRegistry::new(),
            expanded_registry: ActorRegistry::new(),
            runtimes: Vec::new(),
            actor_refs: Vec::new(),
            handle: ManagerHandle::new(),
            start_sends: Ghost(Seq::empty()),
        }
    }

    /// Get a handle for actors to signal termination; it shares the
    /// manager's flag.
    pub fn get_handle(&self) -> (h: ManagerHandle)
        ensures
            h == self.handle_view(),
    {
        self.handle.clone()
    }

    /// Register an actor to be managed: a runtime is made for it, and the
    /// returned reference to it is registered under `name`.
    pub fn manage(&mut self, name: &str, actor: Box<dyn Actor<M>>, config: ThreadConfig) -> (r: ActorRef<M>)
        ensures
            r is Local,
            r.name_view() == name@,
            final(self).registry_view() == old(self).registry_view().insert(name@, r),
            final(self).refs_view() == old(self).refs_view().push(r),
            final(self).runtimes_view().len() == old(self).runtimes_view().len() + 1,
            final(self).runtimes_view().last().0.ref_view() == r,
            r.reaches(final(self).runtimes_view().last().0.receiver),
            final(self).runtimes_view().last().1 == config,
            final(self).handle_view() == old(self).handle_view(),
    {
        let runtime = ActorRuntime::new(name.to_string(), actor);
        let actor_ref = runtime.get_ref();
        self.registry.register(name, actor_ref.clone());
        self.expanded_registry.register(name, actor_ref.clone());
        self.actor_refs.push(actor_ref.clone());
        self.runtimes.push((runtime, config));
        actor_ref
    }

    /// Get an ActorRef by name; `None` if no actor with that name is registered.
    pub fn get_ref(&self, name: &str) -> (r: Option<ActorRef<M>>)
        ensures
            r == (if self.registry_view().contains_key(name@) {
                Some(self.registry_view()[name@])
            } else {
                None
            }),
    {
        self.expanded_registry.get(name)
    }

    /// Get all registered actor names, each once.
    pub fn get_names(&self) -> (r: Vec<String>)
        ensures
            forall|k: Seq<char>| self.registry_view().contains_key(k) <==> exists|i: int|
                0 <= i < r@.len() && #[trigger] r@[i]@ == k,
            forall|i: int, j: int|
                0 <= i < r@.len() && 0 <= j < r@.len() && i != j ==> #[trigger] r@[i]@
                    != #[trigger] r@[j]@,
    {
        self.expanded_registry.names()
    }
}

/// `d` records sending `r` a `Start` message (whatever `M::from(Start)`
/// gave), with no sender.
pub open spec fn sends_start<M: Message + From<Start>>(r: ActorRef<M>, d: Delivery<M>) -> bool {
    exists|m: M| #[trigger] call_ensures(<M as From<Start>>::from, (Start,), m) && r.delivers(m, None, d)
}

/// `d` records sending `r` a `Shutdown` message (whatever
/// `M::from(Shutdown)` gave), with no sender.
pub open spec fn sends_shutdown<M: Message + From<Shutdown>>(r: ActorRef<M>, d: Delivery<M>) -> bool {
    exists|m: M|
        #[trigger] call_ensures(<M as From<Shutdown>>::from, (Shutdown,), m) && r.delivers(m, None, d)
}

/// Shutting down reaches every actor, once each: for each reference, the
/// matching record is of a `Shutdown` posted, without sender or reply
/// channel, into the mailbox queue of that reference when it is local (a
/// remote one gets it framed and queued to its process), so an inbox that
/// the reference reaches receives it.
pub proof fn law_shutdown_reaches_every_actor<M: Message + From<Shutdown>>(
    refs: Seq<ActorRef<M>>,
    sent: Seq<Delivery<M>>,
    i: int,
    inbox: Inbox<M>,
)
    requires
        sent.len() == refs.len(),
        forall|j: int| 0 <= j < refs.len() ==> #[trigger] sends_shutdown(refs[j], sent[j]),
        0 <= i < refs.len(),
        refs[i].reaches(inbox),
    ensures
        sent[i] matches Delivery::Local(p) && p.queue() == inbox.queue_id() && p.value().sender is None
            && p.value().reply_channel is None && exists|m: M|
            #[trigger] call_ensures(<M as From<Shutdown>>::from, (Shutdown,), m) && p.value().msg == m,
{
    assert(sends_shutdown(refs[i], sent[i]));
}

impl<M: Message + From<Start>> Manager<M> {
    /// Start all managed actors: each is sent `Start`, and the runtimes are
    /// handed over, in the order they were managed, for the caller to run
    /// each on a thread with its configuration.
    pub fn init(&mut self) -> (started: Vec<(ActorRuntime<M>, ThreadConfig)>)
        ensures
            started@ == old(self).runtimes_view(),
            final(self).runtimes_view().len() == 0,
            final(self).registry_view() == old(self).registry_view(),
            final(self).refs_view() == old(self).refs_view(),
            final(self).handle_view() == old(self).handle_view(),
            final(self).start_sends_view().len() == started@.len(),
            forall|i: int|
                #![trigger final(self).start_sends_view()[i]]
                0 <= i < started@.len() ==> sends_start(started@[i].0.ref_view(), final(self).start_sends_view()[i]),
    {
        let mut runtimes: Vec<(ActorRuntime<M>, ThreadConfig)> = Vec::new();
        std::mem::swap(&mut runtimes, &mut self.runtimes);
        let ghost mut sends: Seq<Delivery<M>> = Seq::empty();
        let mut i: usize = 0;
        while i < runtimes.len()
            invariant
                i <= runtimes@.len(),
                sends.len() == i,
                forall|j: int|
                    #![trigger sends[j]]
                    0 <= j < i ==> sends_start(runtimes@[j].0.ref_view(), sends[j]),
            decreases runtimes@.len() - i,
        {
            let actor_ref = runtimes[i].0.get_ref();
            let msg = M::from(Start);
            let ghost m = msg;
            let d = actor_ref.send(msg, None);
            proof {
                assert(call_ensures(<M as From<Start>>::from, (Start,), m));
                sends = sends.push(d);
                assert(sends[i as int] == d);
            }
            i = i + 1;
        }
        self.start_sends = Ghost(sends);
        assert(self.start_sends_view() == sends);
        runtimes
    }
}

impl<M: Message + From<Shutdown>> Manager<M> {
    /// Signal all actors to shut down: each managed actor, in the order they
    /// were managed, is sent one `Shutdown`; the records of the sends are
    /// returned.
    pub fn shutdown(&self) -> (sent: Vec<Delivery<M>>)
        ensures
            sent@.len() == self.refs_view().len(),
            forall|i: int|
                #![trigger sent@[i]]
                0 <= i < sent@.len() ==> sends_shutdown(self.refs_view()[i], sent@[i]),
    {
        let mut sent: Vec<Delivery<M>> = Vec::new();
        let mut i: usize = 0;
        while i < self.actor_refs.len()
            invariant
                i <= self.actor_refs@.len(),
                sent@.len() == i,
                forall|j: int|
                    #![trigger sent@[j]]
                    0 <= j < i ==> sends_shutdown(self.actor_refs@[j], sent@[j]),
            decreases self.actor_refs@.len() - i,
        {
            let msg = M::from(Shutdown);
            let ghost m = msg;
            let d = self.actor_refs[i].send(msg, None);
            proof {
                assert(call_ensures(<M as From<Shutdown>>::from, (Shutdown,), m));
            }
            sent.push(d);
            assert(sent@[i as int] == d);
            i = i + 1;
        }
        assert(self.refs_view() == self.actor_refs@);
        sent
    }
}

} // verus!
