//! Groups run many lightweight actors on a few shared worker threads: each
//! member is an actor with its own context, and each worker takes the next
//! envelope from the group's shared queue and dispatches it to the member it
//! is addressed to.

use std::sync::mpsc::Sender;
use vstd::prelude::*;

use crate::actor::{Actor, ActorContext, ActorRef, Delivery, Envelope};
use crate::manager::{sends_shutdown, sends_start};
use crate::message::Message;
use crate::messages::{Shutdown, Start};
use crate::names::{entries_map, lemma_pop_entry, names_distinct, NameMap};

verus! {

/// A lightweight actor of a group, with the context it replies through.
#[verifier::reject_recursive_types(M)]
pub struct GroupMember<M> {
    pub actor: Box<dyn Actor<M>>,
    pub context: ActorContext<M>,
    /// The context the actor's handler was given by the last `dispatch`
    pub handed: Ghost<ActorContext<M>>,
}

impl<M: 'static> GroupMember<M> {
    /// A member running `actor`, whose own reference is `actor_ref`.
    pub fn new(actor: Box<dyn Actor<M>>, actor_ref: ActorRef<M>) -> (g: Self)
        ensures
            g.context.self_ref_view() == Some(actor_ref),
            g.context.sender_view() is None,
            g.context.reply_channel_view() is None,
    {
        let mut context = ActorContext::new();
        context.set_self_ref(actor_ref);
        GroupMember { actor, context, handed: Ghost(arbitrary()) }
    }

    /// Dispatch a message: the context takes the envelope's sender and reply
    /// channel (`open_envelope`), then the actor processes the message.
    pub fn dispatch(&mut self, envelope: Envelope<M>)
        ensures
            final(self).handed@.sender_view() == envelope.sender,
            final(self).handed@.reply_channel_view() == envelope.reply_channel,
            final(self).handed@.self_ref_view() == old(self).context.self_ref_view(),
    {
        let msg = self.context.open_envelope(envelope);
        self.handed = Ghost(self.context);
        self.actor.process_message(&msg, &mut self.context);
    }
}

/// A group of lightweight actors that share a few worker threads: the
/// members added so far, the names of the members handed to the workers at
/// start, and the references through which the group's actors are reached.
#[verifier::reject_recursive_types(M)]
pub struct Group<M> {
    name: String,
    num_workers: usize,
    members: NameMap<GroupMember<M>>,
    started: NameMap<()>,
    actor_refs: Vec<ActorRef<M>>,
    start_sends: Ghost<Seq<Delivery<M>>>,
}

impl<M: 'static> Group<M> {
    /// The group's name.
    pub closed spec fn name_view(&self) -> Seq<char> {
        self.name@
    }

    /// The number of worker threads.
    pub closed spec fn workers_view(&self) -> usize {
        self.num_workers
    }

    /// The members added and not yet started.
    pub closed spec fn members_view(&self) -> Map<Seq<char>, GroupMember<M>> {
        self.members@
    }

    /// The names of the members handed to the workers at start.
    pub closed spec fn started_view(&self) -> Set<Seq<char>> {
        self.started@.dom()
    }

    /// The records of the `Start` messages sent by the last `start`, one per
    /// reference of the group, in order.
    pub closed spec fn start_sends_view(&self) -> Seq<Delivery<M>> {
        self.start_sends@
    }

    /// The references of the group's actors, in the order they were added.
    pub closed spec fn refs_view(&self) -> Seq<ActorRef<M>> {
        self.actor_refs@
    }

    /// Create a new group named `name` that will run on `num_workers` threads.
    pub fn new(name: &str, num_workers: usize) -> (g: Self)
        ensures
            g.name_view() == name@,
            g.workers_view() == num_workers,
            g.members_view() == Map::<Seq<char>, GroupMember<M>>::empty(),
            g.started_view() == Set::<Seq<char>>::empty(),
            g.refs_view() == Seq::<ActorRef<M>>::empty(),
    {
        let g = Group {
            name: name.to_string(),
            num_workers,
            members: NameMap::new(),
            started: NameMap::new(),
            actor_refs: Vec::new(),
            start_sends: Ghost(Seq::empty()),
        };
        assert(g.started@.dom() =~= Set::<Seq<char>>::empty());
        g
    }

    /// Add `actor` to the group under `name`; `route` posts into the
    /// mailbox that forwards envelopes to it through the group's queue. The
    /// reference returned reaches the actor through `route`, under `name`.
    pub fn add(&mut self, name: &str, actor: Box<dyn Actor<M>>, route: Sender<Envelope<M>>) -> (r: ActorRef<M>)
        ensures
            r is Local,
            r.name_view() == name@,
            final(self).members_view().dom() == old(self).members_view().dom().insert(name@),
            final(self).members_view()[name@].context.self_ref_view() == Some(r),
            final(self).refs_view() == old(self).refs_view().push(r),
            final(self).started_view() == old(self).started_view(),
            final(self).name_view() == old(self).name_view(),
            final(self).workers_view() == old(self).workers_view(),
    {
        let actor_ref = ActorRef::new(route, name.to_string());
        let member = GroupMember::new(actor, actor_ref.clone());
        self.members.insert(name.to_string(), member);
        self.actor_refs.push(actor_ref.clone());
        actor_ref
    }

    /// Whether an actor named `name` belongs to the group: added, or
    /// handed to the workers at start.
    pub fn has_member(&self, name: &str) -> (b: bool)
        ensures
            b == (self.members_view().contains_key(name@) || self.started_view().contains(name@)),
    {
        self.members.contains_key(name) || self.started.contains_key(name)
    }

    /// A reference to the actor named `name`, reached through `route`, when
    /// the group has such an actor (added, or handed to the workers at
    /// start); `None` otherwise.
    pub fn get_ref(&self, name: &str, route: Sender<Envelope<M>>) -> (r: Option<ActorRef<M>>)
        ensures
            r is Some <==> (self.members_view().contains_key(name@) || self.started_view().contains(
                name@,
            )),
            r matches Some(a) ==> a is Local && a.name_view() == name@,
    {
        if self.has_member(name) {
            Some(ActorRef::new(route, name.to_string()))
        } else {
            None
        }
    }

    /// The names of all actors of the group, added or started, each once.
    pub fn get_names(&self) -> (r: Vec<String>)
        ensures
            forall|k: Seq<char>|
                (self.members_view().contains_key(k) || self.started_view().contains(k)) <==> #[trigger] listed(
                    r@,
                    k,
                ),
            distinct_names(r@),
    {
        let mut r = self.members.names();
        let started = self.started.names();
        let mut i: usize = 0;
        assert(started@.subrange(0, 0) =~= Seq::<String>::empty());
        while i < started.len()
            invariant
                i <= started@.len(),
                forall|k: Seq<char>| self.started@.contains_key(k) <==> #[trigger] listed(started@, k),
                distinct_names(started@),
                forall|k: Seq<char>|
                    #[trigger] listed(r@, k) <==> (self.members@.contains_key(k) || listed(
                        started@.subrange(0, i as int),
                        k,
                    )),
                distinct_names(r@),
            decreases started@.len() - i,
        {
            let name = &started[i];
            let ghost old_r = r@;
            let ghost k0 = started@[i as int]@;
            proof {
                assert(started@.subrange(0, i + 1) =~= started@.subrange(0, i as int).push(started@[i as int]));
                assert forall|k: Seq<char>|
                    listed(started@.subrange(0, i + 1), k) <==> (listed(started@.subrange(0, i as int), k)
                        || started@[i as int]@ == k) by {
                    lemma_listed_push(started@.subrange(0, i as int), started@[i as int], k);
                }
            }
            if !self.members.contains_key(name.as_str()) {
                proof {
                    if listed(old_r, k0) {
                        let j: int = choose|j: int|
                            0 <= j < i && #[trigger] started@.subrange(0, i as int)[j]@ == k0;
                        assert(started@[j]@ == k0);
                    }
                }
                r.push(name.clone());
                proof {
                    assert forall|k: Seq<char>| #[trigger] listed(r@, k) <==> (listed(old_r, k) || k0 == k) by {
                        lemma_listed_push(old_r, started@[i as int], k);
                    }
                    lemma_distinct_push(old_r, started@[i as int]);
                }
            }
            i = i + 1;
        }
        proof {
            assert(started@.subrange(0, started@.len() as int) =~= started@);
        }
        r
    }

    /// Get the group name.
    pub fn name(&self) -> (n: &str)
        ensures
            n@ == self.name_view(),
    {
        self.name.as_str()
    }

    /// The number of worker threads.
    pub fn num_workers(&self) -> (n: usize)
        ensures
            n == self.workers_view(),
    {
        self.num_workers
    }
}

impl<M: Message + From<Start>> Group<M> {
    /// Start the group: every member added runs its `init`, then each
    /// actor is sent `Start`; the members are handed over for the workers,
    /// and the group now knows them as started.
    pub fn start(&mut self) -> (members: NameMap<GroupMember<M>>)
        ensures
            members@.dom() == old(self).members_view().dom(),
            forall|k: Seq<char>|
                #[trigger] members@.contains_key(k) ==> members@[k].context == old(
                    self,
                ).members_view()[k].context,
            final(self).members_view() == Map::<Seq<char>, GroupMember<M>>::empty(),
            final(self).started_view() == old(self).members_view().dom(),
            final(self).refs_view() == old(self).refs_view(),
            final(self).name_view() == old(self).name_view(),
            final(self).workers_view() == old(self).workers_view(),
            final(self).start_sends_view().len() == old(self).refs_view().len(),
            forall|i: int|
                #![trigger final(self).start_sends_view()[i]]
                0 <= i < old(self).refs_view().len() ==> sends_start(
                    old(self).refs_view()[i],
                    final(self).start_sends_view()[i],
                ),
    {
        let mut added: NameMap<GroupMember<M>> = NameMap::new();
        std::mem::swap(&mut added, &mut self.members);
        let ghost names = added@.dom();
        let ghost given = added@;
        let mut entries = added.into_entries();
        let mut out: NameMap<GroupMember<M>> = NameMap::new();
        let mut started: NameMap<()> = NameMap::new();
        assert(out@.dom() =~= Set::<Seq<char>>::empty());
        assert(started@.dom() =~= Set::<Seq<char>>::empty());
        while entries.len() > 0
            invariant
                names_distinct(entries@),
                out@.dom() + entries_map(entries@).dom() == names,
                started@.dom() == out@.dom(),
                out@.dom().disjoint(entries_map(entries@).dom()),
                forall|k: Seq<char>|
                    #[trigger] entries_map(entries@).contains_key(k) ==> entries_map(entries@)[k]
                        == given[k],
                forall|k: Seq<char>|
                    #[trigger] out@.contains_key(k) ==> out@[k].context == given[k].context,
            decreases entries@.len(),
        {
            proof {
                lemma_pop_entry(entries@);
            }
            let ghost before = entries@;
            let ghost old_out = out@;
            let (n, mut member) = entries.pop().unwrap();
            proof {
                assert(entries_map(before)[n@] == member);
                assert(entries_map(before).dom().contains(n@));
                assert(entries_map(before).contains_key(n@));
                assert(names.contains(n@));
                assert(member == given[n@]);
                assert forall|k: Seq<char>| #[trigger] entries_map(entries@).contains_key(k) implies entries_map(
                    entries@,
                )[k] == given[k] by {
                    assert(entries_map(before).contains_key(k));
                    assert(k != n@);
                    assert(entries_map(before)[k] == entries_map(entries@)[k]);
                }
            }
            let ghost context = member.context;
            member.actor.init();
            assert(member.context == context);
            out.insert(n.clone(), member);
            proof {
                assert forall|k: Seq<char>| #[trigger] out@.contains_key(k) implies out@[k].context
                    == given[k].context by {
                    if k != n@ {
                        assert(old_out.contains_key(k));
                    }
                }
            }
            started.insert(n, ());
            assert(out@.dom() + entries_map(entries@).dom() =~= names);
            assert(started@.dom() =~= out@.dom());
        }
        assert(entries_map(entries@).dom() =~= Set::<Seq<char>>::empty());
        assert(out@.dom() =~= names);
        self.started = started;
        let ghost mut sends: Seq<Delivery<M>> = Seq::empty();
        let mut i: usize = 0;
        while i < self.actor_refs.len()
            invariant
                i <= self.actor_refs@.len(),
                sends.len() == i,
                forall|j: int| #![trigger sends[j]] 0 <= j < i ==> sends_start(self.actor_refs@[j], sends[j]),
            decreases self.actor_refs@.len() - i,
        {
            let msg = M::from(Start);
            let ghost m = msg;
            let d = self.actor_refs[i].send(msg, None);
            proof {
                assert(call_ensures(<M as From<Start>>::from, (Start,), m));
                sends = sends.push(d);
                assert(sends[i as int] == d);
            }
            i = i + 1;
        }
        self.start_sends = Ghost(sends);
        out
    }
}

impl<M: Message + From<Shutdown>> Group<M> {
    /// Signal all actors of the group to shut down: each, in the order
    /// they were added, is sent one `Shutdown`; the records of the sends are
    /// returned.
    pub fn shutdown(&self) -> (sent: Vec<Delivery<M>>)
        ensures
            sent@.len() == self.refs_view().len(),
            forall|i: int|
                #![trigger sent@[i]]
                0 <= i < sent@.len() ==> sends_shutdown(self.refs_view()[i], sent@[i]),
    {
        let mut sent: Vec<Delivery<M>> = Vec::new();
        let mut i: usize = 0;
        while i < self.actor_refs.len()
            invariant
                i <= self.actor_refs@.len(),
                sent@.len() == i,
                forall|j: int| #![trigger sent@[j]] 0 <= j < i ==> sends_shutdown(self.actor_refs@[j], sent@[j]),
            decreases self.actor_refs@.len() - i,
        {
            let msg = M::from(Shutdown);
            let ghost m = msg;
            let d = self.actor_refs[i].send(msg, None);
            proof {
                assert(call_ensures(<M as From<Shutdown>>::from, (Shutdown,), m));
            }
            sent.push(d);
            assert(sent@[i as int] == d);
            i = i + 1;
        }
        sent
    }
}

/// Whether `k` is one of the names in `r`.
pub open spec fn listed(r: Seq<String>, k: Seq<char>) -> bool {
    exists|x: int| 0 <= x < r.len() && #[trigger] r[x]@ == k
}

/// No name occurs twice in `r`.
pub open spec fn distinct_names(r: Seq<String>) -> bool {
    forall|a: int, b: int|
        0 <= a < r.len() && 0 <= b < r.len() && a != b ==> #[trigger] r[a]@ != #[trigger] r[b]@
}

proof fn lemma_listed_push(r: Seq<String>, s: String, k: Seq<char>)
    ensures
        listed(r.push(s), k) <==> (listed(r, k) || s@ == k),
{
    if listed(r, k) {
        let x: int = choose|x: int| 0 <= x < r.len() && #[trigger] r[x]@ == k;
        assert(r.push(s)[x] == r[x]);
    }
    if s@ == k {
        assert(r.push(s)[r.len() as int] == s);
    }
    if listed(r.push(s), k) {
        let x: int = choose|x: int| 0 <= x < r.push(s).len() && #[trigger] r.push(s)[x]@ == k;
        if x < r.len() {
            assert(r.push(s)[x] == r[x]);
        }
    }
}

proof fn lemma_distinct_push(r: Seq<String>, s: String)
    requires
        distinct_names(r),
        !listed(r, s@),
    ensures
        distinct_names(r.push(s)),
{
    assert forall|a: int, b: int|
        0 <= a < r.push(s).len() && 0 <= b < r.push(s).len() && a != b implies #[trigger] r.push(s)[a]@
        != #[trigger] r.push(s)[b]@ by {
        if a < r.len() && b < r.len() {
            assert(r.push(s)[a] == r[a] && r.push(s)[b] == r[b]);
        } else if a < r.len() {
            assert(r.push(s)[a] == r[a]);
            assert(r[a]@ != s@);
        } else if b < r.len() {
            assert(r.push(s)[b] == r[b]);
            assert(r[b]@ != s@);
        }
    }
}

/// What a worker found when it polled the group's shared queue.
pub enum Poll<T> {
    /// An envelope was waiting
    Item(T),
    /// The queue is empty for now
    Empty,
    /// Every sender of the queue is gone
    Closed,
}

/// What a worker does next.
pub enum WorkerStep<T> {
    /// Dispatch this envelope, then poll again
    Dispatch(T),
    /// Wait a little, then poll again
    Idle,
    /// Leave the worker loop
    Exit,
}

/// The next step of a queue consumer, from whether it is still running and
/// what it found in the queue: an envelope is always dispatched (a stopped
/// consumer still drains its queue); an empty queue is waited on while
/// running and ends the consumer once it stopped; a closed queue ends it.
pub open spec fn next_step<T>(running: bool, poll: Poll<T>) -> WorkerStep<T> {
    match poll {
        Poll::Item(t) => WorkerStep::Dispatch(t),
        Poll::Empty => if running {
            WorkerStep::Idle
        } else {
            WorkerStep::Exit
        },
        Poll::Closed => WorkerStep::Exit,
    }
}

/// The steps a consumer takes on a queue that holds `queue` and that no one
/// adds to: it finds the head while there is one, then an empty queue.
pub open spec fn steps_on<T>(running: bool, queue: Seq<T>) -> Seq<WorkerStep<T>>
    decreases queue.len(),
{
    if queue.len() == 0 {
        seq![next_step(running, Poll::Empty)]
    } else {
        seq![next_step(running, Poll::Item(queue[0]))] + steps_on(running, queue.drop_first())
    }
}

/// A stopped consumer dispatches everything still queued, each envelope
/// once and in queue order, and only then leaves.
pub proof fn law_stopped_consumer_drains<T>(queue: Seq<T>)
    ensures
        steps_on(false, queue).len() == queue.len() + 1,
        forall|i: int|
            0 <= i < queue.len() ==> #[trigger] steps_on(false, queue)[i] == WorkerStep::Dispatch(
                queue[i],
            ),
        steps_on(false, queue)[queue.len() as int] is Exit,
    decreases queue.len(),
{
    if queue.len() > 0 {
        let rest = queue.drop_first();
        law_stopped_consumer_drains(rest);
        assert forall|i: int| 0 <= i < queue.len() implies #[trigger] steps_on(false, queue)[i]
            == WorkerStep::Dispatch(queue[i]) by {
            if i > 0 {
                assert(steps_on(false, queue)[i] == steps_on(false, rest)[i - 1]);
                assert(rest[i - 1] == queue[i]);
            }
        }
        assert(steps_on(false, queue)[queue.len() as int] == steps_on(false, rest)[rest.len() as int]);
    }
}

/// The next step of a worker (see `next_step`).
pub fn worker_step<T>(running: bool, poll: Poll<T>) -> (step: WorkerStep<T>)
    ensures
        step == next_step(running, poll),
{
    match poll {
        Poll::Item(t) => WorkerStep::Dispatch(t),
        Poll::Empty => if running {
            WorkerStep::Idle
        } else {
            WorkerStep::Exit
        },
        Poll::Closed => WorkerStep::Exit,
    }
}

} // verus!
