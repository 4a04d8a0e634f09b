//! Actors, actor references, envelopes and the context a handler replies through.
//!
//! The framework is generic over the payload type `M` that an actor's mailbox
//! carries; an application picks one payload type (for instance a boxed trait
//! object of its own) and every actor of that application exchanges it.

use std::sync::atomic::{AtomicBool, Ordering};
use std::sync::mpsc::Sender;
use std::sync::Arc;
use vstd::prelude::*;

use crate::group::{next_step, worker_step, Poll, WorkerStep};
use crate::mailbox::{mailbox_pair, post_through, queue_pair, reply_after_post, Inbox, Mailbox, Posted, QueueReceiver};
use crate::message::Message;
use crate::remote::{sends_framed, RemoteActorRef};
use crate::wire::SendRequest;

verus! {

/// Envelope wraps a message with sender metadata.
#[verifier::reject_recursive_types(M)]
pub struct Envelope<M> {
    /// The actual message
    pub msg: M,
    /// The sender's ActorRef (for replies)
    pub sender: Option<ActorRef<M>>,
    /// For fast_send: channel to send reply back
    pub reply_channel: Option<Sender<M>>,
}

impl<M> Envelope<M> {
    /// Create a new envelope for async send
    pub fn new(msg: M, sender: Option<ActorRef<M>>) -> (e: Self)
        ensures
            e.msg == msg,
            e.sender == sender,
            e.reply_channel is None,
    {
        Envelope { msg, sender, reply_channel: None }
    }

    /// Create a new envelope for fast_send (synchronous)
    pub fn new_sync(msg: M, sender: Option<ActorRef<M>>, reply_channel: Sender<M>) -> (e: Self)
        ensures
            e.msg == msg,
            e.sender == sender,
            e.reply_channel == Some(reply_channel),
    {
        Envelope { msg, sender, reply_channel: Some(reply_channel) }
    }
}

/// Local reference to an actor: its name and the mailbox that reaches it.
#[verifier::reject_recursive_types(M)]
pub struct LocalActorRef<M> {
    sender: Mailbox<M>,
    name: String,
}

impl<M> LocalActorRef<M> {
    /// The name of the actor.
    pub closed spec fn name_view(&self) -> Seq<char> {
        self.name@
    }

    /// The mailbox that reaches the actor.
    pub closed spec fn mailbox_view(&self) -> Mailbox<M> {
        self.sender
    }

    /// Create a new LocalActorRef from a sender
    pub fn new(sender: Sender<Envelope<M>>, name: String) -> (r: Self)
        ensures
            r.name_view() == name@,
    {
        LocalActorRef { sender: Mailbox::from_sender(sender), name }
    }

    /// A reference to the actor behind `mailbox`, named `name`.
    pub fn from_mailbox(mailbox: Mailbox<M>, name: String) -> (r: Self)
        ensures
            r == Self::spec_from(mailbox, name),
            r.name_view() == name@,
            r.mailbox_view() == mailbox,
    {
        LocalActorRef { sender: mailbox, name }
    }

    /// Get the actor's name
    pub fn name(&self) -> (n: &str)
        ensures
            n@ == self.name_view(),
    {
        self.name.as_str()
    }

    /// Convert to an ActorRef enum
    pub fn into_actor_ref(self) -> (r: ActorRef<M>)
        ensures
            r == ActorRef::Local(self),
    {
        ActorRef::Local(self)
    }
}

impl<M> Clone for LocalActorRef<M> {
    /// A copy of this reference: same name, same mailbox.
    fn clone(&self) -> (r: Self)
        ensures
            r == *self,
    {
        LocalActorRef { sender: self.sender.duplicate(), name: self.name.clone() }
    }
}

impl<M: Message> LocalActorRef<M> {
    /// Send a message to this actor (async, fire-and-forget): the envelope
    /// posted to the actor's mailbox carries `msg`, `sender` and no reply
    /// channel. The record of the post is returned; whether it was queued
    /// depends on whether the actor is still alive.
    pub fn send(&self, msg: M, sender: Option<ActorRef<M>>) -> (p: Posted<Envelope<M>>)
        ensures
            p.value() == (Envelope { msg, sender, reply_channel: None }),
            p.queue() == self.mailbox_view().queue_id(),
    {
        self.sender.deliver(Envelope::new(msg, sender))
    }

    /// Send a message and wait for a reply (synchronous): the envelope carries
    /// a fresh reply channel, and the first reply sent through it is returned.
    /// `None` when the envelope could not be posted or the handler dropped the
    /// reply channel without replying.
    pub fn fast_send(&self, msg: M, sender: Option<ActorRef<M>>) -> (reply: Option<M>)
        ensures
            exists|env: Envelope<M>, posted: bool, rx: QueueReceiver<M>|
                #![trigger call_ensures(Mailbox::<M>::post, (&self.mailbox_view(), env), posted), call_ensures(reply_after_post::<M>, (posted, &rx), reply)]
                {
                    &&& env.msg == msg
                    &&& env.sender == sender
                    &&& env.reply_channel is Some
                    &&& call_ensures(Mailbox::<M>::post, (&self.mailbox_view(), env), posted)
                    &&& call_ensures(reply_after_post::<M>, (posted, &rx), reply)
                    &&& !posted ==> reply is None
                    &&& posted ==> call_ensures(QueueReceiver::<M>::take, (&rx,), reply)
                },
    {
        let (reply_tx, reply_rx) = queue_pair::<M>();
        let envelope = Envelope::new_sync(msg, sender, reply_tx.into_sender());
        let ghost env = envelope;
        let posted = self.sender.post(envelope);
        let reply = reply_after_post(posted, &reply_rx);
        assert(call_ensures(Mailbox::<M>::post, (&self.mailbox_view(), env), posted));
        assert(call_ensures(reply_after_post::<M>, (posted, &reply_rx), reply));
        reply
    }
}

/// Reference to an actor (local or remote).
#[verifier::reject_recursive_types(M)]
pub enum ActorRef<M> {
    /// Local actor - uses a channel
    Local(LocalActorRef<M>),
    /// Remote actor - uses ZMQ
    Remote(RemoteActorRef),
}

impl<M> ActorRef<M> {
    /// This reference posts into the queue that `inbox` reads.
    pub open spec fn reaches(&self, inbox: Inbox<M>) -> bool {
        self matches ActorRef::Local(l) && l.mailbox_view().queue_id() == inbox.queue_id()
    }

    /// The name of the actor, local or remote.
    pub open spec fn name_view(&self) -> Seq<char> {
        match self {
            ActorRef::Local(r) => r.name_view(),
            ActorRef::Remote(r) => r.name_view(),
        }
    }

    /// Create a new local ActorRef from a sender (convenience method)
    pub fn new(sender: Sender<Envelope<M>>, name: String) -> (r: Self)
        ensures
            r is Local,
            r.name_view() == name@,
    {
        ActorRef::Local(LocalActorRef::new(sender, name))
    }

    /// Get the actor's name
    pub fn name(&self) -> (n: &str)
        ensures
            n@ == self.name_view(),
    {
        match self {
            ActorRef::Local(r) => r.name(),
            ActorRef::Remote(r) => r.name(),
        }
    }

    /// Check if this is a local actor reference
    pub fn is_local(&self) -> (b: bool)
        ensures
            b == (self is Local),
    {
        match self {
            ActorRef::Local(_) => true,
            ActorRef::Remote(_) => false,
        }
    }

    /// Check if this is a remote actor reference
    pub fn is_remote(&self) -> (b: bool)
        ensures
            b == (self is Remote),
    {
        match self {
            ActorRef::Local(_) => false,
            ActorRef::Remote(_) => true,
        }
    }

    /// Get the endpoint if this is a remote actor ref
    pub fn endpoint(&self) -> (e: Option<&str>)
        ensures
            match self {
                ActorRef::Local(_) => e is None,
                ActorRef::Remote(r) => e matches Some(s) && s@ == r.endpoint_view(),
            },
    {
        match self {
            ActorRef::Local(_) => None,
            ActorRef::Remote(r) => Some(r.endpoint()),
        }
    }
}

impl<M> Clone for ActorRef<M> {
    fn clone(&self) -> (r: Self)
        ensures
            r == *self,
    {
        match self {
            ActorRef::Local(l) => ActorRef::Local(l.clone()),
            ActorRef::Remote(r) => ActorRef::Remote(r.clone()),
        }
    }
}

/// A copy of an optional actor reference.
fn clone_ref_opt<M>(r: &Option<ActorRef<M>>) -> (c: Option<ActorRef<M>>)
    ensures
        c == *r,
{
    match r {
        Some(a) => Some(a.clone()),
        None => None,
    }
}

impl<M: Message> ActorRef<M> {
    /// `d` records sending `msg` from `sender` to this actor: a local actor
    /// gets the envelope of `msg` and `sender`, without reply channel, posted
    /// to its mailbox; a remote actor gets the message framed and queued to
    /// its process (see `sends_framed`).
    pub open spec fn delivers(self, msg: M, sender: Option<ActorRef<M>>, d: Delivery<M>) -> bool {
        match self {
            ActorRef::Local(l) => d matches Delivery::Local(p) && p.value() == (Envelope {
                msg,
                sender,
                reply_channel: None,
            }) && p.queue() == l.mailbox_view().queue_id(),
            ActorRef::Remote(r) => d matches Delivery::Remote(o) && sends_framed(
                *r.sender_view(),
                r.endpoint_view(),
                r.name_view(),
                msg,
                sender,
                o,
            ),
        }
    }

    /// Send a message to this actor (async, fire-and-forget), and return
    /// the record of what was posted.
    ///
    /// A local actor gets the envelope in its mailbox; a remote actor gets the
    /// message framed and queued to its process.
    pub fn send(&self, msg: M, sender: Option<ActorRef<M>>) -> (d: Delivery<M>)
        ensures
            self.delivers(msg, sender, d),
    {
        match self {
            ActorRef::Local(r) => Delivery::Local(r.send(msg, sender)),
            ActorRef::Remote(r) => Delivery::Remote(r.send(msg, sender)),
        }
    }

    /// Send a message and wait for a reply (synchronous).
    ///
    /// Only local actors answer: a remote actor reference always gives `None`.
    pub fn fast_send(&self, msg: M, sender: Option<ActorRef<M>>) -> (reply: Option<M>)
        ensures
            self is Remote ==> reply is None,
            self matches ActorRef::Local(l) ==> call_ensures(
                LocalActorRef::<M>::fast_send,
                (&l, msg, sender),
                reply,
            ),
    {
        match self {
            ActorRef::Local(r) => r.fast_send(msg, sender),
            ActorRef::Remote(_) => None,
        }
    }
}

/// The record of a send through an `ActorRef`.
#[verifier::reject_recursive_types(M)]
pub enum Delivery<M> {
    /// The envelope posted to a local actor's mailbox
    Local(Posted<Envelope<M>>),
    /// The request queued for a remote actor, when the message has a wire form
    Remote(Option<Posted<SendRequest>>),
}

/// The record of a reply made through an `ActorContext`.
#[verifier::reject_recursive_types(M)]
pub enum Replied<M> {
    /// The reply posted through the reply channel of a fast_send
    Channel(Posted<M>),
    /// The reply sent to the sender of the current message
    Actor(Delivery<M>),
    /// The reply was dropped: there was neither a reply channel nor a sender
    Nowhere,
}

/// Where a reply made through an `ActorContext` goes.
#[derive(Debug, Clone, Copy, PartialEq, Eq, Structural)]
pub enum ReplyRoute {
    /// Through the reply channel of a fast_send
    ReplyChannel,
    /// Into the mailbox of the sender of the current message
    Sender,
    /// Nowhere: there is neither a reply channel nor a sender
    Dropped,
}

/// Context passed to actors for sending messages and replies.
#[verifier::reject_recursive_types(M)]
pub struct ActorContext<M> {
    /// This actor's reference (for passing as sender)
    self_ref: Option<ActorRef<M>>,
    /// Who sent the current message (for replies)
    sender: Option<ActorRef<M>>,
    /// Reply channel from fast_send
    reply_channel: Option<Sender<M>>,
}

impl<M> ActorContext<M> {
    /// This actor's own reference, if the runtime has set it.
    pub closed spec fn self_ref_view(&self) -> Option<ActorRef<M>> {
        self.self_ref
    }

    /// The sender of the message being processed, if any.
    pub closed spec fn sender_view(&self) -> Option<ActorRef<M>> {
        self.sender
    }

    /// The reply channel of the message being processed, if it came by fast_send.
    pub closed spec fn reply_channel_view(&self) -> Option<Sender<M>> {
        self.reply_channel
    }

    /// Where the next reply goes: the reply channel first, else the sender.
    pub open spec fn route_view(&self) -> ReplyRoute {
        if self.reply_channel_view() is Some {
            ReplyRoute::ReplyChannel
        } else if self.sender_view() is Some {
            ReplyRoute::Sender
        } else {
            ReplyRoute::Dropped
        }
    }

    pub fn new() -> (c: Self)
        ensures
            c.self_ref_view() is None,
            c.sender_view() is None,
            c.reply_channel_view() is None,
    {
        ActorContext { self_ref: None, sender: None, reply_channel: None }
    }

    /// Where the next reply made through this context goes.
    pub fn reply_route(&self) -> (r: ReplyRoute)
        ensures
            r == self.route_view(),
    {
        if self.reply_channel.is_some() {
            ReplyRoute::ReplyChannel
        } else if self.sender.is_some() {
            ReplyRoute::Sender
        } else {
            ReplyRoute::Dropped
        }
    }

    /// Get this actor's reference (mailbox address)
    pub fn self_ref(&self) -> (r: Option<ActorRef<M>>)
        ensures
            r == self.self_ref_view(),
    {
        clone_ref_opt(&self.self_ref)
    }

    /// Set this actor's reference (called by runtime)
    pub fn set_self_ref(&mut self, actor_ref: ActorRef<M>)
        ensures
            final(self).self_ref_view() == Some(actor_ref),
            final(self).sender_view() == old(self).sender_view(),
            final(self).reply_channel_view() == old(self).reply_channel_view(),
    {
        self.self_ref = Some(actor_ref);
    }

    /// Set up context for processing an envelope
    pub fn prepare_for_envelope(
        &mut self,
        sender: Option<ActorRef<M>>,
        reply_channel: Option<Sender<M>>,
    )
        ensures
            final(self).self_ref_view() == old(self).self_ref_view(),
            final(self).sender_view() == sender,
            final(self).reply_channel_view() == reply_channel,
    {
        self.sender = sender;
        self.reply_channel = reply_channel;
    }

    /// Set up the context for processing `envelope` and hand out its
    /// message: the context takes the envelope's sender and reply channel,
    /// and keeps this actor's own reference.
    pub fn open_envelope(&mut self, envelope: Envelope<M>) -> (msg: M)
        ensures
            msg == envelope.msg,
            final(self).self_ref_view() == old(self).self_ref_view(),
            final(self).sender_view() == envelope.sender,
            final(self).reply_channel_view() == envelope.reply_channel,
    {
        let Envelope { msg, sender, reply_channel } = envelope;
        self.prepare_for_envelope(sender, reply_channel);
        msg
    }
}

/// Where a reply made through an `ActorContext` is to be sent.
#[verifier::reject_recursive_types(M)]
pub enum ReplyTarget<M> {
    /// Through the reply channel of a fast_send
    Channel(Sender<M>),
    /// Into the mailbox of `to`, naming `from` (this actor) as its sender
    Actor { to: ActorRef<M>, from: Option<ActorRef<M>> },
    /// Nowhere: there is neither a reply channel nor a sender
    Nowhere,
}

impl<M> ActorContext<M> {
    /// Take the target of the next reply: the reply channel of a fast_send
    /// when there is one (it is used up), else the sender of the current
    /// message together with this actor's own reference, else nowhere.
    pub fn take_reply_target(&mut self) -> (t: ReplyTarget<M>)
        ensures
            final(self).reply_channel_view() is None,
            final(self).sender_view() == old(self).sender_view(),
            final(self).self_ref_view() == old(self).self_ref_view(),
            match old(self).route_view() {
                ReplyRoute::ReplyChannel => t == ReplyTarget::Channel(
                    old(self).reply_channel_view()->0,
                ),
                ReplyRoute::Sender => t == ReplyTarget::Actor {
                    to: old(self).sender_view()->0,
                    from: old(self).self_ref_view(),
                },
                ReplyRoute::Dropped => t is Nowhere,
            },
    {
        match self.reply_channel.take() {
            Some(tx) => ReplyTarget::Channel(tx),
            None => match &self.sender {
                Some(s) => ReplyTarget::Actor { to: s.clone(), from: clone_ref_opt(&self.self_ref) },
                None => ReplyTarget::Nowhere,
            },
        }
    }
}

impl<M: Message> ActorContext<M> {
    /// Reply to the current message, to the target `take_reply_target`
    /// gives: for fast_send the reply goes through the reply channel, which
    /// is used up, so a second reply goes to the sender's mailbox; for a
    /// regular send it goes to the sender's mailbox, with this actor as its
    /// sender; with neither, the reply is dropped.
    pub fn reply(&mut self, msg: M) -> (sent: Replied<M>)
        ensures
            match old(self).route_view() {
                ReplyRoute::ReplyChannel => sent matches Replied::Channel(p) && p.value() == msg,
                ReplyRoute::Sender => sent matches Replied::Actor(d) && old(self).sender_view()->0.delivers(
                    msg,
                    old(self).self_ref_view(),
                    d,
                ),
                ReplyRoute::Dropped => sent is Nowhere,
            },
            final(self).reply_channel_view() is None,
            final(self).sender_view() == old(self).sender_view(),
            final(self).self_ref_view() == old(self).self_ref_view(),
            old(self).route_view() == ReplyRoute::ReplyChannel ==> final(self).route_view() == (
            if old(self).sender_view() is Some {
                ReplyRoute::Sender
            } else {
                ReplyRoute::Dropped
            }),
            old(self).route_view() != ReplyRoute::ReplyChannel ==> final(self).route_view()
                == old(self).route_view(),
    {
        match self.take_reply_target() {
            ReplyTarget::Channel(tx) => Replied::Channel(post_through(&tx, msg)),
            ReplyTarget::Actor { to, from } => Replied::Actor(to.send(msg, from)),
            ReplyTarget::Nowhere => Replied::Nowhere,
        }
    }
}

impl<M> Default for ActorContext<M> {
    fn default() -> (c: Self)
        ensures
            c.self_ref_view() is None,
            c.sender_view() is None,
            c.reply_channel_view() is None,
    {
        Self::new()
    }
}

/// Trait for all actors in the system.
///
/// Implement it to create your own actors; every method has a default that
/// does nothing.
pub trait Actor<M>: Send + 'static {
    /// Called once when the actor starts, before processing any messages.
    fn init(&mut self) {
    }

    /// Called once when the actor shuts down, after all messages are processed.
    fn end(&mut self) {
    }

    /// Process a message.
    fn process_message(&mut self, msg: &M, ctx: &mut ActorContext<M>) {
    }

    /// Returns true if this is a Group actor; an actor that keeps the
    /// default is not one.
    fn is_group(&self) -> (g: bool)
        default_ensures
            !g,
    {
        false
    }
}

/// Runtime for a single actor: the actor, its queue and its context.
#[verifier::reject_recursive_types(M)]
pub struct ActorRuntime<M> {
    pub actor: Box<dyn Actor<M>>,
    pub receiver: Inbox<M>,
    pub sender: Mailbox<M>,
    pub name: String,
    pub context: ActorContext<M>,
    pub running: Arc<AtomicBool>,
    /// Whether this runtime has stopped itself (through `stop`)
    pub stopped: Ghost<bool>,
    /// The context the actor's handler was given by the last `dispatch`
    pub handed: Ghost<ActorContext<M>>,
}

impl<M: 'static> ActorRuntime<M> {
    /// The reference that reaches this runtime's actor.
    pub open spec fn ref_view(&self) -> ActorRef<M> {
        ActorRef::Local(LocalActorRef::spec_from(self.sender, self.name))
    }

    /// Whether this runtime has stopped itself (through `stop`).
    pub open spec fn stop_requested(&self) -> bool {
        self.stopped@
    }

    /// The context the actor's handler was given by the last `dispatch`.
    pub open spec fn handed_view(&self) -> ActorContext<M> {
        self.handed@
    }

    /// Create a new actor runtime: a fresh queue, and a context whose own
    /// reference reaches that queue under `name`.
    pub fn new(name: String, actor: Box<dyn Actor<M>>) -> (rt: Self)
        ensures
            rt.name == name,
            rt.sender.queue_id() == rt.receiver.queue_id(),
            rt.ref_view().reaches(rt.receiver),
            rt.context.self_ref_view() == Some(rt.ref_view()),
            rt.context.sender_view() is None,
            rt.context.reply_channel_view() is None,
            !rt.stop_requested(),
    {
        let (sender, receiver) = mailbox_pair::<M>();
        let actor_ref = ActorRef::Local(LocalActorRef::from_mailbox(sender.duplicate(), name.clone()));
        let mut context = ActorContext::new();
        context.set_self_ref(actor_ref);
        ActorRuntime {
            actor,
            receiver,
            sender,
            name,
            context,
            running: Arc::new(AtomicBool::new(true)),
            stopped: Ghost(false),
            handed: Ghost(arbitrary()),
        }
    }

    /// Get an ActorRef for this actor
    pub fn get_ref(&self) -> (r: ActorRef<M>)
        ensures
            r == self.ref_view(),
            r is Local,
            r.name_view() == self.name@,
            self.sender.queue_id() == self.receiver.queue_id() ==> r.reaches(self.receiver),
    {
        ActorRef::Local(LocalActorRef::from_mailbox(self.sender.duplicate(), self.name.clone()))
    }

    /// Dispatch a message to the actor: the context takes the envelope's
    /// sender and reply channel (`open_envelope`), then the actor processes
    /// the message.
    pub fn dispatch(&mut self, envelope: Envelope<M>)
        ensures
            final(self).name == old(self).name,
            final(self).sender == old(self).sender,
            final(self).receiver == old(self).receiver,
            final(self).stop_requested() == old(self).stop_requested(),
            final(self).handed_view().sender_view() == envelope.sender,
            final(self).handed_view().reply_channel_view() == envelope.reply_channel,
            final(self).handed_view().self_ref_view() == old(self).context.self_ref_view(),
    {
        let msg = self.context.open_envelope(envelope);
        self.handed = Ghost(self.context);
        self.actor.process_message(&msg, &mut self.context);
    }

    /// Signal the actor to stop.
    pub fn stop(&mut self)
        ensures
            final(self).stop_requested(),
            final(self).name == old(self).name,
            final(self).sender == old(self).sender,
            final(self).receiver == old(self).receiver,
            final(self).handed_view() == old(self).handed_view(),
    {
        self.running.store(false, Ordering::SeqCst);
        self.stopped = Ghost(true);
    }
}

impl<M: Message> ActorRuntime<M> {
    /// Act on one poll of the queue (see `next_step`): a taken envelope is
    /// dispatched, and when it asked for shutdown the runtime then stops;
    /// an empty queue is waited on while running. The result says whether
    /// the loop goes on: it ends on a closed queue, or on an empty one once
    /// the runtime is stopped, so a stopped runtime first drains its queue.
    pub fn advance(&mut self, running: bool, poll: Poll<Envelope<M>>) -> (more: bool)
        ensures
            more == !(next_step(running, poll) is Exit),
            final(self).name == old(self).name,
            final(self).sender == old(self).sender,
            final(self).receiver == old(self).receiver,
            match poll {
                Poll::Item(e) => stop_after_dispatch(
                    old(self).stop_requested(),
                    e.msg,
                    final(self).stop_requested(),
                ),
                _ => final(self).stop_requested() == old(self).stop_requested(),
            },
    {
        let ghost p = poll;
        match worker_step(running, poll) {
            WorkerStep::Dispatch(envelope) => {
                let stop = envelope.msg.is_shutdown();
                assert(call_ensures(M::is_shutdown, (&p->Item_0.msg,), stop));
                self.dispatch(envelope);
                if stop {
                    self.stop();
                }
                true
            },
            WorkerStep::Idle => true,
            WorkerStep::Exit => false,
        }
    }

    /// One turn of the message loop: while running, wait for the next
    /// envelope; once stopped, take only what is already queued; then
    /// `advance`.
    pub fn step(&mut self) -> (more: bool)
        ensures
            final(self).name == old(self).name,
            final(self).sender == old(self).sender,
            final(self).receiver == old(self).receiver,
            old(self).stop_requested() ==> final(self).stop_requested(),
            exists|running: bool, poll: Poll<Envelope<M>>|
                #![trigger call_ensures(AtomicBool::load, (&*old(self).running, Ordering::SeqCst), running), next_step(running, poll)]
                {
                    &&& call_ensures(AtomicBool::load, (&*old(self).running, Ordering::SeqCst), running)
                    &&& running ==> exists|o: Option<Envelope<M>>|
                        #[trigger] call_ensures(Inbox::<M>::take, (&old(self).receiver,), o) && poll == match o {
                            Some(e) => Poll::Item(e),
                            None => Poll::Closed,
                        }
                    &&& !running ==> call_ensures(Inbox::<M>::try_take, (&old(self).receiver,), poll)
                    &&& more == !(next_step(running, poll) is Exit)
                },
    {
        let running = self.running.load(Ordering::SeqCst);
        let ghost taken: Option<Envelope<M>>;
        let poll = if running {
            let o = self.receiver.take();
            proof {
                taken = o;
            }
            match o {
                Some(envelope) => Poll::Item(envelope),
                None => Poll::Closed,
            }
        } else {
            self.receiver.try_take()
        };
        let ghost p = poll;
        let more = self.advance(running, poll);
        assert(call_ensures(AtomicBool::load, (&*old(self).running, Ordering::SeqCst), running));
        if running {
            assert(call_ensures(Inbox::<M>::take, (&old(self).receiver,), taken));
        } else {
            assert(call_ensures(Inbox::<M>::try_take, (&old(self).receiver,), p));
        }
        assert(more == !(next_step(running, p) is Exit));
        more
    }
}

/// Whether a runtime has stopped itself after dispatching `msg`, given
/// whether it had before: it stops exactly when the message asks for
/// shutdown (whatever `is_shutdown` answered for it).
pub open spec fn stop_after_dispatch<M: Message>(before: bool, msg: M, after: bool) -> bool {
    exists|s: bool| #[trigger] call_ensures(M::is_shutdown, (&msg,), s) && after == (before || s)
}

/// A runtime that dispatches a message stops itself if and only if the
/// message asks for shutdown: an ordinary message leaves it running (so it
/// keeps processing later messages), a shutdown message stops it, and a
/// stopped runtime stays stopped.
pub proof fn law_runtime_stops_exactly_on_shutdown<M: Message>(before: bool, msg: M, after: bool)
    requires
        stop_after_dispatch(before, msg, after),
    ensures
        before ==> after,
        (forall|s: bool| #[trigger] call_ensures(M::is_shutdown, (&msg,), s) ==> !s) ==> after == before,
        (forall|s: bool| #[trigger] call_ensures(M::is_shutdown, (&msg,), s) ==> s) ==> after,
{
}

/// `fast_send` answers `None` only when its envelope could not be posted or
/// the reply queue closed without a value; any answer it gives is a value
/// taken from a reply queue.
pub proof fn law_fast_send_answers_with_reply<M: Message>(
    target: LocalActorRef<M>,
    msg: M,
    sender: Option<ActorRef<M>>,
    reply: Option<M>,
)
    requires
        call_ensures(LocalActorRef::<M>::fast_send, (&target, msg, sender), reply),
    ensures
        reply is None ==> (exists|env: Envelope<M>|
            env.msg == msg && #[trigger] call_ensures(Mailbox::<M>::post, (&target.mailbox_view(), env), false))
            || (exists|rx: QueueReceiver<M>| #[trigger] call_ensures(QueueReceiver::<M>::take, (&rx,), None::<M>)),
        reply matches Some(v) ==> exists|rx: QueueReceiver<M>|
            #[trigger] call_ensures(QueueReceiver::<M>::take, (&rx,), Some(v)),
{
    let (env, posted, rx) = choose|env: Envelope<M>, posted: bool, rx: QueueReceiver<M>|
        #![trigger call_ensures(Mailbox::<M>::post, (&target.mailbox_view(), env), posted), call_ensures(reply_after_post::<M>, (posted, &rx), reply)]
        {
            &&& env.msg == msg
            &&& env.sender == sender
            &&& env.reply_channel is Some
            &&& call_ensures(Mailbox::<M>::post, (&target.mailbox_view(), env), posted)
            &&& call_ensures(reply_after_post::<M>, (posted, &rx), reply)
            &&& !posted ==> reply is None
            &&& posted ==> call_ensures(QueueReceiver::<M>::take, (&rx,), reply)
        };
    if posted {
        assert(call_ensures(QueueReceiver::<M>::take, (&rx,), reply));
        if reply is Some {
            assert(call_ensures(QueueReceiver::<M>::take, (&rx,), Some(reply->0)));
        }
    } else {
        assert(call_ensures(Mailbox::<M>::post, (&target.mailbox_view(), env), false));
    }
}

/// The context a dispatched handler is given answers the envelope it was
/// given: a reply goes through the envelope's reply channel when it has one
/// (a fast_send waits on it), else to the envelope's sender with this actor
/// named as sender, else nowhere.
pub proof fn law_handed_context_answers_envelope<M>(
    handed: ActorContext<M>,
    envelope: Envelope<M>,
    self_ref: Option<ActorRef<M>>,
)
    requires
        handed.sender_view() == envelope.sender,
        handed.reply_channel_view() == envelope.reply_channel,
        handed.self_ref_view() == self_ref,
    ensures
        envelope.reply_channel is Some ==> handed.route_view() == ReplyRoute::ReplyChannel,
        envelope.reply_channel is None && envelope.sender is Some ==> handed.route_view()
            == ReplyRoute::Sender,
        envelope.reply_channel is None && envelope.sender is None ==> handed.route_view()
            == ReplyRoute::Dropped,
{
}

impl<M> LocalActorRef<M> {
    /// The reference made of `mailbox` and `name`.
    pub closed spec fn spec_from(mailbox: Mailbox<M>, name: String) -> Self {
        LocalActorRef { sender: mailbox, name }
    }
}

} // verus!
