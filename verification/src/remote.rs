//! Actors in other processes: references to them, the sender that frames and
//! queues messages for them, the registry of local actors that remote
//! messages may reach, and the decision taken for each incoming message.
//!
//! The sockets themselves (ZMQ PUSH/PULL over TCP) and the JSON encoding of
//! envelopes live at the edge of the program; this module decides what goes
//! out and what happens to what comes in.

use std::sync::Arc;
use vstd::prelude::*;

use crate::actor::{ActorRef, LocalActorRef};
use crate::mailbox::{queue_pair, share, Posted, QueueReceiver, QueueSender};
use crate::message::Message;
use crate::messages::Reject;
use crate::names::NameMap;
use crate::text::{absent, lemma_replaced_absent, replace_all, replaced};
use crate::wire::{SendRequest, WireEnvelope, WirePayload};

verus! {

/// Reference to an actor in a remote process.
pub struct RemoteActorRef {
    name: String,
    endpoint: String,
    zmq_sender: Arc<ZmqSender>,
}

impl RemoteActorRef {
    /// The name of the remote actor.
    pub closed spec fn name_view(&self) -> Seq<char> {
        self.name@
    }

    /// The endpoint of the process the remote actor lives in.
    pub closed spec fn endpoint_view(&self) -> Seq<char> {
        self.endpoint@
    }

    /// The sender that carries messages to the remote process.
    pub closed spec fn sender_view(&self) -> Arc<ZmqSender> {
        self.zmq_sender
    }

    /// Create a new remote actor reference.
    pub fn new(name: &str, endpoint: &str, zmq_sender: Arc<ZmqSender>) -> (r: Self)
        ensures
            r.name_view() == name@,
            r.endpoint_view() == endpoint@,
            r.sender_view() == zmq_sender,
    {
        RemoteActorRef { name: name.to_string(), endpoint: endpoint.to_string(), zmq_sender }
    }

    /// Get the actor's name
    pub fn name(&self) -> (n: &str)
        ensures
            n@ == self.name_view(),
    {
        self.name.as_str()
    }

    /// Get the endpoint
    pub fn endpoint(&self) -> (e: &str)
        ensures
            e@ == self.endpoint_view(),
    {
        self.endpoint.as_str()
    }

    /// Convert to an ActorRef enum
    pub fn into_actor_ref<M>(self) -> (r: ActorRef<M>)
        ensures
            r == ActorRef::<M>::Remote(self),
    {
        ActorRef::Remote(self)
    }

    /// Send a message to this remote actor: framed for the actor's name and
    /// queued to its endpoint (see `ZmqSender::send_to`); the record of the
    /// post is returned.
    pub fn send<M: Message>(&self, msg: M, sender: Option<ActorRef<M>>) -> (r: Option<Posted<SendRequest>>)
        ensures
            sends_framed(*self.sender_view(), self.endpoint_view(), self.name_view(), msg, sender, r),
    {
        self.zmq_sender.send_to(self.endpoint.as_str(), self.name.as_str(), msg, sender)
    }
}

impl Clone for RemoteActorRef {
    /// A copy of this reference: same name, endpoint and sender.
    fn clone(&self) -> (r: Self)
        ensures
            r == *self,
    {
        RemoteActorRef {
            name: self.name.clone(),
            endpoint: self.endpoint.clone(),
            zmq_sender: share(&self.zmq_sender),
        }
    }
}

/// Sends messages to remote processes.
///
/// Messages are framed on the caller's thread and queued; the receiving end
/// of the queue belongs to the thread that owns the sockets.
pub struct ZmqSender {
    send_tx: QueueSender<SendRequest>,
    local_endpoint: String,
}

/// Who a reply to a framed message should go to: the sender's name and the
/// endpoint of its process. A local sender is reached through `local_endpoint`;
/// a remote sender through its own endpoint; no sender gives neither.
pub open spec fn reply_address<M>(local_endpoint: Seq<char>, sender: Option<ActorRef<M>>) -> (
    Option<Seq<char>>,
    Option<Seq<char>>,
) {
    match sender {
        Some(ActorRef::Local(r)) => (Some(r.name_view()), Some(local_endpoint)),
        Some(ActorRef::Remote(r)) => (Some(r.name_view()), Some(r.endpoint_view())),
        None => (None, None),
    }
}

/// `r` records the sending of `msg`, from `sender`, to the actor
/// `actor_name` at `endpoint` through `zmq`: the message's wire form
/// (whatever `wire_payload` gave) is framed with the reply address of
/// `sender` and posted to `zmq`'s queue as a request for `endpoint`; a
/// message without a wire form is not posted.
pub open spec fn sends_framed<M: Message>(
    zmq: ZmqSender,
    endpoint: Seq<char>,
    actor_name: Seq<char>,
    msg: M,
    sender: Option<ActorRef<M>>,
    r: Option<Posted<SendRequest>>,
) -> bool {
    exists|w: Option<WirePayload>|
        #[trigger] call_ensures(M::wire_payload, (&msg,), w) && match w {
            None => r is None,
            Some(pl) => r matches Some(p) && p.queue() == zmq.queue_id() && p.value().endpoint@
                == endpoint && frames(
                p.value().envelope,
                reply_address(zmq.local_endpoint_view(), sender),
                actor_name,
                pl,
            ),
        }
}

/// The view of an optional string.
pub open spec fn opt_view(s: Option<String>) -> Option<Seq<char>> {
    match s {
        Some(t) => Some(t@),
        None => None,
    }
}

/// The envelope `e` carries `payload` to `actor_name`, with reply address `addr`.
pub open spec fn frames(
    e: WireEnvelope,
    addr: (Option<Seq<char>>, Option<Seq<char>>),
    actor_name: Seq<char>,
    payload: WirePayload,
) -> bool {
    &&& opt_view(e.sender_actor) == addr.0
    &&& opt_view(e.sender_endpoint) == addr.1
    &&& e.receiver@ == actor_name
    &&& e.message_type@ == payload.message_type@
    &&& e.message@ == payload.message@
}

/// The wildcard-host pattern `tcp://*:`.
pub open spec fn wildcard_view() -> Seq<char> {
    seq!['t', 'c', 'p', ':', '/', '/', '*', ':']
}

/// The pattern of a wildcard TCP address.
fn wildcard() -> (s: &'static str)
    ensures
        s@ == wildcard_view(),
{
    proof {
        reveal_strlit("tcp://*:");
        assert("tcp://*:"@ =~= wildcard_view());
    }
    "tcp://*:"
}

/// The address to connect to for `endpoint`: a wildcard host (`tcp://*:`) is
/// reached on `localhost`.
pub open spec fn connect_address_view(endpoint: Seq<char>) -> Seq<char> {
    replaced(
        endpoint,
        wildcard_view(),
        seq!['t', 'c', 'p', ':', '/', '/', 'l', 'o', 'c', 'a', 'l', 'h', 'o', 's', 't', ':'],
    )
}

/// The address to bind for `endpoint`: a wildcard host (`tcp://*:`) binds
/// every interface (`0.0.0.0`).
pub open spec fn bind_address_view(endpoint: Seq<char>) -> Seq<char> {
    replaced(
        endpoint,
        wildcard_view(),
        seq!['t', 'c', 'p', ':', '/', '/', '0', '.', '0', '.', '0', '.', '0', ':'],
    )
}

/// The address to connect to for `endpoint`.
pub fn connect_address(endpoint: &str) -> (r: String)
    ensures
        r@ == connect_address_view(endpoint@),
{
    proof {
        reveal_strlit("tcp://localhost:");
        assert("tcp://localhost:"@ =~= seq![
            't', 'c', 'p', ':', '/', '/', 'l', 'o', 'c', 'a', 'l', 'h', 'o', 's', 't', ':',
        ]);
    }
    replace_all(endpoint, wildcard(), "tcp://localhost:")
}

/// The address to bind for `endpoint`.
pub fn bind_address(endpoint: &str) -> (r: String)
    ensures
        r@ == bind_address_view(endpoint@),
{
    proof {
        reveal_strlit("tcp://0.0.0.0:");
        assert("tcp://0.0.0.0:"@ =~= seq![
            't', 'c', 'p', ':', '/', '/', '0', '.', '0', '.', '0', '.', '0', ':',
        ]);
    }
    replace_all(endpoint, wildcard(), "tcp://0.0.0.0:")
}

/// An endpoint that does not use the wildcard host is bound and connected to
/// exactly as given.
pub proof fn law_plain_endpoint_used_as_given(endpoint: Seq<char>)
    requires
        absent(endpoint, wildcard_view()),
    ensures
        bind_address_view(endpoint) == endpoint,
        connect_address_view(endpoint) == endpoint,
{
    lemma_replaced_absent(
        endpoint,
        wildcard_view(),
        seq!['t', 'c', 'p', ':', '/', '/', '0', '.', '0', '.', '0', '.', '0', ':'],
    );
    lemma_replaced_absent(
        endpoint,
        wildcard_view(),
        seq!['t', 'c', 'p', ':', '/', '/', 'l', 'o', 'c', 'a', 'l', 'h', 'o', 's', 't', ':'],
    );
}

/// A message framed for a local actor of this process names that actor and
/// this process's endpoint as its reply address, and a message framed for a
/// remote actor names that actor and its own endpoint: either way the
/// receiving process can reply.
pub proof fn law_framed_reply_address<M>(
    e: WireEnvelope,
    local_endpoint: Seq<char>,
    sender: ActorRef<M>,
    actor_name: Seq<char>,
    payload: WirePayload,
)
    requires
        frames(e, reply_address(local_endpoint, Some(sender)), actor_name, payload),
    ensures
        sender_known(e),
        e.sender_actor->0@ == sender.name_view(),
        e.sender_endpoint->0@ == (match sender {
            ActorRef::Local(_) => local_endpoint,
            ActorRef::Remote(r) => r.endpoint_view(),
        }),
        e.receiver@ == actor_name,
{
}

impl ZmqSender {
    /// This process's endpoint, given to remote actors for replies.
    pub closed spec fn local_endpoint_view(&self) -> Seq<char> {
        self.local_endpoint@
    }

    /// The identity of the queue that this sender's requests go into.
    pub closed spec fn queue_id(&self) -> int {
        self.send_tx.queue_id()
    }

    /// A sender for this process, whose endpoint for reply routing is
    /// `local_endpoint`, together with the receiving end of its queue for
    /// the thread that owns the sockets.
    pub fn with_queue(local_endpoint: &str) -> (r: (Self, QueueReceiver<SendRequest>))
        ensures
            r.0.local_endpoint_view() == local_endpoint@,
            r.0.queue_id() == r.1.queue_id(),
    {
        let (send_tx, rx) = queue_pair::<SendRequest>();
        (ZmqSender { send_tx, local_endpoint: local_endpoint.to_string() }, rx)
    }

    /// Get the local endpoint.
    pub fn local_endpoint(&self) -> (e: &str)
        ensures
            e@ == self.local_endpoint_view(),
    {
        self.local_endpoint.as_str()
    }

    /// Create a remote actor reference that sends through this sender.
    pub fn remote_ref(self: &Arc<Self>, name: &str, endpoint: &str) -> (r: RemoteActorRef)
        ensures
            r.name_view() == name@,
            r.endpoint_view() == endpoint@,
            r.sender_view() == *self,
    {
        RemoteActorRef::new(name, endpoint, share(self))
    }

    /// The reply address of a message sent by `sender` from this process.
    pub fn reply_address<M>(&self, sender: &Option<ActorRef<M>>) -> (r: (
        Option<String>,
        Option<String>,
    ))
        ensures
            (opt_view(r.0), opt_view(r.1)) == reply_address(self.local_endpoint_view(), *sender),
    {
        match sender {
            Some(ActorRef::Local(r)) => (
                Some(r.name().to_string()),
                Some(self.local_endpoint.clone()),
            ),
            Some(ActorRef::Remote(r)) => (
                Some(r.name().to_string()),
                Some(r.endpoint().to_string()),
            ),
            None => (None, None),
        }
    }

    /// Frame `payload` for the actor `actor_name`, with the reply address of
    /// `sender`.
    pub fn frame<M>(&self, actor_name: &str, payload: WirePayload, sender: &Option<ActorRef<M>>) -> (e: WireEnvelope)
        ensures
            frames(e, reply_address(self.local_endpoint_view(), *sender), actor_name@, payload),
    {
        let (sender_actor, sender_endpoint) = self.reply_address(sender);
        WireEnvelope {
            sender_actor,
            sender_endpoint,
            receiver: actor_name.to_string(),
            message_type: payload.message_type,
            message: payload.message,
        }
    }

    /// The request that sends `payload` to the actor `actor_name` at
    /// `endpoint`, with the reply address of `sender`: `None` when the
    /// message has no wire form.
    pub fn plan_send<M>(
        &self,
        endpoint: &str,
        actor_name: &str,
        payload: Option<WirePayload>,
        sender: &Option<ActorRef<M>>,
    ) -> (r: Option<SendRequest>)
        ensures
            payload is None ==> r is None,
            payload matches Some(p) ==> (r matches Some(q) && q.endpoint@ == endpoint@ && frames(
                q.envelope,
                reply_address(self.local_endpoint_view(), *sender),
                actor_name@,
                p,
            )),
    {
        match payload {
            Some(p) => {
                let envelope = self.frame(actor_name, p, sender);
                Some(SendRequest { endpoint: endpoint.to_string(), envelope })
            },
            None => None,
        }
    }

    /// Send a message to a remote actor (returns immediately).
    ///
    /// The message's wire form is framed on the caller's thread
    /// (`plan_send`) and the request is queued to the socket thread; the
    /// record of that post is returned. A message whose type is not
    /// registered for remote use has no wire form and is not sent.
    pub fn send_to<M: Message>(
        &self,
        endpoint: &str,
        actor_name: &str,
        msg: M,
        sender: Option<ActorRef<M>>,
    ) -> (r: Option<Posted<SendRequest>>)
        ensures
            sends_framed(*self, endpoint@, actor_name@, msg, sender, r),
    {
        let payload = msg.wire_payload();
        let r = match self.plan_send(endpoint, actor_name, payload, &sender) {
            Some(request) => Some(self.send_tx.post(request)),
            None => None,
        };
        assert(call_ensures(M::wire_payload, (&msg,), payload));
        r
    }
}

/// What the socket thread does with a request: push it on the socket it
/// already holds for the request's endpoint, or first connect a new socket
/// to this address.
pub enum PushStep {
    /// A socket for the endpoint is connected: push the request on it
    Push,
    /// No socket for the endpoint yet: connect one to this address first
    Connect(String),
}

/// The step for `req`, given the endpoints that already have a connected
/// socket: one socket is kept per endpoint, and a new one connects to the
/// endpoint with a wildcard host read as `localhost`.
pub fn push_plan(connected: &NameMap<()>, req: &SendRequest) -> (s: PushStep)
    ensures
        connected@.contains_key(req.endpoint@) ==> s is Push,
        !connected@.contains_key(req.endpoint@) ==> (s matches PushStep::Connect(a) && a@
            == connect_address_view(req.endpoint@)),
{
    if connected.contains_key(req.endpoint.as_str()) {
        PushStep::Push
    } else {
        PushStep::Connect(connect_address(req.endpoint.as_str()))
    }
}

/// Record the outcome of connecting a socket for `endpoint`: on success the
/// endpoint has a socket and the request is pushed; on failure the request
/// is dropped and a later request to that endpoint connects again.
pub fn after_connect(connected: &mut NameMap<()>, endpoint: &str, ok: bool) -> (push: bool)
    ensures
        push == ok,
        final(connected)@ == (if ok {
            old(connected)@.insert(endpoint@, ())
        } else {
            old(connected)@
        }),
{
    if ok {
        connected.insert(endpoint.to_string(), ());
    }
    ok
}

/// Registry of local actors that remote messages may reach, by name.
#[verifier::reject_recursive_types(M)]
pub struct ActorRegistry<M> {
    actors: NameMap<ActorRef<M>>,
}

impl<M> View for ActorRegistry<M> {
    type V = Map<Seq<char>, ActorRef<M>>;

    closed spec fn view(&self) -> Map<Seq<char>, ActorRef<M>> {
        self.actors@
    }
}

impl<M> ActorRegistry<M> {
    /// Create a new empty registry.
    pub fn new() -> (r: Self)
        ensures
            r@ == Map::<Seq<char>, ActorRef<M>>::empty(),
    {
        ActorRegistry { actors: NameMap::new() }
    }

    /// Register a local actor under `name`, replacing any actor registered
    /// under that name before.
    pub fn register(&mut self, name: &str, actor_ref: ActorRef<M>)
        ensures
            final(self)@ == old(self)@.insert(name@, actor_ref),
    {
        self.actors.insert(name.to_string(), actor_ref);
    }

    /// Look up an actor by name.
    pub fn get(&self, name: &str) -> (r: Option<ActorRef<M>>)
        ensures
            r == (if self@.contains_key(name@) {
                Some(self@[name@])
            } else {
                None
            }),
    {
        match self.actors.get(name) {
            Some(a) => Some(a.clone()),
            None => None,
        }
    }

    /// The names of all registered actors, each once.
    pub fn names(&self) -> (r: Vec<String>)
        ensures
            forall|k: Seq<char>| self@.contains_key(k) <==> exists|i: int|
                0 <= i < r@.len() && #[trigger] r@[i]@ == k,
            forall|i: int, j: int|
                0 <= i < r@.len() && 0 <= j < r@.len() && i != j ==> #[trigger] r@[i]@
                    != #[trigger] r@[j]@,
    {
        self.actors.names()
    }
}

impl<M> Default for ActorRegistry<M> {
    fn default() -> (r: Self)
        ensures
            r@ == Map::<Seq<char>, ActorRef<M>>::empty(),
    {
        Self::new()
    }
}

/// What becomes of a message that arrived from another process.
#[verifier::reject_recursive_types(M)]
pub enum Incoming<M> {
    /// Deliver `msg` to the local actor `target`; replies go to `sender`
    Deliver { target: ActorRef<M>, msg: M, sender: Option<RemoteActorRef> },
    /// Send `reject` back to the actor `actor` in the process at `endpoint`
    Reject { endpoint: String, actor: String, reject: Reject },
    /// Drop the message: it cannot be delivered and nobody can be told
    Ignore,
}

/// The envelope names both its sender and the sender's endpoint.
pub open spec fn sender_known(env: WireEnvelope) -> bool {
    env.sender_actor is Some && env.sender_endpoint is Some
}

/// `r` answers the refusal of `env` for `reason`: a Reject naming the
/// message type, the reason and the intended receiver goes back to the
/// sender, or, when the sender is unknown, the message is dropped.
pub open spec fn answers_refusal<M>(r: Incoming<M>, env: WireEnvelope, reason: Seq<char>) -> bool {
    if sender_known(env) {
        r matches Incoming::Reject { endpoint, actor, reject } && endpoint@
            == env.sender_endpoint->0@ && actor@ == env.sender_actor->0@
            && reject.message_type@ == env.message_type@ && reject.reason@ == reason
            && reject.rejected_by@ == env.receiver@
    } else {
        r is Ignore
    }
}

/// The reason given when no local actor is registered under `receiver`.
pub open spec fn not_found_reason(receiver: Seq<char>) -> Seq<char> {
    seq!['A', 'c', 't', 'o', 'r', ' ', '\''] + receiver + seq![
        '\'',
        ' ',
        'n',
        'o',
        't',
        ' ',
        'f',
        'o',
        'u',
        'n',
        'd',
    ]
}

/// `r` is what becomes of the incoming message `env`, whose fields were
/// decoded into `decoded`, at a process whose local actors are `registry`
/// and which replies through `zmq`: an unknown receiver is refused with
/// "Actor '<receiver>' not found"; a message that could not be decoded is
/// refused with the decoder's reason; otherwise the message goes to the
/// registered actor, with the sender as a remote reference when the envelope
/// names both the sender and its endpoint.
pub open spec fn plans_incoming<M>(
    r: Incoming<M>,
    env: WireEnvelope,
    registry: Map<Seq<char>, ActorRef<M>>,
    decoded: Result<M, String>,
    zmq: Arc<ZmqSender>,
) -> bool {
    if !registry.contains_key(env.receiver@) {
        answers_refusal(r, env, not_found_reason(env.receiver@))
    } else {
        match decoded {
            Err(reason) => answers_refusal(r, env, reason@),
            Ok(m) => r matches Incoming::Deliver { target, msg, sender } && target
                == registry[env.receiver@] && msg == m && (if sender_known(env) {
                sender matches Some(s) && s.name_view() == env.sender_actor->0@
                    && s.endpoint_view() == env.sender_endpoint->0@ && s.sender_view() == zmq
            } else {
                sender is None
            }),
        }
    }
}

/// A message that a local actor sends to a registered remote actor, and that
/// the receiving process decodes, is delivered with a reference back to the
/// sending actor at the sending process's endpoint: replies find their way
/// back.
pub proof fn law_reply_reaches_sender<M>(
    e: WireEnvelope,
    local_endpoint: Seq<char>,
    sender: LocalActorRef<M>,
    payload: WirePayload,
    r: Incoming<M>,
    registry: Map<Seq<char>, ActorRef<M>>,
    m: M,
    zmq: Arc<ZmqSender>,
)
    requires
        frames(e, reply_address(local_endpoint, Some(ActorRef::Local(sender))), e.receiver@, payload),
        registry.contains_key(e.receiver@),
        plans_incoming(r, e, registry, Ok(m), zmq),
    ensures
        r matches Incoming::Deliver { target, msg, sender: Some(back) } && target
            == registry[e.receiver@] && msg == m && back.name_view() == sender.name_view()
            && back.endpoint_view() == local_endpoint,
{
}

/// What `send_to` (and a remote reference's `send`) posts names the sending
/// actor and where it lives, so the remote actor can reply: a local sender
/// is named with this process's endpoint, a remote sender with its own. The
/// request goes to `endpoint`, for `actor_name`, on the sender's queue, and
/// carries the message's wire form; nothing is posted only for a message
/// without one.
pub proof fn law_remote_send_carries_reply_address<M: Message>(
    zmq: ZmqSender,
    endpoint: Seq<char>,
    actor_name: Seq<char>,
    msg: M,
    sender: ActorRef<M>,
    r: Option<Posted<SendRequest>>,
)
    requires
        sends_framed(zmq, endpoint, actor_name, msg, Some(sender), r),
    ensures
        r is None ==> call_ensures(M::wire_payload, (&msg,), None::<WirePayload>),
        r matches Some(p) ==> {
            &&& p.queue() == zmq.queue_id()
            &&& p.value().endpoint@ == endpoint
            &&& p.value().envelope.receiver@ == actor_name
            &&& p.value().envelope.sender_actor matches Some(a) && a@ == sender.name_view()
            &&& p.value().envelope.sender_endpoint matches Some(ep) && ep@ == (match sender {
                ActorRef::Local(_) => zmq.local_endpoint_view(),
                ActorRef::Remote(rr) => rr.endpoint_view(),
            })
            &&& exists|pl: WirePayload|
                #[trigger] call_ensures(M::wire_payload, (&msg,), Some(pl))
                    && p.value().envelope.message_type@ == pl.message_type@
                    && p.value().envelope.message@ == pl.message@
        },
{
    let w = choose|w: Option<WirePayload>|
        #[trigger] call_ensures(M::wire_payload, (&msg,), w) && match w {
            None => r is None,
            Some(pl) => r matches Some(p) && p.queue() == zmq.queue_id() && p.value().endpoint@
                == endpoint && frames(
                p.value().envelope,
                reply_address(zmq.local_endpoint_view(), Some(sender)),
                actor_name,
                pl,
            ),
        };
    if let Some(pl) = w {
        assert(call_ensures(M::wire_payload, (&msg,), Some(pl)));
    }
}

/// Receives messages from remote processes and routes them to local actors.
#[verifier::reject_recursive_types(M)]
pub struct ZmqReceiver<M> {
    bind_endpoint: String,
    zmq_sender: Arc<ZmqSender>,
    registry: ActorRegistry<M>,
}

impl<M> ZmqReceiver<M> {
    /// The endpoint this receiver listens on.
    pub closed spec fn bind_endpoint_view(&self) -> Seq<char> {
        self.bind_endpoint@
    }

    /// The sender used to reach the senders of incoming messages.
    pub closed spec fn sender_view(&self) -> Arc<ZmqSender> {
        self.zmq_sender
    }

    /// The local actors that incoming messages may reach.
    pub closed spec fn registry_view(&self) -> Map<Seq<char>, ActorRef<M>> {
        self.registry@
    }

    /// Create a new ZmqReceiver listening on `bind_endpoint`, replying
    /// through `zmq_sender`, with no actor registered.
    pub fn new(bind_endpoint: &str, zmq_sender: Arc<ZmqSender>) -> (r: Self)
        ensures
            r.bind_endpoint_view() == bind_endpoint@,
            r.sender_view() == zmq_sender,
            r.registry_view() == Map::<Seq<char>, ActorRef<M>>::empty(),
    {
        ZmqReceiver {
            bind_endpoint: bind_endpoint.to_string(),
            zmq_sender,
            registry: ActorRegistry::new(),
        }
    }

    /// Register a local actor to receive messages.
    pub fn register(&mut self, name: &str, actor_ref: ActorRef<M>)
        ensures
            final(self).registry_view() == old(self).registry_view().insert(name@, actor_ref),
            final(self).bind_endpoint_view() == old(self).bind_endpoint_view(),
            final(self).sender_view() == old(self).sender_view(),
    {
        self.registry.register(name, actor_ref);
    }

    /// Get the registry.
    pub fn registry(&self) -> (r: &ActorRegistry<M>)
        ensures
            r@ == self.registry_view(),
    {
        &self.registry
    }

    /// The sender used to reach the senders of incoming messages.
    pub fn zmq_sender(&self) -> (s: Arc<ZmqSender>)
        ensures
            s == self.sender_view(),
    {
        share(&self.zmq_sender)
    }

    /// The address the receiving socket binds.
    pub fn bind_address(&self) -> (a: String)
        ensures
            a@ == bind_address_view(self.bind_endpoint_view()),
    {
        bind_address(self.bind_endpoint.as_str())
    }

    /// The reply for a refused message: a Reject back to its sender, or
    /// nothing when the sender is unknown.
    fn refuse(env: &WireEnvelope, reason: &str) -> (r: Incoming<M>)
        ensures
            answers_refusal(r, *env, reason@),
    {
        match (&env.sender_actor, &env.sender_endpoint) {
            (Some(actor), Some(endpoint)) => Incoming::Reject {
                endpoint: endpoint.clone(),
                actor: actor.clone(),
                reject: Reject::new(env.message_type.as_str(), reason, env.receiver.as_str()),
            },
            _ => Incoming::Ignore,
        }
    }

    /// Decide what becomes of the incoming message `env`, whose fields were
    /// decoded into `decoded` (or could not be, for the reason given), with
    /// this receiver's registry and sender (see `plan_delivery`).
    pub fn plan_incoming(&self, env: &WireEnvelope, decoded: Result<M, String>) -> (r: Incoming<M>)
        ensures
            plans_incoming(r, *env, self.registry_view(), decoded, self.sender_view()),
    {
        plan_delivery(&self.registry, &self.zmq_sender, env, decoded)
    }
}

/// Decide what becomes of the incoming message `env`, whose fields were
/// decoded into `decoded` (or could not be, for the reason given), for the
/// local actors of `registry`, answering through `zmq_sender`.
///
/// An unknown receiver is refused with "Actor '<receiver>' not found"; a
/// message that could not be decoded is refused with the decoder's
/// reason; otherwise the message goes to the registered actor, with the
/// sender as a remote reference when the envelope names both the sender
/// and its endpoint.
pub fn plan_delivery<M>(
    registry: &ActorRegistry<M>,
    zmq_sender: &Arc<ZmqSender>,
    env: &WireEnvelope,
    decoded: Result<M, String>,
) -> (r: Incoming<M>)
    ensures
        plans_incoming(r, *env, registry@, decoded, *zmq_sender),
{
    let target = match registry.get(env.receiver.as_str()) {
        Some(t) => t,
        None => {
            let mut reason = String::from_str("Actor '");
            reason.append(env.receiver.as_str());
            reason.append("' not found");
            proof {
                reveal_strlit("Actor '");
                reveal_strlit("' not found");
                assert(reason@ == not_found_reason(env.receiver@));
            }
            return ZmqReceiver::<M>::refuse(env, reason.as_str());
        },
    };
    match decoded {
        Ok(msg) => {
            let sender = match (&env.sender_actor, &env.sender_endpoint) {
                (Some(actor), Some(endpoint)) => Some(
                    RemoteActorRef::new(actor.as_str(), endpoint.as_str(), share(zmq_sender)),
                ),
                _ => None,
            };
            Incoming::Deliver { target, msg, sender }
        },
        Err(reason) => ZmqReceiver::<M>::refuse(env, reason.as_str()),
    }
}

} // verus!
