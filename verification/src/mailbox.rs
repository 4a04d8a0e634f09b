//! Channel plumbing: the std `mpsc` channel that carries values between
//! threads, the mailbox and inbox of an actor built on it, and shared handles.
//!
//! Every end of a queue carries the identity of the queue it belongs to (a
//! ghost integer), so that contracts can say that a sending end and a
//! receiving end are connected. A `Mailbox` is the sending end of an actor's
//! queue and an `Inbox` its receiving end. A mailbox keeps its std sender in
//! an opaque field: the channel carries envelopes, which carry `ActorRef`s,
//! which hold mailboxes, and that cycle is only accepted when the channel end
//! is hidden.

use std::sync::mpsc::{Receiver, Sender};
use std::sync::Arc;
use vstd::prelude::*;

use crate::actor::Envelope;
use crate::group::Poll;

verus! {

#[verifier::external_type_specification]
#[verifier::external_body]
#[verifier::reject_recursive_types(T)]
pub struct ExSender<T>(Sender<T>);

#[verifier::external_type_specification]
#[verifier::external_body]
#[verifier::reject_recursive_types(T)]
pub struct ExReceiver<T>(Receiver<T>);

/// Calls `Arc::clone`: the new handle points to the same value, which is
/// what equality of `Arc`s means here.
#[verifier::external_body]
pub(crate) fn share<T>(a: &Arc<T>) -> (r: Arc<T>)
    ensures
        r == *a,
{
    Arc::clone(a)
}

/// The sending end of a queue.
#[verifier::reject_recursive_types(T)]
pub struct QueueSender<T> {
    end: Sender<T>,
    queue: Ghost<int>,
}

/// The receiving end of a queue.
#[verifier::reject_recursive_types(T)]
pub struct QueueReceiver<T> {
    end: Receiver<T>,
    queue: Ghost<int>,
}

/// Calls `std::sync::mpsc::channel`, whose two ends belong to one fresh
/// queue: the contract records that by giving both the same queue identity.
/// Nothing is claimed of what travels through the queue.
#[verifier::external_body]
pub fn queue_pair<T>() -> (r: (QueueSender<T>, QueueReceiver<T>))
    ensures
        r.0.queue_id() == r.1.queue_id(),
{
    let (tx, rx) = std::sync::mpsc::channel();
    let queue: Ghost<int> = Ghost(0int);
    (QueueSender { end: tx, queue }, QueueReceiver { end: rx, queue })
}

/// Calls `Sender::send`; the result says whether the value was queued, which
/// depends on whether the receiving end is still alive, so nothing is claimed.
#[verifier::external_body]
fn send_on<T>(tx: &Sender<T>, value: T) -> bool {
    tx.send(value).is_ok()
}

/// Calls `Receiver::try_recv`, which does not block: `Item` when a value
/// was waiting, `Empty` when none was, `Closed` when none was and every
/// sender is gone. Which of these comes back depends on other threads.
#[verifier::external_body]
fn try_recv_on<T>(rx: &Receiver<T>) -> Poll<T> {
    match rx.try_recv() {
        Ok(v) => Poll::Item(v),
        Err(std::sync::mpsc::TryRecvError::Empty) => Poll::Empty,
        Err(std::sync::mpsc::TryRecvError::Disconnected) => Poll::Closed,
    }
}

/// Calls `Receiver::recv`, which blocks until a value arrives or every sender
/// is gone; which value arrives depends on other threads, so nothing is claimed.
#[verifier::external_body]
fn recv_on<T>(rx: &Receiver<T>) -> Option<T> {
    rx.recv().ok()
}

/// The record of one post: the value handed to a queue, that queue's
/// identity, and whether the receiving end took it.
pub struct Posted<T> {
    value: Ghost<T>,
    queue: Ghost<int>,
    accepted: bool,
}

impl<T> Posted<T> {
    /// The value that was handed to the queue.
    pub closed spec fn value(&self) -> T {
        self.value@
    }

    /// The identity of the queue it was handed to.
    pub closed spec fn queue(&self) -> int {
        self.queue@
    }

    /// Whether the queue took the value (its receiving end was alive).
    pub closed spec fn accepted_view(&self) -> bool {
        self.accepted
    }

    /// Whether the queue took the value.
    pub fn accepted(&self) -> (b: bool)
        ensures
            b == self.accepted_view(),
    {
        self.accepted
    }
}

impl<T> QueueSender<T> {
    /// The identity of the queue this end posts into.
    pub closed spec fn queue_id(&self) -> int {
        self.queue@
    }

    /// Post `value` into the queue, and keep the record of it: the value,
    /// this queue, and whether it was queued (which depends on whether the
    /// receiving end is still alive).
    pub fn post(&self, value: T) -> (p: Posted<T>)
        ensures
            p.value() == value,
            p.queue() == self.queue_id(),
    {
        let ghost v = value;
        let accepted = send_on(&self.end, value);
        Posted { value: Ghost(v), queue: self.queue, accepted }
    }

    /// Post `value` into the queue; the result says whether it was queued,
    /// which depends on whether the receiving end is still alive.
    pub fn send(&self, value: T) -> (b: bool)
        ensures
            exists|p: Posted<T>| #[trigger] call_ensures(QueueSender::<T>::post, (self, value), p) && b == p.accepted_view(),
    {
        let p = self.post(value);
        let b = p.accepted();
        assert(call_ensures(QueueSender::<T>::post, (self, value), p));
        b
    }

    /// The std sender of this end.
    pub fn into_sender(self) -> Sender<T> {
        self.end
    }
}

impl<T> QueueReceiver<T> {
    /// The identity of the queue this end reads from.
    pub closed spec fn queue_id(&self) -> int {
        self.queue@
    }

    /// Wait for the next value: `Some` when one arrives, `None` when every
    /// sending end of this queue is gone.
    pub fn take(&self) -> Option<T> {
        recv_on(&self.end)
    }

    /// Look for the next value without waiting.
    pub fn try_take(&self) -> Poll<T> {
        try_recv_on(&self.end)
    }
}

/// Post `value` through the std sender `tx`, and keep the record of it;
/// the queue of a bare std sender is not known here.
pub fn post_through<T>(tx: &Sender<T>, value: T) -> (p: Posted<T>)
    ensures
        p.value() == value,
{
    let ghost v = value;
    let accepted = send_on(tx, value);
    Posted { value: Ghost(v), queue: Ghost(arbitrary()), accepted }
}

/// The answer to a request posted with a reply queue: nothing when the
/// request could not be posted, else the first value that arrives on
/// `reply` (nothing when its sending end is dropped unused).
pub fn reply_after_post<T>(posted: bool, reply: &QueueReceiver<T>) -> (r: Option<T>)
    ensures
        !posted ==> r is None,
        posted ==> call_ensures(QueueReceiver::<T>::take, (reply,), r),
{
    if posted {
        reply.take()
    } else {
        None
    }
}

/// The std sender that a mailbox holds, out of Verus's sight.
#[verifier::external_body]
#[verifier::reject_recursive_types(M)]
pub struct MailboxEnd<M> {
    tx: Sender<Envelope<M>>,
}

impl<M> MailboxEnd<M> {
    /// Moves a std sender of envelopes in; claims nothing of the result.
    #[verifier::external_body]
    fn from_sender(tx: Sender<Envelope<M>>) -> MailboxEnd<M> {
        MailboxEnd { tx }
    }

    /// Calls `Sender::clone`: the copy posts into the same queue, and no
    /// specification tells the two apart, so it is claimed equal.
    #[verifier::external_body]
    fn duplicate(&self) -> (dup: MailboxEnd<M>)
        ensures
            dup == *self,
    {
        MailboxEnd { tx: self.tx.clone() }
    }

    /// The std sender held.
    #[verifier::external_body]
    fn as_sender(&self) -> &Sender<Envelope<M>> {
        &self.tx
    }
}

/// Sending end of an actor's envelope queue.
#[verifier::reject_recursive_types(M)]
pub struct Mailbox<M> {
    end: MailboxEnd<M>,
    queue: Ghost<int>,
}

/// Receiving end of an actor's envelope queue.
#[verifier::reject_recursive_types(M)]
pub struct Inbox<M> {
    rx: QueueReceiver<Envelope<M>>,
}

/// A fresh envelope queue: its sending and its receiving end, connected.
pub fn mailbox_pair<M>() -> (r: (Mailbox<M>, Inbox<M>))
    ensures
        r.0.queue_id() == r.1.queue_id(),
{
    let (tx, rx) = queue_pair::<Envelope<M>>();
    (Mailbox::from_queue(tx), Inbox { rx })
}

impl<M> Mailbox<M> {
    /// The identity of the queue this mailbox posts into.
    pub closed spec fn queue_id(&self) -> int {
        self.queue@
    }

    /// The mailbox that posts into the queue of `tx`.
    pub fn from_queue(tx: QueueSender<Envelope<M>>) -> (m: Mailbox<M>)
        ensures
            m.queue_id() == tx.queue_id(),
    {
        let queue = tx.queue;
        Mailbox { end: MailboxEnd::from_sender(tx.into_sender()), queue }
    }

    /// The mailbox that posts through a std sender of envelopes, whose queue
    /// is not known here.
    pub fn from_sender(tx: Sender<Envelope<M>>) -> Mailbox<M> {
        Mailbox { end: MailboxEnd::from_sender(tx), queue: Ghost(arbitrary()) }
    }

    /// A second mailbox for the same queue.
    pub fn duplicate(&self) -> (dup: Mailbox<M>)
        ensures
            dup == *self,
            dup.queue_id() == self.queue_id(),
    {
        Mailbox { end: self.end.duplicate(), queue: self.queue }
    }

    /// Post an envelope, and keep the record of it: the envelope, this
    /// mailbox's queue, and whether it was queued (which depends on whether
    /// the inbox is still alive).
    pub fn deliver(&self, envelope: Envelope<M>) -> (p: Posted<Envelope<M>>)
        ensures
            p.value() == envelope,
            p.queue() == self.queue_id(),
    {
        let ghost v = envelope;
        let accepted = send_on(self.end.as_sender(), envelope);
        Posted { value: Ghost(v), queue: self.queue, accepted }
    }

    /// Post an envelope; the result says whether it was queued, which
    /// depends on whether the inbox is still alive.
    pub fn post(&self, envelope: Envelope<M>) -> (b: bool)
        ensures
            exists|p: Posted<Envelope<M>>|
                #[trigger] call_ensures(Mailbox::<M>::deliver, (self, envelope), p) && b == p.accepted_view(),
    {
        let p = self.deliver(envelope);
        let b = p.accepted();
        assert(call_ensures(Mailbox::<M>::deliver, (self, envelope), p));
        b
    }
}

impl<M> Inbox<M> {
    /// The identity of the queue this inbox reads from.
    pub closed spec fn queue_id(&self) -> int {
        self.rx.queue_id()
    }

    /// Wait for the next envelope: `Some` when one arrives, `None` when every
    /// mailbox of this queue is gone.
    pub fn take(&self) -> Option<Envelope<M>> {
        self.rx.take()
    }

    /// Look for the next envelope without waiting.
    pub fn try_take(&self) -> Poll<Envelope<M>> {
        self.rx.try_take()
    }
}

} // verus!
