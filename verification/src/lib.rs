//! A small actor framework: actors own a mailbox, exchange messages through
//! `ActorRef`s, reply through an `ActorContext`, and reach actors in other
//! processes through a JSON wire envelope.

pub mod actor;
pub mod group;
pub mod mailbox;
pub mod manager;
pub mod message;
pub mod messages;
pub mod names;
pub mod remote;
pub mod serialization;
pub mod text;
pub mod wire;

pub use actor::{Actor, ActorContext, ActorRef, ActorRuntime, Delivery, Envelope, LocalActorRef, Replied};
pub use group::{worker_step, Group, GroupMember, Poll, WorkerStep};
pub use mailbox::{mailbox_pair, queue_pair, reply_after_post, Inbox, Mailbox, Posted, QueueReceiver, QueueSender};
pub use manager::{Manager, ManagerHandle, ThreadConfig};
pub use message::Message;
pub use messages::{Continue, Reject, Shutdown, Start, Timeout};
pub use names::NameMap;
pub use remote::{after_connect, push_plan, ActorRegistry, Incoming, PushStep, RemoteActorRef, ZmqReceiver, ZmqSender};
pub use serialization::MessageRegistry;
pub use wire::{SendRequest, WireEnvelope, WirePayload};
