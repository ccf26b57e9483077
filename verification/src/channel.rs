//! The queues between the worker and the threads that command it.
//!
//! What arrives on a queue, and whether the other end is still there, is up
//! to another thread. What this side controls is what it hands to a queue and
//! what it makes of the outcome. `Outbox` and `Inbox` keep a record of every
//! value handed over and every outcome, so that the functions that use them
//! can say exactly what they sent and what their answer rests on.

use std::sync::mpsc::{Receiver, Sender};
use vstd::prelude::*;

verus! {

/// The sending end of a queue: an opaque handle.
#[verifier::external_type_specification]
#[verifier::external_body]
#[verifier::reject_recursive_types(T)]
pub struct ExSender<T>(std::sync::mpsc::Sender<T>);

/// The receiving end of a queue: an opaque handle.
#[verifier::external_type_specification]
#[verifier::external_body]
#[verifier::reject_recursive_types(T)]
pub struct ExReceiver<T>(std::sync::mpsc::Receiver<T>);

/// Calls `Sender::send`. Answers whether the value was queued; it is not when
/// the receiving end is gone, which is up to another thread.
#[verifier::external_body]
fn channel_send<T>(sender: &std::sync::mpsc::Sender<T>, value: T) -> (queued: bool) {
    sender.send(value).is_ok()
}

/// Calls `Receiver::recv`: waits for the next value. Answers `None` when the
/// sending end is gone. What arrives is up to another thread.
#[verifier::external_body]
fn channel_recv<T>(receiver: &std::sync::mpsc::Receiver<T>) -> (received: Option<T>) {
    receiver.recv().ok()
}

/// One value that was handed to a queue, and whether the queue took it.
pub struct Sending<T> {
    pub value: T,
    pub queued: bool,
}

/// The sending end of a queue, with a record of what was handed to it.
#[verifier::reject_recursive_types(T)]
pub struct Outbox<T> {
    sender: Sender<T>,
    sent: Ghost<Seq<Sending<T>>>,
}

impl<T> Outbox<T> {
    /// The queue that the values go to.
    pub closed spec fn sender(&self) -> Sender<T> {
        self.sender
    }

    /// Every value handed to the queue so far, oldest first, each with
    /// whether the queue took it.
    pub closed spec fn sent(&self) -> Seq<Sending<T>> {
        self.sent@
    }

    /// A way to `sender` through which nothing has been sent yet.
    pub fn new(sender: Sender<T>) -> (outbox: Self)
        ensures
            outbox.sender() == sender,
            outbox.sent() == Seq::<Sending<T>>::empty(),
    {
        Self { sender, sent: Ghost(Seq::empty()) }
    }

    /// Hands `value` to the queue. Answers whether the queue took it.
    pub fn send(&mut self, value: T) -> (queued: bool)
        ensures
            final(self).sender() == old(self).sender(),
            final(self).sent() == old(self).sent().push(Sending { value, queued }),
    {
        let ghost handed = value;
        let queued = channel_send(&self.sender, value);
        self.sent = Ghost(self.sent@.push(Sending { value: handed, queued }));
        queued
    }
}

/// The receiving end of a queue, with a record of what was taken from it.
#[verifier::reject_recursive_types(T)]
pub struct Inbox<T> {
    receiver: Receiver<T>,
    received: Ghost<Seq<Option<T>>>,
}

impl<T> Inbox<T> {
    /// The queue that the values come from.
    pub closed spec fn receiver(&self) -> Receiver<T> {
        self.receiver
    }

    /// The outcome of every wait so far, oldest first: the value that came,
    /// or `None` where the sending end was gone.
    pub closed spec fn received(&self) -> Seq<Option<T>> {
        self.received@
    }

    /// A way to `receiver` through which nothing has been received yet.
    pub fn new(receiver: Receiver<T>) -> (inbox: Self)
        ensures
            inbox.receiver() == receiver,
            inbox.received() == Seq::<Option<T>>::empty(),
    {
        Self { receiver, received: Ghost(Seq::empty()) }
    }

    /// Waits for the next value. Answers `None` when the sending end is gone.
    pub fn recv(&mut self) -> (value: Option<T>)
        ensures
            final(self).receiver() == old(self).receiver(),
            final(self).received() == old(self).received().push(value),
    {
        let value = channel_recv(&self.receiver);
        self.received = Ghost(self.received@.push(value));
        value
    }
}

} // verus!
