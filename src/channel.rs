//! The multi-producer, single-consumer queue that carries events from the
//! producers to the host. Which values it delivers, and whether a send or a
//! receive succeeds, depends on the other threads: the wrappers below promise
//! nothing of either. A producer's sending end keeps a record of every event
//! it handed over and whether it was delivered.
use vstd::prelude::*;

use std::sync::mpsc::Sender;

use crate::host::Event;
use crate::keys::Key;

verus! {

#[verifier::external_type_specification]
#[verifier::external_body]
#[verifier::reject_recursive_types(T)]
pub struct ExSender<T>(std::sync::mpsc::Sender<T>);

#[verifier::external_type_specification]
#[verifier::external_body]
#[verifier::reject_recursive_types(T)]
pub struct ExReceiver<T>(std::sync::mpsc::Receiver<T>);

#[verifier::external_type_specification]
#[verifier::external_body]
pub struct ExRecvError(std::sync::mpsc::RecvError);

/// Relies on std::sync::mpsc::channel: a new unbounded queue, its sending
/// and its receiving end.
#[verifier::external_body]
pub(crate) fn open_channel<T>() -> (std::sync::mpsc::Sender<T>, std::sync::mpsc::Receiver<T>) {
    std::sync::mpsc::channel()
}

/// Relies on Sender::clone: one more sending end of the same queue.
#[verifier::external_body]
pub(crate) fn share_sender<T>(tx: &std::sync::mpsc::Sender<T>) -> std::sync::mpsc::Sender<T> {
    tx.clone()
}

/// Relies on Sender::send: queues the value, or fails once the receiving end
/// is gone; tells whether it was queued.
#[verifier::external_body]
pub(crate) fn send_value<T>(tx: &std::sync::mpsc::Sender<T>, v: T) -> bool {
    tx.send(v).is_ok()
}

/// Relies on Receiver::recv: blocks until a value is queued, or fails once
/// every sending end is gone and the queue is empty.
#[verifier::external_body]
pub(crate) fn receive_value<T>(rx: &std::sync::mpsc::Receiver<T>) -> Result<
    T,
    std::sync::mpsc::RecvError,
> {
    rx.recv()
}

/// A producer's sending end, with the record of what it handed over.
pub struct EventSender {
    tx: Sender<Event<Key>>,
    handed: Ghost<Seq<(Event<Key>, bool)>>,
}

impl View for EventSender {
    /// Each event handed over, in order, with whether it was delivered.
    type V = Seq<(Event<Key>, bool)>;

    closed spec fn view(&self) -> Seq<(Event<Key>, bool)> {
        self.handed@
    }
}

impl EventSender {
    /// A sending end that has handed over nothing yet.
    pub(crate) fn new(tx: Sender<Event<Key>>) -> (r: EventSender)
        ensures
            r@ == Seq::<(Event<Key>, bool)>::empty(),
    {
        EventSender { tx, handed: Ghost(Seq::empty()) }
    }

    /// Hands `e` to the queue; tells whether it was delivered, which fails
    /// only once the receiving end is gone.
    pub fn hand_over(&mut self, e: Event<Key>) -> (delivered: bool)
        ensures
            final(self)@ == old(self)@.push((e, delivered)),
    {
        let delivered = send_value(&self.tx, e);
        self.handed = Ghost(self.handed@.push((e, delivered)));
        delivered
    }
}

} // verus!
