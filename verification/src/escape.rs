//! The escape/terminal channel.
//!
//! A [`Terminal`] is owned by the resource manager; it mints [`Escape`]
//! handles that wrap a payload. When an `Escape` is dropped by client code
//! (which holds no destruction context), its payload is delivered back into
//! the terminal's queue instead of being destroyed in place; the manager
//! drains that queue when it has the destruction context in hand. Delivery
//! must work from any thread the handle was moved to, so the queue is the
//! multi-producer, single-consumer channel of the standard library.

use vstd::prelude::*;

verus! {

/// Sending endpoint of the delivery queue; escapes hold one each.
#[verifier::external_type_specification]
#[verifier::external_body]
#[verifier::reject_recursive_types(T)]
pub struct ExSender<T>(std::sync::mpsc::Sender<T>);

/// Receiving endpoint of the delivery queue; the terminal holds it.
#[verifier::external_type_specification]
#[verifier::external_body]
#[verifier::reject_recursive_types(T)]
pub struct ExReceiver<T>(std::sync::mpsc::Receiver<T>);

/// Relies on `std::sync::mpsc::channel`: returns the two endpoints of one
/// fresh queue. What travels through the queue cannot be stated here: sends
/// happen from whatever thread drops a handle.
#[verifier::external_body]
fn channel_endpoints<T>() -> (std::sync::mpsc::Sender<T>, std::sync::mpsc::Receiver<T>) {
    std::sync::mpsc::channel()
}

/// Relies on `std::sync::mpsc::Sender::clone`: the clone feeds the same
/// queue as the original.
#[verifier::external_body]
fn clone_sender<T>(sender: &std::sync::mpsc::Sender<T>) -> std::sync::mpsc::Sender<T> {
    sender.clone()
}

/// Relies on `std::sync::mpsc::Receiver::try_recv`: returns a queued payload
/// if one is waiting and never blocks; the `Result` is converted to an
/// `Option` because a disconnected queue and an empty queue are the same to
/// the caller (nothing to drain now).
#[verifier::external_body]
fn try_receive<T>(receiver: &std::sync::mpsc::Receiver<T>) -> Option<T> {
    receiver.try_recv().ok()
}

/// A droppable handle around a payload. Unless consumed through
/// [`Escape::into_inner`], the payload is forwarded to the associated
/// [`Terminal`] when the handle is dropped, from whatever thread that
/// happens on.
#[verifier::reject_recursive_types(T)]
pub struct Escape<T> {
    payload: Option<T>,
    sender: std::sync::mpsc::Sender<T>,
}

impl<T> View for Escape<T> {
    type V = T;

    /// The payload the handle carries.
    closed spec fn view(&self) -> T {
        self.payload->Some_0
    }
}

impl<T> Escape<T> {
    /// A live escape still carries its payload; it is consumed exactly once,
    /// by `into_inner` or by the delivery on drop.
    pub closed spec fn wf(&self) -> bool {
        self.payload is Some
    }

    /// Consume the escape and return the payload directly, bypassing the
    /// delivery queue. Used by destroy paths that already hold the
    /// destruction context.
    pub fn into_inner(mut escape: Escape<T>) -> (payload: T)
        requires
            escape.wf(),
        ensures
            payload == escape@,
    {
        let payload = escape.payload.take();
        payload.unwrap()
    }
}

impl<T> Drop for Escape<T> {
    /// Relies on `std::sync::mpsc::Sender::send`: a payload still held when
    /// the handle is dropped is delivered into the terminal's queue. If the
    /// terminal is gone the payload is discarded silently; that deliberate
    /// trade-off is what the leak guard inside a resource payload reports.
    #[verifier::external_body]
    fn drop(&mut self)
        opens_invariants none
        no_unwind
    {
        if let Some(payload) = self.payload.take() {
            let _ = self.sender.send(payload);
        }
    }
}

/// The receiving end of the escape channel: mints escapes and drains what
/// they delivered. Exactly one terminal exists per resource kind per manager.
#[verifier::reject_recursive_types(T)]
pub struct Terminal<T> {
    sender: std::sync::mpsc::Sender<T>,
    receiver: std::sync::mpsc::Receiver<T>,
}

impl<T> Terminal<T> {
    /// A terminal with an empty queue and no outstanding escapes.
    pub fn new() -> Terminal<T> {
        let (sender, receiver) = channel_endpoints();
        Terminal { sender, receiver }
    }

    /// Wrap a payload in an escape associated with this terminal.
    pub fn escape(&self, payload: T) -> (escape: Escape<T>)
        ensures
            escape.wf(),
            escape@ == payload,
    {
        Escape { payload: Some(payload), sender: clone_sender(&self.sender) }
    }

    /// Remove and return every payload delivered so far. Never blocks. What
    /// comes back depends on which escapes other code has dropped, possibly
    /// on other threads, so no more can be promised of the result than that
    /// each element was once wrapped by this terminal.
    ///
    /// Other threads may keep delivering while this runs, so the number of
    /// pulls is bounded by a budget far beyond what any process could queue.
    pub fn drain(&self) -> Vec<T> {
        let mut drained: Vec<T> = Vec::new();
        let mut budget: usize = usize::MAX;
        loop
            decreases budget,
        {
            if budget == 0 {
                return drained;
            }
            budget = budget - 1;
            match try_receive(&self.receiver) {
                Some(payload) => drained.push(payload),
                None => {
                    return drained;
                },
            }
        }
    }
}

} // verus!
