//! The bounded multi-producer single-consumer event channel between a worker
//! task and its consumer.
//!
//! The producer side blocks with backpressure when the channel is full (the
//! asynchronous `send` stays with the caller that runs the task); the consumer
//! side is drained without blocking through `try_recv`. What a receive
//! returns depends on what a concurrent producer has queued, so the wrappers
//! promise nothing about the value; the verified drain loop applies whatever
//! events come out, in the order they come out.

use vstd::prelude::*;

use crate::event::Event;

verus! {

#[verifier::external_type_specification]
#[verifier::external_body]
#[verifier::reject_recursive_types(T)]
pub struct ExMpscSender<T>(tokio::sync::mpsc::Sender<T>);

#[verifier::external_type_specification]
#[verifier::external_body]
#[verifier::reject_recursive_types(T)]
pub struct ExMpscReceiver<T>(tokio::sync::mpsc::Receiver<T>);

/// Relies on `tokio::sync::mpsc::channel`: creates an empty bounded FIFO
/// channel that buffers up to `capacity` messages. The callee panics on a
/// zero capacity and on one above its semaphore's permit limit of
/// `usize::MAX >> 3` (that is, `usize::MAX / 8`); the preconditions rule
/// both out.
#[verifier::external_body]
pub(crate) fn event_channel(capacity: usize) -> (tokio::sync::mpsc::Sender<Event>, tokio::sync::mpsc::Receiver<
    Event,
>)
    requires
        capacity >= 1,
        capacity <= usize::MAX / 8,
{
    tokio::sync::mpsc::channel(capacity)
}

/// Relies on `Clone for tokio::sync::mpsc::Sender`: the clone sends into the
/// same channel as the original.
#[verifier::external_body]
pub(crate) fn clone_sender(tx: &tokio::sync::mpsc::Sender<Event>) -> tokio::sync::mpsc::Sender<Event> {
    tx.clone()
}

/// Relies on `tokio::sync::mpsc::Receiver::try_recv`: returns the next queued
/// event when one is ready, and `None` when the channel is currently empty or
/// closed; it never blocks. Queued events come out in the order they were
/// sent.
#[verifier::external_body]
pub(crate) fn try_recv_event(rx: &mut tokio::sync::mpsc::Receiver<Event>) -> Option<Event> {
    match rx.try_recv() {
        Ok(e) => Some(e),
        Err(tokio::sync::mpsc::error::TryRecvError::Empty) => None,
        Err(tokio::sync::mpsc::error::TryRecvError::Disconnected) => None,
    }
}

} // verus!
