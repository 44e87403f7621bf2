//! The queue behind a handle that may be invalid, for callers that cannot be
//! told of a failure in any other way.
//!
//! A handle is an `Option`: `None` is the invalid handle that a failed
//! construction gives. Every operation takes it and does nothing then, with a
//! fixed answer. The payload is one machine word, which the queue stores and
//! returns without looking at it.

use crate::queue::Queue;
use std::sync::Arc;
use vstd::prelude::*;

verus! {

/// Makes a queue for up to `capacity` words. A capacity that is not positive
/// makes no queue: the handle is invalid.
pub fn queue_init(capacity: i32) -> (handle: Option<Arc<Queue<usize>>>)
    ensures
        handle is Some <==> capacity > 0,
        handle matches Some(queue) ==> queue.capacity() == capacity,
{
    if capacity <= 0 {
        return None;
    }
    Some(Queue::new(capacity as usize))
}

/// Gives the handle up. The queue is shut down, so that every thread that
/// waits on it wakes. Nothing happens on an invalid handle.
pub fn queue_destroy(handle: Option<Arc<Queue<usize>>>) {
    match handle {
        Some(queue) => queue.shutdown(),
        None => {},
    }
}

/// Appends `data` as [`Queue::enqueue`] does. Nothing happens on an invalid
/// handle.
pub fn enqueue(handle: Option<&Queue<usize>>, data: usize) {
    match handle {
        Some(queue) => queue.enqueue(data),
        None => {},
    }
}

/// Takes the oldest word as [`Queue::dequeue`] does. An invalid handle gives
/// `None` at once.
pub fn dequeue(handle: Option<&Queue<usize>>) -> (data: Option<usize>)
    ensures
        handle is None ==> data is None,
{
    match handle {
        Some(queue) => queue.dequeue(),
        None => None,
    }
}

/// Shuts the queue down as [`Queue::shutdown`] does. Nothing happens on an
/// invalid handle.
pub fn queue_shutdown(handle: Option<&Queue<usize>>) {
    match handle {
        Some(queue) => queue.shutdown(),
        None => {},
    }
}

/// Whether the queue holds no item right now. An invalid handle counts as
/// empty.
pub fn is_empty(handle: Option<&Queue<usize>>) -> (empty: bool)
    ensures
        handle is None ==> empty,
{
    match handle {
        Some(queue) => queue.is_empty(),
        None => true,
    }
}

/// Whether the queue has been shut down. An invalid handle counts as shut
/// down.
pub fn is_shutdown(handle: Option<&Queue<usize>>) -> (shutdown: bool)
    ensures
        handle is None ==> shutdown,
{
    match handle {
        Some(queue) => queue.is_shutdown(),
        None => true,
    }
}

} // verus!
