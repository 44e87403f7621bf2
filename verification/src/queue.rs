//! The monitor: a [`Buffer`] behind one lock, with one condition variable for
//! producers and one for consumers.

use crate::buffer::{Buffer, Role};
use crate::sync::{lock, wait_while};
use std::ops::{Deref, DerefMut};
use std::sync::{Arc, Condvar, Mutex};
use vstd::prelude::*;

verus! {

/// A bounded, blocking first-in first-out queue for any number of producer
/// and consumer threads.
#[verifier::reject_recursive_types(T)]
#[derive(Debug)]
pub struct Queue<T> {
    inner: Mutex<Buffer<T>>,
    not_empty: Condvar,
    not_full: Condvar,
    capacity: usize,
}

impl<T> Queue<T> {
    #[verifier::type_invariant]
    spec fn inv(self) -> bool {
        self.capacity > 0
    }

    /// The capacity that the queue was made with. It never changes.
    pub closed spec fn spec_capacity(&self) -> usize {
        self.capacity
    }

    /// An empty, open queue for up to `capacity` items, to be shared between
    /// threads.
    pub fn new(capacity: usize) -> (queue: Arc<Self>)
        requires
            capacity > 0,
        ensures
            queue.capacity() == capacity,
    {
        Arc::new(
            Queue {
                inner: Mutex::new(Buffer::new(capacity)),
                not_empty: Condvar::new(),
                not_full: Condvar::new(),
                capacity,
            },
        )
    }

    /// The capacity that the queue was made with, read without taking the
    /// lock.
    #[verifier::when_used_as_spec(spec_capacity)]
    pub fn capacity(&self) -> (capacity: usize)
        ensures
            capacity == self.spec_capacity(),
            capacity > 0,
    {
        proof {
            use_type_invariant(self);
        }
        self.capacity
    }

    /// Appends `item`, after waiting while the queue is full and open. On a
    /// queue that is shut down the item is dropped instead.
    pub fn enqueue(&self, item: T) {
        let mut slot = Some(item);
        {
            let guard = lock(&self.inner);
            let _held = wait_while(&self.not_full, guard, Role::Producer, &mut slot);
        }
        if slot.is_none() {
            self.not_empty.notify_one();
        }
    }

    /// Removes and returns the oldest item, after waiting while the queue is
    /// empty and open. Returns `None` once the queue is empty and shut down.
    pub fn dequeue(&self) -> (item: Option<T>) {
        let mut slot = None;
        {
            let guard = lock(&self.inner);
            let _held = wait_while(&self.not_empty, guard, Role::Consumer, &mut slot);
        }
        if slot.is_some() {
            self.not_full.notify_one();
        }
        slot
    }

    /// Shuts the queue down and wakes every waiting thread.
    pub fn shutdown(&self) {
        {
            let mut guard = lock(&self.inner);
            guard.deref_mut().shutdown();
        }
        self.not_empty.notify_all();
        self.not_full.notify_all();
    }

    /// Whether the queue holds no item right now.
    pub fn is_empty(&self) -> (empty: bool) {
        let guard = lock(&self.inner);
        guard.deref().is_empty()
    }

    /// Whether the queue has been shut down.
    pub fn is_shutdown(&self) -> (shutdown: bool) {
        let guard = lock(&self.inner);
        guard.deref().is_shutdown()
    }
}

} // verus!
