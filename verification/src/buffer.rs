//! The bounded buffer that the monitor's lock protects.
//!
//! A [`Buffer`] is used by one thread at a time. Its operations never block:
//! where a thread would have to wait they change nothing and say so, and the
//! monitor waits and tries again.

use crate::model::Model;
use std::collections::VecDeque;
use vstd::prelude::*;

verus! {

/// Which side of the queue a thread is on.
#[derive(Clone, Copy, Debug)]
pub enum Role {
    /// The thread brings an item.
    Producer,
    /// The thread wants an item.
    Consumer,
}

/// A first-in first-out buffer with a fixed capacity and a shutdown flag.
#[derive(Debug)]
pub struct Buffer<T> {
    items: VecDeque<T>,
    capacity: usize,
    shutdown: bool,
}

impl<T> View for Buffer<T> {
    type V = Model<T>;

    closed spec fn view(&self) -> Model<T> {
        Model { items: self.items@, capacity: self.capacity as nat, shutdown: self.shutdown }
    }
}

impl<T> Buffer<T> {
    #[verifier::type_invariant]
    spec fn inv(self) -> bool {
        self@.wf()
    }

    /// An empty, open buffer for up to `capacity` items.
    pub fn new(capacity: usize) -> (buffer: Self)
        requires
            capacity > 0,
        ensures
            buffer@ == Model::<T>::fresh(capacity as nat),
            buffer@.wf(),
    {
        Buffer { items: VecDeque::new(), capacity, shutdown: false }
    }

    /// The number of items in the buffer, which is never above the capacity.
    pub fn len(&self) -> (n: usize)
        ensures
            n == self@.items.len(),
            n <= self@.capacity,
    {
        proof {
            use_type_invariant(self);
        }
        self.items.len()
    }

    /// The capacity that the buffer was made with.
    pub fn capacity(&self) -> (n: usize)
        ensures
            n == self@.capacity,
            n > 0,
    {
        proof {
            use_type_invariant(self);
        }
        self.capacity
    }

    /// Whether the buffer holds no item.
    pub fn is_empty(&self) -> (empty: bool)
        ensures
            empty == self@.is_empty(),
    {
        self.items.len() == 0
    }

    /// Whether the buffer has been shut down.
    pub fn is_shutdown(&self) -> (shutdown: bool)
        ensures
            shutdown == self@.shutdown,
    {
        self.shutdown
    }

    /// Sets the shutdown flag and keeps the items. A second shutdown changes
    /// nothing.
    pub fn shutdown(&mut self)
        ensures
            final(self)@ == old(self)@.shut_down(),
            final(self)@.wf(),
    {
        proof {
            use_type_invariant(&*self);
        }
        self.shutdown = true;
    }

    /// One attempt of a producer to hand over the item in `slot`.
    ///
    /// An open buffer with room takes the item out of the slot and appends it.
    /// An open buffer without room changes nothing and returns `true`: the
    /// producer has to wait for a consumer. A buffer that is shut down changes
    /// nothing and leaves the item in the slot: it is not accepted. With an
    /// empty slot there is nothing to do.
    pub fn try_put(&mut self, slot: &mut Option<T>) -> (must_wait: bool)
        ensures
            final(self)@.wf(),
            match *old(slot) {
                Some(item) => {
                    &&& must_wait == old(self)@.producer_waits()
                    &&& final(self)@ == old(self)@.enqueue(item)
                    &&& *final(slot) == if old(self)@.accepts() {
                        None
                    } else {
                        Some(item)
                    }
                },
                None => !must_wait && final(self)@ == old(self)@ && *final(slot) is None,
            },
    {
        proof {
            use_type_invariant(&*self);
        }
        if slot.is_none() || self.shutdown {
            return false;
        }
        if self.items.len() >= self.capacity {
            return true;
        }
        match slot.take() {
            Some(item) => {
                let mut items = VecDeque::new();
                std::mem::swap(&mut items, &mut self.items);
                items.push_back(item);
                self.items = items;
            },
            None => {},
        }
        false
    }

    /// One attempt of a consumer to get the oldest item into `slot`.
    ///
    /// A buffer with items moves the oldest one into the slot. An empty buffer
    /// that is shut down empties the slot: there will be no more items. An
    /// empty open buffer changes nothing and returns `true`: the consumer has
    /// to wait for a producer.
    pub fn try_take(&mut self, slot: &mut Option<T>) -> (must_wait: bool)
        ensures
            final(self)@.wf(),
            must_wait == old(self)@.consumer_waits(),
            final(self)@ == old(self)@.dequeue(),
            *final(slot) == if must_wait {
                *old(slot)
            } else {
                old(self)@.front()
            },
    {
        proof {
            use_type_invariant(&*self);
        }
        if self.items.len() == 0 && !self.shutdown {
            return true;
        }
        let mut items = VecDeque::new();
        std::mem::swap(&mut items, &mut self.items);
        let oldest = items.pop_front();
        self.items = items;
        *slot = oldest;
        false
    }

    /// One attempt of a thread at the monitor: [`Buffer::try_put`] for a
    /// producer, [`Buffer::try_take`] for a consumer. Returns whether the
    /// thread has to wait and try again.
    pub fn attempt(&mut self, role: Role, slot: &mut Option<T>) -> (must_wait: bool)
        ensures
            final(self)@.wf(),
            match role {
                Role::Producer => match *old(slot) {
                    Some(item) => {
                        &&& must_wait == old(self)@.producer_waits()
                        &&& final(self)@ == old(self)@.enqueue(item)
                        &&& *final(slot) == if old(self)@.accepts() {
                            None
                        } else {
                            Some(item)
                        }
                    },
                    None => !must_wait && final(self)@ == old(self)@ && *final(slot) is None,
                },
                Role::Consumer => {
                    &&& must_wait == old(self)@.consumer_waits()
                    &&& final(self)@ == old(self)@.dequeue()
                    &&& *final(slot) == if must_wait {
                        *old(slot)
                    } else {
                        old(self)@.front()
                    }
                },
            },
    {
        match role {
            Role::Producer => self.try_put(slot),
            Role::Consumer => self.try_take(slot),
        }
    }
}

} // verus!
