//! The bounded buffer as mathematics.
//!
//! A [`Model`] is what the monitor's lock protects: the buffered items in
//! arrival order, the fixed capacity and the shutdown flag. Every transition
//! of the executable buffer is stated as a function on models, and the laws of
//! the queue (the capacity bound, first-in first-out delivery, conservation of
//! items, one-way shutdown) are proved here for every sequence of operations.

use vstd::prelude::*;

verus! {

/// The protected state: items from oldest to newest, the capacity fixed at
/// construction, and the shutdown flag.
#[verifier::ext_equal]
pub struct Model<T> {
    pub items: Seq<T>,
    pub capacity: nat,
    pub shutdown: bool,
}

/// One visit of a thread to the monitor, as seen under the lock.
pub enum Op<T> {
    /// A producer offers an item.
    Enqueue(T),
    /// A consumer asks for the oldest item.
    Dequeue,
    /// Somebody shuts the queue down.
    Shutdown,
}

impl<T> Model<T> {
    /// The state of a queue that was just made: empty and open.
    pub open spec fn fresh(capacity: nat) -> Self {
        Model { items: Seq::empty(), capacity, shutdown: false }
    }

    /// The invariant of the protected state: a positive capacity, and never
    /// more items than it allows.
    pub open spec fn wf(self) -> bool {
        0 < self.capacity && self.items.len() <= self.capacity
    }

    /// No item is buffered.
    pub open spec fn is_empty(self) -> bool {
        self.items.len() == 0
    }

    /// There is no room for another item.
    pub open spec fn is_full(self) -> bool {
        self.items.len() >= self.capacity
    }

    /// An offered item goes into the buffer: the queue is open and has room.
    pub open spec fn accepts(self) -> bool {
        !self.shutdown && !self.is_full()
    }

    /// A producer has to block: no room, and no shutdown to release it.
    pub open spec fn producer_waits(self) -> bool {
        !self.shutdown && self.is_full()
    }

    /// A consumer has to block: nothing to take, and no shutdown to release it.
    pub open spec fn consumer_waits(self) -> bool {
        !self.shutdown && self.is_empty()
    }

    /// The state after a producer offered `item`. The item is appended where
    /// the queue accepts it; a full or shut down queue stays as it was.
    pub open spec fn enqueue(self, item: T) -> Self {
        if self.accepts() {
            Model { items: self.items.push(item), ..self }
        } else {
            self
        }
    }

    /// The oldest item, which the next consumer gets.
    pub open spec fn front(self) -> Option<T> {
        if self.is_empty() {
            None
        } else {
            Some(self.items[0])
        }
    }

    /// The state after a consumer asked for an item: the oldest one is gone,
    /// if there was one.
    pub open spec fn dequeue(self) -> Self {
        if self.is_empty() {
            self
        } else {
            Model { items: self.items.drop_first(), ..self }
        }
    }

    /// The state after a shutdown: the flag is set, the items stay.
    pub open spec fn shut_down(self) -> Self {
        Model { shutdown: true, ..self }
    }

    /// The state after one operation.
    pub open spec fn step(self, op: Op<T>) -> Self {
        match op {
            Op::Enqueue(item) => self.enqueue(item),
            Op::Dequeue => self.dequeue(),
            Op::Shutdown => self.shut_down(),
        }
    }

    /// The state after the operations `ops`, in the order in which they got
    /// the lock.
    pub open spec fn run(self, ops: Seq<Op<T>>) -> Self
        decreases ops.len(),
    {
        if ops.len() == 0 {
            self
        } else {
            self.run(ops.drop_last()).step(ops.last())
        }
    }

    /// What one operation stores in the buffer.
    pub open spec fn stores(self, op: Op<T>) -> Seq<T> {
        match op {
            Op::Enqueue(item) if self.accepts() => seq![item],
            _ => Seq::empty(),
        }
    }

    /// What one operation hands to its caller.
    pub open spec fn delivers(self, op: Op<T>) -> Seq<T> {
        match op {
            Op::Dequeue if !self.is_empty() => seq![self.items[0]],
            _ => Seq::empty(),
        }
    }

    /// What one operation discards: an item offered after shutdown.
    pub open spec fn discards(self, op: Op<T>) -> Seq<T> {
        match op {
            Op::Enqueue(item) if self.shutdown => seq![item],
            _ => Seq::empty(),
        }
    }

    /// The items that `ops` stored, in the order in which they went in.
    pub open spec fn stored(self, ops: Seq<Op<T>>) -> Seq<T>
        decreases ops.len(),
    {
        if ops.len() == 0 {
            Seq::empty()
        } else {
            self.stored(ops.drop_last()) + self.run(ops.drop_last()).stores(ops.last())
        }
    }

    /// The items that `ops` handed to consumers, in the order in which they
    /// came out.
    pub open spec fn delivered(self, ops: Seq<Op<T>>) -> Seq<T>
        decreases ops.len(),
    {
        if ops.len() == 0 {
            Seq::empty()
        } else {
            self.delivered(ops.drop_last()) + self.run(ops.drop_last()).delivers(ops.last())
        }
    }

    /// The items that `ops` offered in vain, because the queue was shut down.
    pub open spec fn discarded(self, ops: Seq<Op<T>>) -> Seq<T>
        decreases ops.len(),
    {
        if ops.len() == 0 {
            Seq::empty()
        } else {
            self.discarded(ops.drop_last()) + self.run(ops.drop_last()).discards(ops.last())
        }
    }
}

/// No operation of `ops` is a shutdown.
pub open spec fn no_shutdown<T>(ops: Seq<Op<T>>) -> bool {
    forall|i: int| 0 <= i < ops.len() ==> !(#[trigger] ops[i] is Shutdown)
}

/// The number of items that the buffer holds is never above the capacity,
/// whatever operations run in whatever order, and the capacity never changes.
pub proof fn lemma_capacity_bound<T>(start: Model<T>, ops: Seq<Op<T>>)
    requires
        start.wf(),
    ensures
        start.run(ops).wf(),
        start.run(ops).capacity == start.capacity,
        0 <= start.run(ops).items.len() <= start.capacity,
    decreases ops.len(),
{
    if ops.len() > 0 {
        lemma_capacity_bound(start, ops.drop_last());
    }
}

/// Nothing is lost, doubled or reordered: the items that were in the buffer,
/// followed by those stored since, are the items handed out, followed by those
/// still in the buffer.
pub proof fn lemma_fifo<T>(start: Model<T>, ops: Seq<Op<T>>)
    ensures
        start.items + start.stored(ops) == start.delivered(ops) + start.run(ops).items,
    decreases ops.len(),
{
    if ops.len() == 0 {
        assert(start.items + Seq::<T>::empty() =~= Seq::<T>::empty() + start.items);
    } else {
        let before = ops.drop_last();
        let mid = start.run(before);
        let after = mid.step(ops.last());
        let (ins, outs) = (start.stored(before), start.delivered(before));
        let (new_in, new_out) = (mid.stores(ops.last()), mid.delivers(ops.last()));
        lemma_fifo(start, before);
        // One step keeps the balance, and concatenation is associative.
        assert(mid.items + new_in =~= new_out + after.items);
        assert(start.items + (ins + new_in) =~= (start.items + ins) + new_in);
        assert((outs + mid.items) + new_in =~= outs + (mid.items + new_in));
        assert(outs + (new_out + after.items) =~= (outs + new_out) + after.items);
    }
}

/// First in, first out: a run that starts and ends with an empty buffer hands
/// out exactly the items that it stored, in the order in which they were
/// stored.
pub proof fn lemma_drained_run_delivers_what_it_stored<T>(start: Model<T>, ops: Seq<Op<T>>)
    requires
        start.is_empty(),
        start.run(ops).is_empty(),
    ensures
        start.delivered(ops) == start.stored(ops),
{
    lemma_fifo(start, ops);
    assert(start.items + start.stored(ops) =~= start.stored(ops));
    assert(start.delivered(ops) + start.run(ops).items =~= start.delivered(ops));
}

/// Conservation: in a run without shutdown that starts and ends with an empty
/// buffer, no offered item is discarded, and as many items come out as went
/// in.
pub proof fn lemma_conservation<T>(start: Model<T>, ops: Seq<Op<T>>)
    requires
        !start.shutdown,
        no_shutdown(ops),
        start.is_empty(),
        start.run(ops).is_empty(),
    ensures
        start.discarded(ops).len() == 0,
        start.delivered(ops).len() == start.stored(ops).len(),
{
    lemma_open_run_discards_nothing(start, ops);
    lemma_drained_run_delivers_what_it_stored(start, ops);
}

/// What consumers have received so far is always a prefix of what the buffer
/// held at the start followed by what was stored since.
pub proof fn lemma_delivered_is_prefix<T>(start: Model<T>, ops: Seq<Op<T>>)
    ensures
        start.delivered(ops).is_prefix_of(start.items + start.stored(ops)),
{
    lemma_fifo(start, ops);
    let all = start.items + start.stored(ops);
    let out = start.delivered(ops);
    assert(all == out + start.run(ops).items);
    assert(all.subrange(0, out.len() as int) =~= out);
}

/// While nobody shuts an open queue down, it stays open and discards nothing:
/// an offered item is stored, or its producer waits.
pub proof fn lemma_open_run_discards_nothing<T>(start: Model<T>, ops: Seq<Op<T>>)
    requires
        !start.shutdown,
        no_shutdown(ops),
    ensures
        !start.run(ops).shutdown,
        start.discarded(ops) == Seq::<T>::empty(),
    decreases ops.len(),
{
    if ops.len() > 0 {
        let before = ops.drop_last();
        assert forall|i: int| 0 <= i < before.len() implies !(#[trigger] before[i] is Shutdown) by {
            assert(before[i] == ops[i]);
        }
        lemma_open_run_discards_nothing(start, before);
        assert(!(ops[ops.len() - 1] is Shutdown));
        assert(start.discarded(before) + Seq::<T>::empty() =~= Seq::<T>::empty());
    }
}

/// Shutdown is for good: a queue that is shut down stays shut down whatever
/// runs on it, stores nothing more, and keeps its items until consumers take
/// them in order.
pub proof fn lemma_shutdown_is_permanent<T>(start: Model<T>, ops: Seq<Op<T>>)
    requires
        start.shutdown,
    ensures
        start.run(ops).shutdown,
        start.stored(ops) == Seq::<T>::empty(),
        start.items == start.delivered(ops) + start.run(ops).items,
    decreases ops.len(),
{
    if ops.len() > 0 {
        let before = ops.drop_last();
        lemma_shutdown_is_permanent(start, before);
        assert(start.stored(before) + Seq::<T>::empty() =~= Seq::<T>::empty());
    }
    lemma_fifo(start, ops);
    assert(start.items + Seq::<T>::empty() =~= start.items);
}

/// Shutting down twice is shutting down once.
pub proof fn lemma_shutdown_idempotent<T>(state: Model<T>)
    ensures
        state.shut_down().shutdown,
        state.shut_down().items == state.items,
        state.shut_down().capacity == state.capacity,
        state.shut_down().shut_down() == state.shut_down(),
{
}

/// After shutdown an offered item changes nothing, and no thread has to wait.
pub proof fn lemma_shut_down_queue_never_blocks<T>(state: Model<T>, item: T)
    requires
        state.shutdown,
    ensures
        state.enqueue(item) == state,
        !state.producer_waits(),
        !state.consumer_waits(),
{
}

/// A thread that has to wait leaves the state as it found it.
pub proof fn lemma_waiting_changes_nothing<T>(state: Model<T>, item: T)
    ensures
        state.producer_waits() ==> state.enqueue(item) == state,
        state.consumer_waits() ==> state.dequeue() == state && state.front() is None,
{
}

/// No thread waits for ever while others work: one item taken lets a waiting
/// producer in, one item stored serves a waiting consumer with that very
/// item, and a shutdown releases both.
pub proof fn lemma_waiting_ends<T>(state: Model<T>, item: T)
    requires
        state.wf(),
    ensures
        state.producer_waits() ==> state.dequeue().accepts(),
        state.consumer_waits() ==> state.enqueue(item).front() == Some(item),
        !state.shut_down().producer_waits(),
        !state.shut_down().consumer_waits(),
{
}

} // verus!
