//! The ingestion channel: a bounded first-in first-out queue between the
//! directory watcher and the store worker. A full channel refuses an item
//! and hands it back, and the producer waits until the consumer takes one:
//! nothing is dropped and nothing is reordered.

use std::collections::VecDeque;
use vstd::prelude::*;

use crate::document::Doc;

verus! {

/// The capacity that the pipeline gives its channel.
pub const DEFAULT_CAPACITY: usize = 1024;

/// What travels from the watcher to the store worker.
#[derive(Debug)]
pub enum Payload {
    Doc(Doc),
    Warning(String),
    Error(String),
}

/// The queue after offering `item` to a channel holding `queued`, or `None`
/// where the channel is full and the item must wait.
pub open spec fn send_model<T>(queued: Seq<T>, capacity: nat, item: T) -> Option<Seq<T>> {
    if queued.len() >= capacity {
        None
    } else {
        Some(queued.push(item))
    }
}

/// The item that a receive takes from `queued`, and what stays behind.
pub open spec fn recv_model<T>(queued: Seq<T>) -> Option<(T, Seq<T>)> {
    if queued.len() == 0 {
        None
    } else {
        Some((queued[0], queued.drop_first()))
    }
}

/// The queue after sending each of `items` in turn, or `None` where one of
/// them found the channel full.
pub open spec fn send_each<T>(queued: Seq<T>, capacity: nat, items: Seq<T>) -> Option<Seq<T>>
    decreases items.len(),
{
    if items.len() == 0 {
        Some(queued)
    } else {
        match send_model(queued, capacity, items[0]) {
            None => None,
            Some(next) => send_each(next, capacity, items.drop_first()),
        }
    }
}

/// What receiving until the channel is empty takes, in order.
pub open spec fn drain<T>(queued: Seq<T>) -> Seq<T>
    decreases queued.len(),
{
    if queued.len() == 0 {
        Seq::empty()
    } else {
        seq![queued[0]] + drain(queued.drop_first())
    }
}

/// A bounded FIFO channel.
pub struct IngestChannel<T> {
    items: VecDeque<T>,
    capacity: usize,
}

impl<T> IngestChannel<T> {
    /// A channel holds no more than its capacity, which is positive.
    pub closed spec fn wf(&self) -> bool {
        0 < self.capacity && self.items@.len() <= self.capacity
    }

    /// The items waiting, oldest first.
    pub closed spec fn queued(&self) -> Seq<T> {
        self.items@
    }

    pub closed spec fn spec_capacity(&self) -> nat {
        self.capacity as nat
    }

    /// An empty channel that holds at most `capacity` items.
    pub fn new(capacity: usize) -> (r: IngestChannel<T>)
        requires
            capacity > 0,
        ensures
            r.wf(),
            r.queued() == Seq::<T>::empty(),
            r.spec_capacity() == capacity,
    {
        IngestChannel { items: VecDeque::new(), capacity }
    }

    /// An empty channel of the pipeline's default capacity.
    pub fn with_default_capacity() -> (r: IngestChannel<T>)
        ensures
            r.wf(),
            r.queued() == Seq::<T>::empty(),
            r.spec_capacity() == DEFAULT_CAPACITY,
    {
        IngestChannel::new(DEFAULT_CAPACITY)
    }

    pub fn capacity(&self) -> (r: usize)
        requires
            self.wf(),
        ensures
            r == self.spec_capacity(),
            r > 0,
    {
        self.capacity
    }

    pub fn len(&self) -> (r: usize)
        ensures
            r == self.queued().len(),
    {
        self.items.len()
    }

    pub fn is_full(&self) -> (r: bool)
        ensures
            r == (self.queued().len() >= self.spec_capacity()),
    {
        self.items.len() >= self.capacity
    }

    /// Offers an item. A full channel hands it back unchanged and keeps its
    /// queue: the producer is to wait for the consumer and offer it again.
    pub fn try_send(&mut self, item: T) -> (r: Result<(), T>)
        requires
            old(self).wf(),
        ensures
            final(self).wf(),
            final(self).spec_capacity() == old(self).spec_capacity(),
            match send_model(old(self).queued(), old(self).spec_capacity(), item) {
                None => r == Err::<(), T>(item) && final(self).queued() == old(self).queued(),
                Some(q) => r is Ok && final(self).queued() == q,
            },
    {
        if self.items.len() >= self.capacity {
            Err(item)
        } else {
            self.items.push_back(item);
            Ok(())
        }
    }

    /// Takes the oldest item, if any.
    pub fn recv(&mut self) -> (r: Option<T>)
        requires
            old(self).wf(),
        ensures
            final(self).wf(),
            final(self).spec_capacity() == old(self).spec_capacity(),
            match recv_model(old(self).queued()) {
                None => r is None && final(self).queued() == old(self).queued(),
                Some((x, rest)) => r == Some(x) && final(self).queued() == rest,
            },
    {
        self.items.pop_front()
    }
}

/// Receiving until empty gives back exactly the queue, oldest first.
pub proof fn lemma_drain_is_queue<T>(queued: Seq<T>)
    ensures
        drain(queued) == queued,
    decreases queued.len(),
{
    if queued.len() > 0 {
        lemma_drain_is_queue(queued.drop_first());
        assert(seq![queued[0]] + queued.drop_first() =~= queued);
    }
}

/// Sending items one by one into a channel with room for all of them
/// appends them in order.
pub proof fn lemma_send_each_appends<T>(queued: Seq<T>, capacity: nat, items: Seq<T>)
    requires
        queued.len() + items.len() <= capacity,
    ensures
        send_each(queued, capacity, items) == Some(queued + items),
    decreases items.len(),
{
    if items.len() > 0 {
        lemma_send_each_appends(queued.push(items[0]), capacity, items.drop_first());
        assert(queued.push(items[0]) + items.drop_first() =~= queued + items);
    } else {
        assert(queued + items =~= queued);
    }
}

/// Backpressure without loss: into an empty channel of capacity `n`, the
/// first `n` of `n + 1` items are accepted and the last is refused, so its
/// producer waits. Once the consumer takes the oldest item the waiting one
/// is accepted, and what the consumer receives in all is the `n + 1` items
/// in the order they were sent.
pub proof fn lemma_full_channel_waits_and_keeps_order<T>(capacity: nat, items: Seq<T>)
    requires
        capacity > 0,
        items.len() == capacity + 1,
    ensures
        send_each(Seq::empty(), capacity, items.take(capacity as int)) == Some(
            items.take(capacity as int),
        ),
        send_model(items.take(capacity as int), capacity, items[capacity as int]) is None,
        recv_model(items.take(capacity as int)) == Some(
            (items[0], items.take(capacity as int).drop_first()),
        ),
        send_model(items.take(capacity as int).drop_first(), capacity, items[capacity as int])
            == Some(items.drop_first()),
        seq![items[0]] + drain(items.drop_first()) == items,
{
    let full = items.take(capacity as int);
    lemma_send_each_appends(Seq::empty(), capacity, full);
    assert(Seq::<T>::empty() + full =~= full);
    assert(full.drop_first().push(items[capacity as int]) =~= items.drop_first());
    lemma_drain_is_queue(items.drop_first());
    assert(seq![items[0]] + items.drop_first() =~= items);
}

} // verus!
