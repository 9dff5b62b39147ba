//! The channel protocol of the session: a single-producer/single-consumer,
//! unbounded, ordered queue of text payloads. One queue carries commands
//! from the controller to the worker, another carries reports back.
//!
//! Closing mirrors what dropping an endpoint of an in-process channel does:
//! a send to a closed queue fails, while receiving first drains every
//! pending item and only then observes the closure.

use vstd::prelude::*;

verus! {

/// Mathematical model of a queue: its pending items, front first, and
/// whether the far endpoint is gone.
pub struct QueueModel {
    pub items: Seq<Seq<char>>,
    pub closed: bool,
}

/// What one non-blocking receive attempt observed.
#[derive(Debug)]
pub enum RecvOutcome {
    /// The front item, removed from the queue.
    Received(String),
    /// Nothing pending, but the queue is still open.
    Empty,
    /// Nothing pending and the queue is closed: no item will ever arrive.
    Disconnected,
}

/// An ordered queue of text payloads with a closure flag.
pub struct TextQueue {
    items: Vec<String>,
    closed: bool,
}

impl View for TextQueue {
    type V = QueueModel;

    closed spec fn view(&self) -> QueueModel {
        QueueModel { items: self.items.deep_view(), closed: self.closed }
    }
}

impl TextQueue {
    /// A fresh, open, empty queue.
    pub fn new() -> (q: TextQueue)
        ensures
            q@.items == Seq::<Seq<char>>::empty(),
            !q@.closed,
    {
        let q = TextQueue { items: Vec::new(), closed: false };
        proof {
            assert(q@.items =~= Seq::<Seq<char>>::empty());
        }
        q
    }

    /// Enqueue a payload at the back. Fails, dropping the payload, exactly
    /// when the queue is closed.
    pub fn send(&mut self, text: String) -> (ok: bool)
        ensures
            ok == !old(self)@.closed,
            final(self)@.closed == old(self)@.closed,
            ok ==> final(self)@.items == old(self)@.items.push(text@),
            !ok ==> final(self)@.items == old(self)@.items,
    {
        if self.closed {
            false
        } else {
            self.items.push(text);
            proof {
                assert(self@.items =~= old(self)@.items.push(text@));
            }
            true
        }
    }

    /// Non-blocking receive: the front item if one is pending; otherwise
    /// whether the queue is still open. Never blocks.
    pub fn try_recv(&mut self) -> (r: RecvOutcome)
        ensures
            final(self)@.closed == old(self)@.closed,
            old(self)@.items.len() > 0 ==> (r matches RecvOutcome::Received(t)
                && t@ == old(self)@.items[0]
                && final(self)@.items == old(self)@.items.drop_first()),
            old(self)@.items.len() == 0 ==> final(self)@.items == old(self)@.items,
            old(self)@.items.len() == 0 && old(self)@.closed ==> (r is Disconnected),
            old(self)@.items.len() == 0 && !old(self)@.closed ==> (r is Empty),
    {
        if self.items.len() > 0 {
            let text = self.items.remove(0);
            proof {
                assert(self@.items =~= old(self)@.items.drop_first());
            }
            RecvOutcome::Received(text)
        } else if self.closed {
            RecvOutcome::Disconnected
        } else {
            RecvOutcome::Empty
        }
    }

    /// Close the queue: the model of dropping the far endpoint. Pending
    /// items stay and can still be received.
    pub fn close(&mut self)
        ensures
            final(self)@.items == old(self)@.items,
            final(self)@.closed,
    {
        self.closed = true;
    }

    /// How many payloads are pending.
    pub fn len(&self) -> (n: usize)
        ensures
            n == self@.items.len(),
    {
        self.items.len()
    }

    /// Whether the queue has been closed.
    pub fn is_closed(&self) -> (c: bool)
        ensures
            c == self@.closed,
    {
        self.closed
    }
}

} // verus!
