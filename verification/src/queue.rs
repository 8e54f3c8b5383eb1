//! The event queue: a bounded single-producer, single-consumer FIFO carrying
//! source messages from the watch callback to the dispatcher. A full queue
//! makes the producer wait instead of dropping a message; a closed and
//! drained queue reports end-of-stream to the consumer.

use vstd::prelude::*;
use crate::event::SourceMessage;

verus! {

/// The queue capacity the pipeline uses unless a caller picks another.
pub const DEFAULT_QUEUE_CAPACITY: usize = 100;

/// What `push` did with the producer's message.
#[derive(Clone, Debug, PartialEq, Eq)]
pub enum PushOutcome {
    /// The message is buffered.
    Accepted,
    /// The buffer is full: the producer must wait and offer the message
    /// again; it was not taken and not dropped.
    MustWait,
    /// The consumer side is gone: the message can never be delivered.
    Closed,
}

/// What `pop` handed the consumer.
#[derive(Clone, Debug, PartialEq, Eq)]
pub enum PopOutcome {
    /// The message at the front of the buffer.
    Message(SourceMessage),
    /// The buffer is empty but the producer may still push: the consumer
    /// must wait.
    MustWait,
    /// The producer is gone and the buffer is drained: end-of-stream.
    EndOfStream,
}

/// A bounded FIFO of source messages.
///
/// The ghost counters `submitted` and `observed` record how many messages
/// the producer has handed over and how many the consumer has taken out;
/// together with the buffer they witness that no accepted message is lost.
pub struct EventQueue {
    pub items: Vec<SourceMessage>,
    pub capacity: usize,
    pub closed: bool,
    pub submitted: Ghost<nat>,
    pub observed: Ghost<nat>,
}

impl EventQueue {
    /// The buffered messages, oldest first.
    pub open spec fn buffered(&self) -> Seq<SourceMessage> {
        self.items@
    }

    /// How many messages the queue may buffer at once.
    pub open spec fn spec_capacity(&self) -> nat {
        self.capacity as nat
    }

    /// Whether the producer side has been dropped.
    pub open spec fn is_closed(&self) -> bool {
        self.closed
    }

    /// How many messages producers have successfully pushed.
    pub open spec fn spec_submitted(&self) -> nat {
        self.submitted@
    }

    /// How many messages the consumer has popped.
    pub open spec fn spec_observed(&self) -> nat {
        self.observed@
    }

    /// The queue invariant: the buffer never exceeds the capacity, and every
    /// submitted message is either still buffered or already observed.
    pub open spec fn wf(&self) -> bool {
        &&& self.capacity >= 1
        &&& self.items@.len() <= self.capacity
        &&& self.observed@ + self.items@.len() == self.submitted@
    }

    /// An empty open queue of the given capacity.
    pub fn new(capacity: usize) -> (q: EventQueue)
        requires
            capacity >= 1,
        ensures
            q.wf(),
            q.spec_capacity() == capacity,
            q.buffered() == Seq::<SourceMessage>::empty(),
            !q.is_closed(),
            q.spec_submitted() == 0,
            q.spec_observed() == 0,
    {
        EventQueue {
            items: Vec::new(),
            capacity,
            closed: false,
            submitted: Ghost(0),
            observed: Ghost(0),
        }
    }

    /// An empty open queue of the default capacity.
    pub fn with_default_capacity() -> (q: EventQueue)
        ensures
            q.wf(),
            q.spec_capacity() == DEFAULT_QUEUE_CAPACITY,
            q.buffered() == Seq::<SourceMessage>::empty(),
            !q.is_closed(),
            q.spec_submitted() == 0,
            q.spec_observed() == 0,
    {
        EventQueue::new(DEFAULT_QUEUE_CAPACITY)
    }

    /// The producer offers one message. A full buffer makes the producer
    /// wait (the message is left with the producer, untouched); only an
    /// accepted message enters the buffer, at its back.
    pub fn push(&mut self, m: SourceMessage) -> (outcome: PushOutcome)
        requires
            old(self).wf(),
        ensures
            final(self).wf(),
            final(self).spec_capacity() == old(self).spec_capacity(),
            final(self).is_closed() == old(self).is_closed(),
            final(self).spec_observed() == old(self).spec_observed(),
            outcome is Closed <==> old(self).is_closed(),
            !old(self).is_closed() && old(self).buffered().len() < old(self).spec_capacity()
                <==> outcome is Accepted,
            outcome is Accepted ==> final(self).buffered() == old(self).buffered().push(m)
                && final(self).spec_submitted() == old(self).spec_submitted() + 1,
            !(outcome is Accepted) ==> *final(self) == *old(self),
    {
        if self.closed {
            PushOutcome::Closed
        } else if self.items.len() < self.capacity {
            self.items.push(m);
            proof {
                self.submitted@ = self.submitted@ + 1;
            }
            PushOutcome::Accepted
        } else {
            PushOutcome::MustWait
        }
    }

    /// The consumer takes the oldest buffered message. An empty buffer makes
    /// the consumer wait while the queue is open, and reports end-of-stream
    /// once it is closed.
    pub fn pop(&mut self) -> (outcome: PopOutcome)
        requires
            old(self).wf(),
        ensures
            final(self).wf(),
            final(self).spec_capacity() == old(self).spec_capacity(),
            final(self).is_closed() == old(self).is_closed(),
            final(self).spec_submitted() == old(self).spec_submitted(),
            old(self).buffered().len() > 0 <==> outcome is Message,
            outcome matches PopOutcome::Message(m) ==> m == old(self).buffered()[0]
                && final(self).buffered() == old(self).buffered().drop_first()
                && final(self).spec_observed() == old(self).spec_observed() + 1,
            outcome is EndOfStream <==> old(self).buffered().len() == 0 && old(self).is_closed(),
            !(outcome is Message) ==> *final(self) == *old(self),
    {
        if self.items.len() > 0 {
            let m = self.items.remove(0);
            proof {
                self.observed@ = self.observed@ + 1;
            }
            PopOutcome::Message(m)
        } else if self.closed {
            PopOutcome::EndOfStream
        } else {
            PopOutcome::MustWait
        }
    }

    /// The producer side is dropped: no further message will be accepted,
    /// and the consumer will see end-of-stream once the buffer drains.
    pub fn close(&mut self)
        requires
            old(self).wf(),
        ensures
            final(self).wf(),
            final(self).is_closed(),
            final(self).buffered() == old(self).buffered(),
            final(self).spec_capacity() == old(self).spec_capacity(),
            final(self).spec_submitted() == old(self).spec_submitted(),
            final(self).spec_observed() == old(self).spec_observed(),
    {
        self.closed = true;
    }

    /// How many messages are buffered right now.
    pub fn len(&self) -> (n: usize)
        ensures
            n == self.buffered().len(),
    {
        self.items.len()
    }
}

/// Conservation under backpressure: a well-formed queue has lost nothing —
/// every submitted message is still buffered or was observed by the
/// consumer, so once the buffer is drained the consumer has observed
/// exactly as many messages as were ever submitted.
pub proof fn lemma_no_message_lost(q: EventQueue)
    requires
        q.wf(),
    ensures
        q.spec_observed() + q.buffered().len() == q.spec_submitted(),
        q.buffered().len() == 0 ==> q.spec_observed() == q.spec_submitted(),
{
}

} // verus!
