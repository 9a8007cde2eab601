//! The per-connection bounded outbound queue.
//!
//! Every live connection owns exactly one mailbox. Fan-out writes envelopes
//! into it; the session's write duty drains it and transmits each envelope
//! over the socket. Messages come out in the order they went in (FIFO per
//! connection). The queue is bounded: when a producer outruns a stalled
//! consumer the mailbox closes, which is the signal to tear the whole
//! connection down rather than let memory grow without bound.

use crate::envelope::Envelope;
use vstd::prelude::*;

verus! {

/// The bound sessions give their mailboxes unless configured otherwise:
/// enough for bursts of room traffic, small enough that a stalled consumer
/// is cut off early.
pub const MAILBOX_CAPACITY: usize = 64;

/// Outcome of writing one envelope into a mailbox.
#[derive(Clone, Copy, PartialEq, Eq, Structural, Debug)]
pub enum EnqueueResult {
    /// The envelope was appended to the queue.
    Accepted,
    /// The queue was already at capacity. Under the fixed overflow policy the
    /// mailbox closes and the connection must be torn down.
    Overflowed,
    /// The mailbox had already been closed; nothing was enqueued.
    Disconnected,
}

/// The abstract state of a mailbox: the envelopes awaiting transmission
/// (oldest first), the fixed bound, and whether the channel is closed.
#[verifier::ext_equal]
pub struct MailboxView {
    pub queue: Seq<Envelope>,
    pub capacity: nat,
    pub closed: bool,
}

impl MailboxView {
    /// An open mailbox with room for one more envelope.
    pub open spec fn accepts(self) -> bool {
        !self.closed && self.queue.len() < self.capacity
    }

    /// State after one enqueue: append when there is room; close on
    /// overflow; leave a closed mailbox untouched.
    pub open spec fn enqueue_transition(self, e: Envelope) -> MailboxView {
        if self.closed {
            self
        } else if self.queue.len() >= self.capacity {
            MailboxView { closed: true, ..self }
        } else {
            MailboxView { queue: self.queue.push(e), ..self }
        }
    }

    /// The result reported for one enqueue against this state.
    pub open spec fn enqueue_outcome(self) -> EnqueueResult {
        if self.closed {
            EnqueueResult::Disconnected
        } else if self.queue.len() >= self.capacity {
            EnqueueResult::Overflowed
        } else {
            EnqueueResult::Accepted
        }
    }

    /// State after the write duty takes one envelope: the oldest leaves the
    /// queue; a closed or empty mailbox is unchanged.
    pub open spec fn pop_transition(self) -> MailboxView {
        if !self.closed && self.queue.len() > 0 {
            MailboxView { queue: self.queue.drop_first(), ..self }
        } else {
            self
        }
    }

    /// The envelope the write duty obtains: always the oldest one queued.
    pub open spec fn pop_outcome(self) -> Option<Envelope> {
        if !self.closed && self.queue.len() > 0 {
            Option::Some(self.queue[0])
        } else {
            Option::None
        }
    }
}

/// A bounded outbound queue owned by exactly one connection.
pub struct Mailbox {
    queue: Vec<Envelope>,
    capacity: usize,
    closed: bool,
}

impl View for Mailbox {
    type V = MailboxView;

    closed spec fn view(&self) -> MailboxView {
        MailboxView { queue: self.queue@, capacity: self.capacity as nat, closed: self.closed }
    }
}

impl Mailbox {
    /// A fresh, open, empty mailbox bounded at `capacity` envelopes.
    pub fn new(capacity: usize) -> (r: Mailbox)
        requires
            capacity >= 1,
        ensures
            r@ == (MailboxView {
                queue: Seq::<Envelope>::empty(),
                capacity: capacity as nat,
                closed: false,
            }),
    {
        Mailbox { queue: Vec::new(), capacity, closed: false }
    }

    /// Appends `e` when the mailbox is open and has room. On overflow the
    /// mailbox closes (the documented backpressure policy); on a mailbox
    /// already closed nothing changes.
    pub fn enqueue(&mut self, e: Envelope) -> (r: EnqueueResult)
        ensures
            final(self)@ == old(self)@.enqueue_transition(e),
            r == old(self)@.enqueue_outcome(),
    {
        if self.closed {
            EnqueueResult::Disconnected
        } else if self.queue.len() >= self.capacity {
            self.closed = true;
            EnqueueResult::Overflowed
        } else {
            self.queue.push(e);
            EnqueueResult::Accepted
        }
    }

    /// Takes the oldest queued envelope, if the mailbox is open and
    /// non-empty. This is the only way envelopes leave the queue, so
    /// transmission order equals enqueue order.
    pub fn pop_front(&mut self) -> (r: Option<Envelope>)
        ensures
            final(self)@ == old(self)@.pop_transition(),
            r == old(self)@.pop_outcome(),
    {
        if !self.closed && self.queue.len() > 0 {
            let e = self.queue.remove(0);
            proof {
                assert(old(self)@.queue.drop_first() =~= self.queue@);
            }
            Option::Some(e)
        } else {
            Option::None
        }
    }

    /// Closes the mailbox; the owning session's write duty terminates once
    /// it observes this.
    pub fn close(&mut self)
        ensures
            final(self)@ == (MailboxView { closed: true, ..old(self)@ }),
    {
        self.closed = true;
    }

    /// How many envelopes await transmission.
    pub fn len(&self) -> (n: usize)
        ensures
            n == self@.queue.len(),
    {
        self.queue.len()
    }

    /// Whether the mailbox has been closed.
    pub fn is_closed(&self) -> (b: bool)
        ensures
            b == self@.closed,
    {
        self.closed
    }

    /// The fixed bound this mailbox was created with.
    pub fn limit(&self) -> (n: usize)
        ensures
            n == self@.capacity,
    {
        self.capacity
    }
}

/// Mailbox FIFO: enqueuing `a` and then `b` into an open mailbox with room
/// for both appends them in that order, behind everything already queued.
pub proof fn lemma_mailbox_fifo_order(m: MailboxView, a: Envelope, b: Envelope)
    requires
        !m.closed,
        m.queue.len() + 2 <= m.capacity,
    ensures
        m.enqueue_transition(a).enqueue_transition(b).queue == m.queue + seq![a, b],
        !m.enqueue_transition(a).enqueue_transition(b).closed,
{
    assert(m.enqueue_transition(a).enqueue_transition(b).queue =~= m.queue + seq![a, b]);
}

/// Mailbox FIFO, seen from the write duty: after `a` then `b` go into an
/// empty open mailbox, the first take yields `a` and the next yields `b`.
pub proof fn lemma_mailbox_fifo_transmit(m: MailboxView, a: Envelope, b: Envelope)
    requires
        !m.closed,
        m.queue.len() == 0,
        m.capacity >= 2,
    ensures
        m.enqueue_transition(a).enqueue_transition(b).pop_outcome() == Option::Some(a),
        m.enqueue_transition(a).enqueue_transition(b).pop_transition().pop_outcome()
            == Option::Some(b),
{
    let m2 = m.enqueue_transition(a).enqueue_transition(b);
    assert(m2.queue =~= seq![a, b]);
    assert(m2.queue.drop_first() =~= seq![b]);
}

} // verus!
