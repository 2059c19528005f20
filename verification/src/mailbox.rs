//! The signaling mailbox: a bounded queue that carries one kind of message
//! from one peer to the other, in the order in which it was sent.

use crate::error::BenchError;
use std::collections::VecDeque;
use vstd::prelude::*;

verus! {

/// The capacity of a mailbox that carries descriptions.
pub const DESCRIPTION_CAPACITY: usize = 1;

/// The least capacity of a mailbox that carries candidates.
pub const MIN_CANDIDATE_CAPACITY: usize = 10;

/// A mailbox as its two ends see it: the messages accepted and not yet
/// received, oldest first, the bound on their number, and whether the
/// mailbox has been closed.
pub struct MailboxState<T> {
    pub queue: Seq<T>,
    pub capacity: nat,
    pub closed: bool,
}

/// What a receive attempt yields.
pub enum Delivery<T> {
    /// The oldest message of the mailbox.
    Message(T),
    /// Nothing is waiting and the mailbox is still open: the receiver has to wait.
    Pending,
    /// Nothing is waiting and nothing will come: the mailbox is closed.
    EndOfStream,
}

/// A message that the mailbox did not take, handed back with the reason.
pub struct Refused<T> {
    pub error: BenchError,
    pub message: T,
}

impl<T> MailboxState<T> {
    /// A mailbox holds at least one message and never more than its capacity.
    pub open spec fn wf(self) -> bool {
        1 <= self.capacity && self.queue.len() <= self.capacity
    }

    /// The fresh mailbox of a given capacity.
    pub open spec fn empty(capacity: nat) -> Self {
        MailboxState { queue: Seq::empty(), capacity, closed: false }
    }

    /// Why a send would be refused now, if it would: a closed mailbox takes
    /// nothing, an open one takes nothing beyond its capacity.
    pub open spec fn send_error(self) -> Option<BenchError> {
        if self.closed {
            Some(BenchError::MailboxClosed)
        } else if self.queue.len() >= self.capacity {
            Some(BenchError::MailboxFull)
        } else {
            None
        }
    }

    /// The mailbox after an attempt to send `msg`.
    pub open spec fn after_send(self, msg: T) -> Self {
        if self.send_error() is None {
            MailboxState { queue: self.queue.push(msg), ..self }
        } else {
            self
        }
    }

    /// What a receive attempt yields now.
    pub open spec fn delivery(self) -> Delivery<T> {
        if self.queue.len() > 0 {
            Delivery::Message(self.queue[0])
        } else if self.closed {
            Delivery::EndOfStream
        } else {
            Delivery::Pending
        }
    }

    /// The mailbox after a receive attempt.
    pub open spec fn after_recv(self) -> Self {
        if self.queue.len() > 0 {
            MailboxState { queue: self.queue.drop_first(), ..self }
        } else {
            self
        }
    }

    /// The mailbox after it has been closed: what waits in it stays.
    pub open spec fn after_close(self) -> Self {
        MailboxState { closed: true, ..self }
    }
}

/// One use of a mailbox by either of its ends.
pub enum MailboxOp<T> {
    Send(T),
    Recv,
    Close,
}

/// Where a mailbox stands after a run of operations, with the messages that
/// it accepted and those that it delivered during the run, each in order.
pub struct MailboxTrace<T> {
    pub state: MailboxState<T>,
    pub accepted: Seq<T>,
    pub delivered: Seq<T>,
}

impl<T> MailboxState<T> {
    /// The mailbox after one operation.
    pub open spec fn after(self, op: MailboxOp<T>) -> Self {
        match op {
            MailboxOp::Send(msg) => self.after_send(msg),
            MailboxOp::Recv => self.after_recv(),
            MailboxOp::Close => self.after_close(),
        }
    }

    /// Runs `ops` from this mailbox, first to last, and records what was
    /// accepted and what was delivered on the way.
    pub open spec fn run(self, ops: Seq<MailboxOp<T>>) -> MailboxTrace<T>
        decreases ops.len(),
    {
        if ops.len() == 0 {
            MailboxTrace { state: self, accepted: Seq::empty(), delivered: Seq::empty() }
        } else {
            let before = self.run(ops.drop_last());
            let accepted = match ops.last() {
                MailboxOp::Send(msg) if before.state.send_error() is None => before.accepted.push(
                    msg,
                ),
                _ => before.accepted,
            };
            let delivered = match (ops.last(), before.state.delivery()) {
                (MailboxOp::Recv, Delivery::Message(msg)) => before.delivered.push(msg),
                _ => before.delivered,
            };
            MailboxTrace { state: before.state.after(ops.last()), accepted, delivered }
        }
    }
}

/// First in, first out: whatever the two ends do and in whatever order, the
/// messages that waited at the start followed by those accepted since are
/// exactly the messages delivered since followed by those that still wait.
/// So messages leave in the order in which they were sent, none is lost, none
/// comes twice, and the capacity is never exceeded.
pub proof fn lemma_fifo<T>(start: MailboxState<T>, ops: Seq<MailboxOp<T>>)
    requires
        start.wf(),
    ensures
        start.run(ops).state.wf(),
        start.run(ops).state.capacity == start.capacity,
        start.queue + start.run(ops).accepted == start.run(ops).delivered + start.run(
            ops,
        ).state.queue,
    decreases ops.len(),
{
    if ops.len() == 0 {
        assert(start.queue + Seq::<T>::empty() =~= Seq::<T>::empty() + start.queue);
    } else {
        lemma_fifo(start, ops.drop_last());
        let before = start.run(ops.drop_last());
        let now = start.run(ops);
        match ops.last() {
            MailboxOp::Send(msg) => {
                if before.state.send_error() is None {
                    assert(start.queue + before.accepted.push(msg) =~= (start.queue
                        + before.accepted).push(msg));
                    assert(before.delivered + before.state.queue.push(msg) =~= (before.delivered
                        + before.state.queue).push(msg));
                }
            },
            MailboxOp::Recv => {
                if before.state.queue.len() > 0 {
                    assert(before.delivered.push(before.state.queue[0])
                        + before.state.queue.drop_first() =~= before.delivered
                        + before.state.queue);
                }
            },
            MailboxOp::Close => {},
        }
    }
}

/// With nothing waiting at the start, what has been delivered is always the
/// beginning of what has been accepted: the receiver sees the sender's
/// messages in the sender's order.
pub proof fn lemma_delivered_prefix<T>(capacity: nat, ops: Seq<MailboxOp<T>>)
    requires
        capacity >= 1,
    ensures
        MailboxState::<T>::empty(capacity).run(ops).delivered.is_prefix_of(
            MailboxState::<T>::empty(capacity).run(ops).accepted,
        ),
{
    let start = MailboxState::<T>::empty(capacity);
    lemma_fifo(start, ops);
    let t = start.run(ops);
    assert(start.queue + t.accepted =~= t.accepted);
    assert(t.accepted == t.delivered + t.state.queue);
    assert(t.delivered =~= t.accepted.subrange(0, t.delivered.len() as int));
}

/// A bounded first-in first-out queue with one sender and one receiver.
pub struct Mailbox<T> {
    queue: VecDeque<T>,
    capacity: usize,
    closed: bool,
}

impl<T> View for Mailbox<T> {
    type V = MailboxState<T>;

    closed spec fn view(&self) -> MailboxState<T> {
        MailboxState { queue: self.queue@, capacity: self.capacity as nat, closed: self.closed }
    }
}

impl<T> Mailbox<T> {
    /// An open, empty mailbox for at most `capacity` waiting messages.
    pub fn new(capacity: usize) -> (r: Self)
        requires
            capacity >= 1,
        ensures
            r@ == MailboxState::<T>::empty(capacity as nat),
            r@.wf(),
    {
        Mailbox { queue: VecDeque::new(), capacity, closed: false }
    }

    /// A mailbox for descriptions: each peer sends one, so it holds one.
    pub fn for_descriptions() -> (r: Self)
        ensures
            r@ == MailboxState::<T>::empty(DESCRIPTION_CAPACITY as nat),
            r@.wf(),
    {
        Mailbox::new(DESCRIPTION_CAPACITY)
    }

    /// A mailbox for candidates, which come in bursts: it holds ten or more.
    pub fn for_candidates(capacity: usize) -> (r: Self)
        requires
            capacity >= MIN_CANDIDATE_CAPACITY,
        ensures
            r@ == MailboxState::<T>::empty(capacity as nat),
            r@.wf(),
    {
        Mailbox::new(capacity)
    }

    /// Appends `msg` behind the waiting messages, or hands it back when the
    /// mailbox is closed or full.
    pub fn send(&mut self, msg: T) -> (r: Result<(), Refused<T>>)
        requires
            old(self)@.wf(),
        ensures
            final(self)@.wf(),
            final(self)@ == old(self)@.after_send(msg),
            match r {
                Ok(()) => old(self)@.send_error() is None,
                Err(refused) => old(self)@.send_error() == Some(refused.error) && refused.message
                    == msg,
            },
    {
        if self.closed {
            Err(Refused { error: BenchError::MailboxClosed, message: msg })
        } else if self.queue.len() >= self.capacity {
            Err(Refused { error: BenchError::MailboxFull, message: msg })
        } else {
            self.queue.push_back(msg);
            Ok(())
        }
    }

    /// Takes the oldest waiting message, if there is one; otherwise tells
    /// whether more can still come.
    pub fn recv(&mut self) -> (r: Delivery<T>)
        requires
            old(self)@.wf(),
        ensures
            final(self)@.wf(),
            r == old(self)@.delivery(),
            final(self)@ == old(self)@.after_recv(),
    {
        match self.queue.pop_front() {
            Some(msg) => {
                assert(self.queue@ =~= old(self).queue@.drop_first());
                Delivery::Message(msg)
            },
            None => {
                if self.closed {
                    Delivery::EndOfStream
                } else {
                    Delivery::Pending
                }
            },
        }
    }

    /// Closes the mailbox. Closing a closed mailbox changes nothing.
    pub fn close(&mut self)
        requires
            old(self)@.wf(),
        ensures
            final(self)@.wf(),
            final(self)@ == old(self)@.after_close(),
    {
        self.closed = true;
    }

    /// The number of messages that wait in the mailbox.
    pub fn len(&self) -> (r: usize)
        requires
            self@.wf(),
        ensures
            r == self@.queue.len(),
            r <= self@.capacity,
    {
        self.queue.len()
    }

    /// True when no message waits in the mailbox.
    pub fn is_empty(&self) -> (r: bool)
        requires
            self@.wf(),
        ensures
            r == (self@.queue.len() == 0),
    {
        self.queue.len() == 0
    }

    /// The largest number of messages that may wait at one time.
    pub fn capacity(&self) -> (r: usize)
        ensures
            r == self@.capacity,
    {
        self.capacity
    }

    /// True once the mailbox has been closed.
    pub fn is_closed(&self) -> (r: bool)
        ensures
            r == self@.closed,
    {
        self.closed
    }
}

} // verus!
