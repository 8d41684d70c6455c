//! A bounded single-producer / single-consumer channel that carries items and errors.
//!
//! The channel's state lives in one owning `ChannelCore`. The sending side offers
//! `Result`s (an `Err` is an error sent in band, in order with the items), may inject one
//! out-of-band error, and closes the channel when it goes away. The receiving side polls.
//! A single slot remembers the most recent waiter of either side; every operation that
//! should wake it hands the stored waiter back to the caller, who performs the wake-up.
use crate::protocol::Polled;
use std::collections::VecDeque;
use vstd::prelude::*;

verus! {

/// The mathematical state of a channel.
pub struct ChannelModel<I, E, W> {
    /// Buffered entries, oldest first.
    pub queue: Seq<Result<I, E>>,
    /// The most entries the queue may hold.
    pub capacity: nat,
    /// Set once the sending side is gone.
    pub closed: bool,
    /// An injected error not yet delivered.
    pub error: Option<E>,
    /// The most recently parked waiter.
    pub waiter: Option<W>,
    /// Every entry the channel accepted from the sender, in order.
    pub sent: Seq<Result<I, E>>,
    /// Every entry the receiver took from the queue, in order.
    pub received: Seq<Result<I, E>>,
}

/// One operation on a channel, as used by the laws below.
pub enum ChannelStep<I, E, W> {
    /// The sender offers an entry, parking `W` if the queue is full.
    Send(Result<I, E>, W),
    /// The receiver polls, parking `W` if nothing is available.
    Receive(W),
    /// The sender injects an out-of-band error.
    Inject(E),
    /// The sender closes the channel.
    Close,
}

impl<I, E, W> ChannelModel<I, E, W> {
    /// The capacity bound, and the order of entries: what was taken followed by what is
    /// buffered is exactly what was sent.
    pub open spec fn wf(self) -> bool {
        &&& self.capacity > 0
        &&& self.queue.len() <= self.capacity
        &&& self.sent == self.received + self.queue
    }

    pub open spec fn is_full(self) -> bool {
        self.queue.len() >= self.capacity
    }

    /// Whether an offer in this state is accepted.
    pub open spec fn accepts(self) -> bool {
        !self.closed && !self.is_full()
    }

    /// The state after offering `x`: appended unless the queue is full, in which case
    /// `cx` is parked. An accepted entry wakes the stored waiter. Once the channel is
    /// closed there is no sender left, and an offer changes nothing.
    pub open spec fn offer(self, x: Result<I, E>, cx: W) -> Self {
        if self.closed {
            self
        } else if self.is_full() {
            ChannelModel { waiter: Some(cx), ..self }
        } else {
            ChannelModel { queue: self.queue.push(x), sent: self.sent.push(x), waiter: None, ..self }
        }
    }

    /// What the receiver observes when it polls in this state.
    pub open spec fn next_outcome(self) -> Polled<I, E> {
        if self.queue.len() > 0 {
            match self.queue[0] {
                Ok(i) => Polled::Item(i),
                Err(e) => Polled::Failed(e),
            }
        } else if self.error is Some {
            Polled::Failed(self.error->0)
        } else if self.closed {
            Polled::End
        } else {
            Polled::Pending
        }
    }

    /// The state after the receiver polls with waiter `cx`.
    pub open spec fn receive(self, cx: W) -> Self {
        if self.queue.len() > 0 {
            ChannelModel {
                queue: self.queue.drop_first(),
                received: self.received.push(self.queue[0]),
                waiter: None,
                ..self
            }
        } else if self.error is Some {
            ChannelModel { error: None, waiter: None, ..self }
        } else if self.closed {
            self
        } else {
            ChannelModel { waiter: Some(cx), ..self }
        }
    }

    /// Whether a poll in this state wakes the stored waiter.
    pub open spec fn receive_wakes(self) -> bool {
        self.queue.len() > 0 || self.error is Some
    }

    pub open spec fn close(self) -> Self {
        ChannelModel { closed: true, waiter: None, ..self }
    }

    /// The state after the sender injects `e`; once closed, nothing changes.
    pub open spec fn inject(self, e: E) -> Self {
        if self.closed {
            self
        } else {
            ChannelModel { error: Some(e), waiter: None, ..self }
        }
    }

    pub open spec fn apply(self, step: ChannelStep<I, E, W>) -> Self {
        match step {
            ChannelStep::Send(x, cx) => self.offer(x, cx),
            ChannelStep::Receive(cx) => self.receive(cx),
            ChannelStep::Inject(e) => self.inject(e),
            ChannelStep::Close => self.close(),
        }
    }
}

/// The state after performing `steps` in order.
pub open spec fn run<I, E, W>(m: ChannelModel<I, E, W>, steps: Seq<ChannelStep<I, E, W>>) -> ChannelModel<I, E, W>
    decreases steps.len(),
{
    if steps.len() == 0 {
        m
    } else {
        run(m.apply(steps[0]), steps.drop_first())
    }
}

/// The items and errors that the receiver observed during `steps`.
pub open spec fn delivered<I, E, W>(m: ChannelModel<I, E, W>, steps: Seq<ChannelStep<I, E, W>>) -> Seq<Result<I, E>>
    decreases steps.len(),
{
    if steps.len() == 0 {
        Seq::empty()
    } else {
        let here = match steps[0] {
            ChannelStep::Receive(_) => match m.next_outcome() {
                Polled::Item(i) => seq![Ok(i)],
                Polled::Failed(e) => seq![Err(e)],
                _ => Seq::empty(),
            },
            _ => Seq::empty(),
        };
        here + delivered(m.apply(steps[0]), steps.drop_first())
    }
}

/// `n` polls of the receiver, each with waiter `cx`.
pub open spec fn receives<I, E, W>(n: nat, cx: W) -> Seq<ChannelStep<I, E, W>> {
    Seq::new(n, |k: int| ChannelStep::Receive(cx))
}

/// Every step keeps a well-formed channel well-formed.
pub proof fn lemma_step_wf<I, E, W>(m: ChannelModel<I, E, W>, step: ChannelStep<I, E, W>)
    requires
        m.wf(),
    ensures
        m.apply(step).wf(),
        m.apply(step).capacity == m.capacity,
{
    match step {
        ChannelStep::Send(x, cx) => {
            if m.accepts() {
                assert(m.sent.push(x) =~= m.received + m.queue.push(x));
            }
        },
        ChannelStep::Receive(cx) => {
            if m.queue.len() > 0 {
                assert(m.received.push(m.queue[0]) + m.queue.drop_first() =~= m.received + m.queue);
            }
        },
        _ => {},
    }
}

/// The queue never holds more entries than the capacity, whatever the steps.
pub proof fn lemma_capacity_respected<I, E, W>(m: ChannelModel<I, E, W>, steps: Seq<ChannelStep<I, E, W>>)
    requires
        m.wf(),
    ensures
        run(m, steps).wf(),
        run(m, steps).capacity == m.capacity,
        run(m, steps).queue.len() <= m.capacity,
    decreases steps.len(),
{
    if steps.len() > 0 {
        lemma_step_wf(m, steps[0]);
        lemma_capacity_respected(m.apply(steps[0]), steps.drop_first());
    }
}

/// Entries leave the channel in the order they entered it: whatever the steps, what the
/// receiver took from the queue followed by what is still buffered is exactly what the
/// sender handed over, and earlier history is only extended. So a drained channel has
/// delivered exactly the sent sequence, in order, with nothing lost or duplicated.
pub proof fn lemma_fifo<I, E, W>(m: ChannelModel<I, E, W>, steps: Seq<ChannelStep<I, E, W>>)
    requires
        m.wf(),
    ensures
        run(m, steps).sent == run(m, steps).received + run(m, steps).queue,
        m.sent.is_prefix_of(run(m, steps).sent),
        m.received.is_prefix_of(run(m, steps).received),
        run(m, steps).queue.len() == 0 ==> run(m, steps).received == run(m, steps).sent,
    decreases steps.len(),
{
    lemma_capacity_respected(m, steps);
    if steps.len() > 0 {
        let m1 = m.apply(steps[0]);
        lemma_step_wf(m, steps[0]);
        lemma_fifo(m1, steps.drop_first());
        assert(m.sent.is_prefix_of(m1.sent));
        assert(m.received.is_prefix_of(m1.received));
    }
    if run(m, steps).queue.len() == 0 {
        assert(run(m, steps).received + run(m, steps).queue =~= run(m, steps).received);
    }
}

/// An error injected while entries are buffered reaches the receiver only after all
/// of them: the next polls deliver the buffered entries in order, then the error.
pub proof fn lemma_error_after_queued<I, E, W>(m: ChannelModel<I, E, W>, e: E, cx: W)
    requires
        !m.closed,
    ensures
        delivered(m.inject(e), receives(m.queue.len() + 1, cx)) == m.queue.push(Err(e)),
    decreases m.queue.len(),
{
    let m1 = m.inject(e);
    let steps: Seq<ChannelStep<I, E, W>> = receives(m.queue.len() + 1, cx);
    let m2 = m1.apply(steps[0]);
    assert(steps.drop_first() =~= receives(m.queue.len(), cx));
    if m.queue.len() == 0 {
        assert(m2.queue.len() == 0 && m2.error is None);
        assert(receives::<I, E, W>(0, cx) =~= Seq::empty());
        assert(delivered(m2, receives::<I, E, W>(0, cx)) == Seq::<Result<I, E>>::empty());
        assert(delivered(m1, steps) == seq![Err(e)] + Seq::<Result<I, E>>::empty());
        assert(delivered(m1, steps) =~= m.queue.push(Err(e)));
    } else {
        let rest = ChannelModel {
            queue: m.queue.drop_first(),
            received: m.received.push(m.queue[0]),
            waiter: None,
            ..m
        };
        lemma_error_after_queued(rest, e, cx);
        assert(rest.inject(e) == m2);
        assert(delivered(m1, steps) == seq![m.queue[0]] + delivered(m2, receives(m.queue.len(), cx)));
        assert(delivered(m1, steps) =~= m.queue.push(Err(e)));
    }
}

/// Once the receiver observes the end of the stream, it observes it on every later
/// poll, whatever steps come between: nothing more is delivered.
pub proof fn lemma_end_is_terminal<I, E, W>(m: ChannelModel<I, E, W>, steps: Seq<ChannelStep<I, E, W>>)
    requires
        m.next_outcome() is End,
    ensures
        run(m, steps).next_outcome() is End,
        run(m, steps).queue == m.queue,
        run(m, steps).sent == m.sent,
        run(m, steps).received == m.received,
        delivered(m, steps) == Seq::<Result<I, E>>::empty(),
    decreases steps.len(),
{
    if steps.len() > 0 {
        let m1 = m.apply(steps[0]);
        assert(m1.next_outcome() is End);
        lemma_end_is_terminal(m1, steps.drop_first());
        assert(delivered(m, steps) =~= delivered(m1, steps.drop_first()));
    }
}

/// The owning structure of a channel.
pub struct ChannelCore<I, E, W> {
    queue: VecDeque<Result<I, E>>,
    capacity: usize,
    closed: bool,
    error: Option<E>,
    waiter: Option<W>,
    sent: Ghost<Seq<Result<I, E>>>,
    received: Ghost<Seq<Result<I, E>>>,
}

impl<I, E, W> View for ChannelCore<I, E, W> {
    type V = ChannelModel<I, E, W>;

    closed spec fn view(&self) -> ChannelModel<I, E, W> {
        ChannelModel {
            queue: self.queue@,
            capacity: self.capacity as nat,
            closed: self.closed,
            error: self.error,
            waiter: self.waiter,
            sent: self.sent@,
            received: self.received@,
        }
    }
}

/// Creates an empty, open channel that buffers up to `capacity` entries.
pub fn test_channel<I, E, W>(capacity: usize) -> (r: ChannelCore<I, E, W>)
    requires
        capacity > 0,
    ensures
        r@.wf(),
        r@ == (ChannelModel::<I, E, W> {
            queue: Seq::empty(),
            capacity: capacity as nat,
            closed: false,
            error: None,
            waiter: None,
            sent: Seq::empty(),
            received: Seq::empty(),
        }),
{
    let r = ChannelCore {
        queue: VecDeque::new(),
        capacity,
        closed: false,
        error: None,
        waiter: None,
        sent: Ghost(Seq::empty()),
        received: Ghost(Seq::empty()),
    };
    assert(r@.received + r@.queue =~= r@.sent);
    r
}

impl<I, E, W> ChannelCore<I, E, W> {
    pub fn capacity(&self) -> (r: usize)
        ensures
            r == self@.capacity,
    {
        self.capacity
    }

    pub fn len(&self) -> (r: usize)
        ensures
            r == self@.queue.len(),
    {
        self.queue.len()
    }

    pub fn is_closed(&self) -> (r: bool)
        ensures
            r == self@.closed,
    {
        self.closed
    }

    /// Whether an offer would be accepted now; if not, `cx` is parked. Only the sender
    /// calls this, so the channel is still open.
    pub fn poll_ready(&mut self, cx: W) -> (r: bool)
        requires
            old(self)@.wf(),
            !old(self)@.closed,
        ensures
            r == !old(self)@.is_full(),
            final(self)@ == (if r { old(self)@ } else { ChannelModel { waiter: Some(cx), ..old(self)@ } }),
            final(self)@.wf(),
    {
        if self.queue.len() >= self.capacity {
            self.waiter = Some(cx);
            false
        } else {
            true
        }
    }

    /// Offers `x` on behalf of the sender parked as `cx`. An accepted entry gives back
    /// the waiter to wake (`Ok`); on a full queue `cx` is parked and `x` comes back
    /// unconsumed (`Err`). Only the sender calls this, so the channel is still open.
    pub fn offer(&mut self, x: Result<I, E>, cx: W) -> (r: Result<Option<W>, Result<I, E>>)
        requires
            old(self)@.wf(),
            !old(self)@.closed,
        ensures
            final(self)@ == old(self)@.offer(x, cx),
            final(self)@.wf(),
            old(self)@.is_full() <==> r is Err,
            r is Err ==> r->Err_0 == x,
            r is Ok ==> r->Ok_0 == old(self)@.waiter,
    {
        if self.queue.len() >= self.capacity {
            self.waiter = Some(cx);
            Err(x)
        } else {
            proof {
                lemma_step_wf(self@, ChannelStep::Send(x, cx));
            }
            self.sent = Ghost(self.sent@.push(x));
            self.queue.push_back(x);
            Ok(self.waiter.take())
        }
    }

    /// Polls on behalf of the receiver parked as `cx`, returning what it observes and
    /// the waiter to wake, if any.
    pub fn poll_next(&mut self, cx: W) -> (r: (Polled<I, E>, Option<W>))
        requires
            old(self)@.wf(),
        ensures
            final(self)@ == old(self)@.receive(cx),
            final(self)@.wf(),
            r.0 == old(self)@.next_outcome(),
            r.1 == (if old(self)@.receive_wakes() { old(self)@.waiter } else { None }),
    {
        proof {
            lemma_step_wf(self@, ChannelStep::Receive(cx));
        }
        let front = self.queue.pop_front();
        if front.is_some() {
            self.received = Ghost(self.received@.push(front->0));
        }
        match front {
            Some(Ok(i)) => (Polled::Item(i), self.waiter.take()),
            Some(Err(e)) => (Polled::Failed(e), self.waiter.take()),
            None => {
                match self.error.take() {
                    Some(e) => (Polled::Failed(e), self.waiter.take()),
                    None => {
                        if self.closed {
                            (Polled::End, None)
                        } else {
                            self.waiter = Some(cx);
                            (Polled::Pending, None)
                        }
                    },
                }
            },
        }
    }

    /// Marks the end of the stream; returns the waiter to wake.
    pub fn close(&mut self) -> (r: Option<W>)
        requires
            old(self)@.wf(),
        ensures
            final(self)@ == old(self)@.close(),
            final(self)@.wf(),
            r == old(self)@.waiter,
    {
        self.closed = true;
        self.waiter.take()
    }

    /// Stores `e` as the pending error, replacing an earlier one; returns the waiter to
    /// wake. Only the sender calls this, so the channel is still open.
    pub fn inject_error(&mut self, e: E) -> (r: Option<W>)
        requires
            old(self)@.wf(),
            !old(self)@.closed,
        ensures
            final(self)@ == old(self)@.inject(e),
            final(self)@.wf(),
            r == old(self)@.waiter,
    {
        self.error = Some(e);
        self.waiter.take()
    }

    /// Called when the receiving side goes away; returns the waiter to wake.
    pub fn disconnect_receiver(&mut self) -> (r: Option<W>)
        requires
            old(self)@.wf(),
        ensures
            final(self)@ == (ChannelModel { waiter: None, ..old(self)@ }),
            final(self)@.wf(),
            r == old(self)@.waiter,
    {
        self.waiter.take()
    }
}

} // verus!
