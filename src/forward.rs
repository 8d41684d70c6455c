//! The forward combinator as a state machine: it moves every item of a producer into a
//! consumer, holding at most one item that the consumer has not accepted yet, flushing
//! the consumer when the producer stalls, and never closing the consumer.
use crate::protocol::{Offered, Polled, Status};
use vstd::prelude::*;

verus! {

/// What the caller reports to the machine.
pub enum ForwardEvent<I, E> {
    /// A new poll of the combinator begins.
    Resume,
    /// The producer answered a poll.
    Polled(Polled<I, E>),
    /// The consumer answered an offer.
    Offered(Offered<I, E>),
    /// The consumer answered a flush.
    Flushed(Status<E>),
}

/// What the machine asks the caller to do next.
pub enum ForwardAction<I, E> {
    PollProducer,
    Offer(I),
    Flush,
    /// Return "not ready"; the party that stalled has parked the task.
    Suspend,
    /// The producer is exhausted: return the consumer and the producer.
    Complete,
    Fail(E),
}

/// Which answer the machine waits for.
#[derive(Clone, Copy, Debug, PartialEq, Eq, Structural)]
pub enum ForwardPhase {
    /// Between polls of the combinator.
    Idle,
    AwaitPoll,
    AwaitOffer,
    AwaitFlush,
    Finished,
}

/// The mathematical state of a forward: the item held back, the phase, every item taken
/// from the producer, every item the consumer accepted, and the item being offered.
pub struct ForwardModel<I> {
    pub buffered: Option<I>,
    pub phase: ForwardPhase,
    pub taken: Seq<I>,
    pub accepted: Seq<I>,
    pub in_flight: Option<I>,
}

pub open spec fn opt_seq<I>(o: Option<I>) -> Seq<I> {
    match o {
        Some(x) => seq![x],
        None => Seq::empty(),
    }
}

impl<I> ForwardModel<I> {
    /// Nothing is lost or duplicated: what was taken is what was accepted followed by the
    /// one item held, if any.
    pub open spec fn wf(self) -> bool {
        &&& self.taken == self.accepted + opt_seq(self.buffered) + opt_seq(self.in_flight)
        &&& !(self.buffered is Some && self.in_flight is Some)
        &&& self.phase == ForwardPhase::AwaitOffer <==> self.in_flight is Some
        &&& self.buffered is Some ==> self.phase == ForwardPhase::Idle
    }

    /// Whether `ev` answers what the machine waits for.
    pub open spec fn expects<E>(self, ev: ForwardEvent<I, E>) -> bool {
        match ev {
            ForwardEvent::Resume => self.phase == ForwardPhase::Idle,
            ForwardEvent::Polled(_) => self.phase == ForwardPhase::AwaitPoll,
            ForwardEvent::Offered(o) => self.phase == ForwardPhase::AwaitOffer && match o {
                Offered::Rejected(x) => self.in_flight == Some(x),
                _ => true,
            },
            ForwardEvent::Flushed(_) => self.phase == ForwardPhase::AwaitFlush,
        }
    }

    pub open spec fn with_phase(self, phase: ForwardPhase) -> Self {
        ForwardModel { phase, ..self }
    }

    /// The state after `ev`.
    pub open spec fn next<E>(self, ev: ForwardEvent<I, E>) -> Self {
        match ev {
            ForwardEvent::Resume => match self.buffered {
                Some(x) => ForwardModel { buffered: None, in_flight: Some(x), ..self.with_phase(ForwardPhase::AwaitOffer) },
                None => self.with_phase(ForwardPhase::AwaitPoll),
            },
            ForwardEvent::Polled(p) => match p {
                Polled::Item(x) => ForwardModel { taken: self.taken.push(x), in_flight: Some(x), ..self.with_phase(ForwardPhase::AwaitOffer) },
                Polled::Pending => self.with_phase(ForwardPhase::AwaitFlush),
                _ => self.with_phase(ForwardPhase::Finished),
            },
            ForwardEvent::Offered(o) => match o {
                Offered::Accepted => ForwardModel {
                    accepted: self.accepted + opt_seq(self.in_flight),
                    in_flight: None,
                    ..self.with_phase(ForwardPhase::AwaitPoll)
                },
                Offered::Rejected(x) => ForwardModel { buffered: Some(x), in_flight: None, ..self.with_phase(ForwardPhase::Idle) },
                Offered::Failed(_) => ForwardModel { in_flight: None, ..self.with_phase(ForwardPhase::Finished) },
            },
            ForwardEvent::Flushed(s) => match s {
                Status::Failed(_) => self.with_phase(ForwardPhase::Finished),
                _ => self.with_phase(ForwardPhase::Idle),
            },
        }
    }

    /// The action asked for after `ev`.
    pub open spec fn action<E>(self, ev: ForwardEvent<I, E>) -> ForwardAction<I, E> {
        match ev {
            ForwardEvent::Resume => match self.buffered {
                Some(x) => ForwardAction::Offer(x),
                None => ForwardAction::PollProducer,
            },
            ForwardEvent::Polled(p) => match p {
                Polled::Item(x) => ForwardAction::Offer(x),
                Polled::End => ForwardAction::Complete,
                Polled::Pending => ForwardAction::Flush,
                Polled::Failed(e) => ForwardAction::Fail(e),
            },
            ForwardEvent::Offered(o) => match o {
                Offered::Accepted => ForwardAction::PollProducer,
                Offered::Rejected(_) => ForwardAction::Suspend,
                Offered::Failed(e) => ForwardAction::Fail(e),
            },
            ForwardEvent::Flushed(s) => match s {
                Status::Failed(e) => ForwardAction::Fail(e),
                _ => ForwardAction::Suspend,
            },
        }
    }
}

/// The forward machine.
pub struct Forward<I> {
    buffered: Option<I>,
    phase: ForwardPhase,
    taken: Ghost<Seq<I>>,
    accepted: Ghost<Seq<I>>,
    in_flight: Ghost<Option<I>>,
}

impl<I> View for Forward<I> {
    type V = ForwardModel<I>;

    closed spec fn view(&self) -> ForwardModel<I> {
        ForwardModel {
            buffered: self.buffered,
            phase: self.phase,
            taken: self.taken@,
            accepted: self.accepted@,
            in_flight: self.in_flight@,
        }
    }
}

impl<I> Forward<I> {
    pub fn new() -> (r: Self)
        ensures
            r@.wf(),
            r@ == (ForwardModel::<I> {
                buffered: None,
                phase: ForwardPhase::Idle,
                taken: Seq::empty(),
                accepted: Seq::empty(),
                in_flight: None,
            }),
    {
        let r = Forward {
            buffered: None,
            phase: ForwardPhase::Idle,
            taken: Ghost(Seq::empty()),
            accepted: Ghost(Seq::empty()),
            in_flight: Ghost(None),
        };
        assert(r@.taken =~= r@.accepted + opt_seq(r@.buffered) + opt_seq(r@.in_flight));
        r
    }

    pub fn phase(&self) -> (r: ForwardPhase)
        ensures
            r == self@.phase,
    {
        self.phase
    }

    /// Whether an item is held back for the next attempt.
    pub fn has_buffered(&self) -> (r: bool)
        ensures
            r == self@.buffered is Some,
    {
        self.buffered.is_some()
    }

    /// Advances the machine by one answer. When it completes, every item taken from the
    /// producer has been accepted by the consumer, once each and in order.
    pub fn step<E>(&mut self, ev: ForwardEvent<I, E>) -> (r: ForwardAction<I, E>)
        requires
            old(self)@.wf(),
            old(self)@.expects(ev),
        ensures
            final(self)@ == old(self)@.next(ev),
            r == old(self)@.action(ev),
            final(self)@.wf() || final(self)@.phase == ForwardPhase::Finished,
            r is Complete ==> final(self)@.accepted == final(self)@.taken,
    {
        let ghost m = self@;
        match ev {
            ForwardEvent::Resume => match self.buffered.take() {
                Some(x) => {
                    self.phase = ForwardPhase::AwaitOffer;
                    self.in_flight = Ghost(Some(x));
                    assert(self@.taken =~= self@.accepted + opt_seq(self@.buffered) + opt_seq(self@.in_flight));
                    ForwardAction::Offer(x)
                },
                None => {
                    self.phase = ForwardPhase::AwaitPoll;
                    ForwardAction::PollProducer
                },
            },
            ForwardEvent::Polled(p) => match p {
                Polled::Item(x) => {
                    self.phase = ForwardPhase::AwaitOffer;
                    self.taken = Ghost(self.taken@.push(x));
                    self.in_flight = Ghost(Some(x));
                    assert(self@.taken =~= self@.accepted + opt_seq(self@.buffered) + opt_seq(self@.in_flight));
                    ForwardAction::Offer(x)
                },
                Polled::End => {
                    self.phase = ForwardPhase::Finished;
                    assert(self@.taken =~= self@.accepted);
                    ForwardAction::Complete
                },
                Polled::Pending => {
                    self.phase = ForwardPhase::AwaitFlush;
                    ForwardAction::Flush
                },
                Polled::Failed(e) => {
                    self.phase = ForwardPhase::Finished;
                    ForwardAction::Fail(e)
                },
            },
            ForwardEvent::Offered(o) => match o {
                Offered::Accepted => {
                    self.phase = ForwardPhase::AwaitPoll;
                    self.accepted = Ghost(self.accepted@ + opt_seq(self.in_flight@));
                    self.in_flight = Ghost(None);
                    assert(self@.taken =~= self@.accepted + opt_seq(self@.buffered) + opt_seq(self@.in_flight));
                    ForwardAction::PollProducer
                },
                Offered::Rejected(x) => {
                    self.phase = ForwardPhase::Idle;
                    self.buffered = Some(x);
                    self.in_flight = Ghost(None);
                    assert(self@.taken =~= self@.accepted + opt_seq(self@.buffered) + opt_seq(self@.in_flight));
                    ForwardAction::Suspend
                },
                Offered::Failed(e) => {
                    self.phase = ForwardPhase::Finished;
                    self.in_flight = Ghost(None);
                    ForwardAction::Fail(e)
                },
            },
            ForwardEvent::Flushed(s) => match s {
                Status::Failed(e) => {
                    self.phase = ForwardPhase::Finished;
                    ForwardAction::Fail(e)
                },
                _ => {
                    self.phase = ForwardPhase::Idle;
                    ForwardAction::Suspend
                },
            },
        }
    }
}

} // verus!
