//! The close and send-then-close combinators, as state machines. The caller performs
//! each consumer call that the machine asks for and reports back what it returned.
use crate::protocol::{Offered, Status};
use vstd::prelude::*;

verus! {

/// Where a combinator stands after it has been told the outcome of a call.
pub enum Progress<T, E> {
    /// Make the next call at once.
    Continue,
    /// Suspend until notified; the consumer has parked the task.
    Pending,
    /// Finished, yielding this value.
    Done(T),
    /// Finished with this error; nothing more is attempted.
    Failed(E),
}

/// A call that a combinator asks to be made on its consumer.
pub enum ConsumerCall<I> {
    Offer(I),
    Flush,
    Close,
}

/// Drives a consumer's close to completion, then yields the consumer.
pub struct Close<S> {
    sink: Option<S>,
}

impl<S> Close<S> {
    /// The consumer, while the close has not finished.
    pub closed spec fn sink(&self) -> Option<S> {
        self.sink
    }

    pub fn new(s: S) -> (r: Self)
        ensures
            r.sink() == Some(s),
    {
        Close { sink: Some(s) }
    }

    pub fn is_terminated(&self) -> (r: bool)
        ensures
            r == self.sink() is None,
    {
        self.sink.is_none()
    }

    pub fn get_ref(&self) -> (r: &S)
        requires
            self.sink() is Some,
        ensures
            *r == self.sink()->0,
    {
        self.sink.as_ref().unwrap()
    }

    pub fn get_mut(&mut self) -> (r: &mut S)
        requires
            old(self).sink() is Some,
        ensures
            *r == old(self).sink()->0,
            final(self).sink() == Some(*final(r)),
    {
        self.sink.as_mut().unwrap()
    }

    /// Takes the status that the consumer's close reported: complete hands the consumer
    /// back, not ready keeps waiting, and a failure ends the combinator.
    pub fn on_close<E>(&mut self, st: Status<E>) -> (r: Progress<S, E>)
        requires
            old(self).sink() is Some,
        ensures
            match st {
                Status::Ready => r == Progress::<S, E>::Done(old(self).sink()->0) && final(self).sink() is None,
                Status::Pending => r is Pending && final(self).sink() == old(self).sink(),
                Status::Failed(e) => r == Progress::<S, E>::Failed(e) && final(self).sink() is None,
            },
    {
        match st {
            Status::Ready => Progress::Done(self.sink.take().unwrap()),
            Status::Pending => Progress::Pending,
            Status::Failed(e) => {
                self.sink = None;
                Progress::Failed(e)
            },
        }
    }
}

/// The stages of a send-then-close.
#[derive(Clone, Copy, Debug, PartialEq, Eq, Structural)]
pub enum SendClosePhase {
    Offering,
    Flushing,
    Closing,
    Finished,
}

/// Sends one item to a consumer, flushes it, then closes it and yields the consumer.
pub struct SendClose<S, I> {
    sink: Option<S>,
    item: Option<I>,
    phase: SendClosePhase,
}

impl<S, I> SendClose<S, I> {
    pub closed spec fn sink(&self) -> Option<S> {
        self.sink
    }

    /// The item, while it waits to be offered.
    pub closed spec fn item(&self) -> Option<I> {
        self.item
    }

    pub closed spec fn phase(&self) -> SendClosePhase {
        self.phase
    }

    pub open spec fn wf(&self) -> bool {
        &&& (self.phase() == SendClosePhase::Finished) == (self.sink() is None)
        &&& self.phase() != SendClosePhase::Offering ==> self.item() is None
    }

    /// Whether the item has been handed out by `next_call` and its outcome is awaited.
    pub open spec fn offer_in_flight(&self) -> bool {
        self.phase() == SendClosePhase::Offering && self.item() is None
    }

    pub fn new(sink: S, item: I) -> (r: Self)
        ensures
            r.wf(),
            r.sink() == Some(sink),
            r.item() == Some(item),
            r.phase() == SendClosePhase::Offering,
    {
        SendClose { sink: Some(sink), item: Some(item), phase: SendClosePhase::Offering }
    }

    pub fn phase_now(&self) -> (r: SendClosePhase)
        ensures
            r == self.phase(),
    {
        self.phase
    }

    pub fn get_ref(&self) -> (r: &S)
        requires
            self.sink() is Some,
        ensures
            *r == self.sink()->0,
    {
        self.sink.as_ref().unwrap()
    }

    pub fn get_mut(&mut self) -> (r: &mut S)
        requires
            old(self).sink() is Some,
        ensures
            *r == old(self).sink()->0,
            final(self).sink() == Some(*final(r)),
            final(self).item() == old(self).item(),
            final(self).phase() == old(self).phase(),
    {
        self.sink.as_mut().unwrap()
    }

    /// The call to make next: the offer of the item, then a flush, then a close.
    pub fn next_call(&mut self) -> (r: ConsumerCall<I>)
        requires
            old(self).wf(),
            old(self).phase() != SendClosePhase::Finished,
            !old(self).offer_in_flight(),
        ensures
            final(self).wf(),
            final(self).sink() == old(self).sink(),
            final(self).phase() == old(self).phase(),
            final(self).item() is None,
            match old(self).phase() {
                SendClosePhase::Offering => r == ConsumerCall::Offer(old(self).item()->0),
                SendClosePhase::Flushing => r is Flush,
                _ => r is Close,
            },
    {
        match self.phase {
            SendClosePhase::Offering => ConsumerCall::Offer(self.item.take().unwrap()),
            SendClosePhase::Flushing => ConsumerCall::Flush,
            _ => ConsumerCall::Close,
        }
    }

    /// Takes what the consumer answered to the offer. A rejected item is kept for the
    /// next attempt.
    pub fn on_offer<E>(&mut self, ev: Offered<I, E>) -> (r: Progress<S, E>)
        requires
            old(self).wf(),
            old(self).offer_in_flight(),
        ensures
            final(self).wf(),
            match ev {
                Offered::Accepted => r is Continue && final(self).phase() == SendClosePhase::Flushing
                    && final(self).sink() == old(self).sink() && final(self).item() is None,
                Offered::Rejected(x) => r is Pending && final(self).phase() == SendClosePhase::Offering
                    && final(self).sink() == old(self).sink() && final(self).item() == Some(x),
                Offered::Failed(e) => r == Progress::<S, E>::Failed(e)
                    && final(self).phase() == SendClosePhase::Finished,
            },
    {
        match ev {
            Offered::Accepted => {
                self.phase = SendClosePhase::Flushing;
                Progress::Continue
            },
            Offered::Rejected(x) => {
                self.item = Some(x);
                Progress::Pending
            },
            Offered::Failed(e) => {
                self.sink = None;
                self.phase = SendClosePhase::Finished;
                Progress::Failed(e)
            },
        }
    }

    /// Takes the status that the consumer's flush or close reported.
    pub fn on_status<E>(&mut self, st: Status<E>) -> (r: Progress<S, E>)
        requires
            old(self).wf(),
            old(self).phase() == SendClosePhase::Flushing || old(self).phase() == SendClosePhase::Closing,
        ensures
            final(self).wf(),
            final(self).item() is None,
            match st {
                Status::Ready => if old(self).phase() == SendClosePhase::Flushing {
                    r is Continue && final(self).phase() == SendClosePhase::Closing
                        && final(self).sink() == old(self).sink()
                } else {
                    r == Progress::<S, E>::Done(old(self).sink()->0)
                        && final(self).phase() == SendClosePhase::Finished
                },
                Status::Pending => r is Pending && final(self).phase() == old(self).phase()
                    && final(self).sink() == old(self).sink(),
                Status::Failed(e) => r == Progress::<S, E>::Failed(e)
                    && final(self).phase() == SendClosePhase::Finished,
            },
    {
        match st {
            Status::Ready => {
                if self.phase == SendClosePhase::Flushing {
                    self.phase = SendClosePhase::Closing;
                    Progress::Continue
                } else {
                    self.phase = SendClosePhase::Finished;
                    Progress::Done(self.sink.take().unwrap())
                }
            },
            Status::Pending => Progress::Pending,
            Status::Failed(e) => {
                self.sink = None;
                self.phase = SendClosePhase::Finished;
                Progress::Failed(e)
            },
        }
    }
}

} // verus!
