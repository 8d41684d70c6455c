//! A producer wrapper that stalls or fails polls as a script says.
use crate::script::{poll_directive, script_head, script_tail, PollOp, Script};
use crate::test_sink::Intercept;
use vstd::prelude::*;

verus! {

/// How a poll directive treats a poll.
pub open spec fn poll_intercept<E>(op: PollOp<E>) -> Intercept<(), E> {
    match op {
        PollOp::Delegate => Intercept::Delegate(()),
        PollOp::NotReady => Intercept::NotReady(()),
        PollOp::Fail(e) => Intercept::Fail(e),
    }
}

/// A producer wrapper whose polls follow a script of directives. When the inner object
/// is also a consumer, its consumer operations go to it untouched.
pub struct TestStream<S, E> {
    inner: S,
    poll_ops: Script<PollOp<E>>,
}

impl<S, E> TestStream<S, E> {
    pub closed spec fn inner(&self) -> S {
        self.inner
    }

    pub closed spec fn poll_script(&self) -> Seq<PollOp<E>> {
        self.poll_ops@
    }

    /// Wraps `inner` with the given poll script.
    pub fn new(inner: S, poll_ops: Vec<PollOp<E>>) -> (r: Self)
        ensures
            r.inner() == inner,
            r.poll_script() == poll_ops@,
    {
        TestStream { inner, poll_ops: Script::new(poll_ops) }
    }

    /// Replaces the poll script; only later polls see it.
    pub fn set_poll_ops(&mut self, poll_ops: Vec<PollOp<E>>) -> (r: &mut Self)
        ensures
            r.poll_script() == poll_ops@,
            r.inner() == old(self).inner(),
            *final(self) == *final(r),
    {
        self.poll_ops = Script::new(poll_ops);
        self
    }

    pub fn get_ref(&self) -> (r: &S)
        ensures
            *r == self.inner(),
    {
        &self.inner
    }

    pub fn get_mut(&mut self) -> (r: &mut S)
        ensures
            *r == old(self).inner(),
            final(self).inner() == *final(r),
            final(self).poll_script() == old(self).poll_script(),
    {
        &mut self.inner
    }

    pub fn into_inner(self) -> (r: S)
        ensures
            r == self.inner(),
    {
        self.inner
    }

    /// Consumes the next poll directive and says what becomes of the poll; an
    /// exhausted script delegates.
    pub fn intercept_poll(&mut self) -> (r: Intercept<(), E>)
        ensures
            r == poll_intercept(poll_directive(script_head(old(self).poll_script()))),
            final(self).poll_script() == script_tail(old(self).poll_script()),
            final(self).inner() == old(self).inner(),
    {
        match self.poll_ops.next() {
            Some(PollOp::NotReady) => Intercept::NotReady(()),
            Some(PollOp::Fail(e)) => Intercept::Fail(e),
            Some(PollOp::Delegate) | None => Intercept::Delegate(()),
        }
    }
}

} // verus!
