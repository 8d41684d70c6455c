//! A consumer wrapper that stalls or fails sends and flushes as a script says.
use crate::script::{flush_directive, script_head, script_tail, send_directive, FlushOp, Script, SendOp};
use vstd::prelude::*;

verus! {

/// What a wrapper does with one intercepted call.
pub enum Intercept<T, E> {
    /// Pass the call, with this argument, on to the inner object.
    Delegate(T),
    /// Report "not ready" and notify the task at once; the argument comes back.
    NotReady(T),
    /// Fail with this error; the inner object is not touched.
    Fail(E),
}

/// How a send directive treats `item`.
pub open spec fn send_intercept<I, E>(op: SendOp<E>, item: I) -> Intercept<I, E> {
    match op {
        SendOp::Delegate => Intercept::Delegate(item),
        SendOp::NotReady => Intercept::NotReady(item),
        SendOp::Fail(e) => Intercept::Fail(e),
    }
}

/// How a flush directive treats a flush.
pub open spec fn flush_intercept<E>(op: FlushOp<E>) -> Intercept<(), E> {
    match op {
        FlushOp::Delegate => Intercept::Delegate(()),
        FlushOp::NotReady => Intercept::NotReady(()),
        FlushOp::Fail(e) => Intercept::Fail(e),
    }
}

/// A consumer wrapper whose sends and flushes follow scripts of directives. Closing
/// always goes to the inner consumer untouched.
pub struct TestSink<S, E> {
    inner: S,
    send_ops: Script<SendOp<E>>,
    flush_ops: Script<FlushOp<E>>,
}

impl<S, E> TestSink<S, E> {
    pub closed spec fn inner(&self) -> S {
        self.inner
    }

    pub closed spec fn send_script(&self) -> Seq<SendOp<E>> {
        self.send_ops@
    }

    pub closed spec fn flush_script(&self) -> Seq<FlushOp<E>> {
        self.flush_ops@
    }

    /// Wraps `inner` with the given send and flush scripts.
    pub fn new(inner: S, send_ops: Vec<SendOp<E>>, flush_ops: Vec<FlushOp<E>>) -> (r: Self)
        ensures
            r.inner() == inner,
            r.send_script() == send_ops@,
            r.flush_script() == flush_ops@,
    {
        TestSink { inner, send_ops: Script::new(send_ops), flush_ops: Script::new(flush_ops) }
    }

    /// Replaces the send script; only later sends see it.
    pub fn set_send_ops(&mut self, send_ops: Vec<SendOp<E>>) -> (r: &mut Self)
        ensures
            r.send_script() == send_ops@,
            r.inner() == old(self).inner(),
            *final(self) == *final(r),
            r.flush_script() == old(self).flush_script(),
    {
        self.send_ops = Script::new(send_ops);
        self
    }

    /// Replaces the flush script; only later flushes see it.
    pub fn set_flush_ops(&mut self, flush_ops: Vec<FlushOp<E>>) -> (r: &mut Self)
        ensures
            r.flush_script() == flush_ops@,
            r.inner() == old(self).inner(),
            *final(self) == *final(r),
            r.send_script() == old(self).send_script(),
    {
        self.flush_ops = Script::new(flush_ops);
        self
    }

    pub fn get_ref(&self) -> (r: &S)
        ensures
            *r == self.inner(),
    {
        &self.inner
    }

    pub fn get_mut(&mut self) -> (r: &mut S)
        ensures
            *r == old(self).inner(),
            final(self).inner() == *final(r),
            final(self).send_script() == old(self).send_script(),
            final(self).flush_script() == old(self).flush_script(),
    {
        &mut self.inner
    }

    pub fn into_inner(self) -> (r: S)
        ensures
            r == self.inner(),
    {
        self.inner
    }

    /// Consumes the next send directive and says what becomes of `item`; an exhausted
    /// script delegates.
    pub fn intercept_send<I>(&mut self, item: I) -> (r: Intercept<I, E>)
        ensures
            r == send_intercept(send_directive(script_head(old(self).send_script())), item),
            final(self).send_script() == script_tail(old(self).send_script()),
            final(self).flush_script() == old(self).flush_script(),
            final(self).inner() == old(self).inner(),
    {
        match self.send_ops.next() {
            Some(SendOp::NotReady) => Intercept::NotReady(item),
            Some(SendOp::Fail(e)) => Intercept::Fail(e),
            Some(SendOp::Delegate) | None => Intercept::Delegate(item),
        }
    }

    /// Consumes the next flush directive and says what becomes of the flush; an
    /// exhausted script delegates.
    pub fn intercept_flush(&mut self) -> (r: Intercept<(), E>)
        ensures
            r == flush_intercept(flush_directive(script_head(old(self).flush_script()))),
            final(self).flush_script() == script_tail(old(self).flush_script()),
            final(self).send_script() == old(self).send_script(),
            final(self).inner() == old(self).inner(),
    {
        match self.flush_ops.next() {
            Some(FlushOp::NotReady) => Intercept::NotReady(()),
            Some(FlushOp::Fail(e)) => Intercept::Fail(e),
            Some(FlushOp::Delegate) | None => Intercept::Delegate(()),
        }
    }
}

} // verus!
