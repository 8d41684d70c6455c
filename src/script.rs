//! Scripted directives: what a wrapped operation does on each of its calls.
use vstd::prelude::*;

verus! {

/// What to do the next time an item is sent.
#[derive(Clone, Debug, PartialEq, Eq, Structural)]
pub enum SendOp<E> {
    /// Simply delegate to the underlying consumer.
    Delegate,
    /// Report "not ready" without calling the underlying operation; the task is
    /// notified at once.
    NotReady,
    /// Fail with this error without calling the underlying operation.
    Fail(E),
}

/// What to do the next time a flush is requested.
#[derive(Clone, Debug, PartialEq, Eq, Structural)]
pub enum FlushOp<E> {
    /// Simply delegate to the underlying consumer.
    Delegate,
    /// Report "not ready" without calling the underlying operation; the task is
    /// notified at once.
    NotReady,
    /// Fail with this error without calling the underlying operation.
    Fail(E),
}

/// What to do the next time the producer is polled.
#[derive(Clone, Debug, PartialEq, Eq, Structural)]
pub enum PollOp<E> {
    /// Simply delegate to the underlying producer.
    Delegate,
    /// Report "not ready" without calling the underlying operation; the task is
    /// notified at once.
    NotReady,
    /// Fail with this error without calling the underlying operation.
    Fail(E),
}

/// The share of generated directives that stall: a random byte below this bound makes
/// a "not ready" directive, so a quarter of them stall and the rest delegate.
pub const STALL_BOUND: u8 = 64;

impl<E> SendOp<E> {
    /// The generated directive for a uniformly random byte.
    pub fn from_random_byte(b: u8) -> (r: Self)
        ensures
            r == (if b < STALL_BOUND { SendOp::<E>::NotReady } else { SendOp::<E>::Delegate }),
    {
        if b < STALL_BOUND {
            SendOp::NotReady
        } else {
            SendOp::Delegate
        }
    }
}

impl<E> FlushOp<E> {
    /// The generated directive for a uniformly random byte.
    pub fn from_random_byte(b: u8) -> (r: Self)
        ensures
            r == (if b < STALL_BOUND { FlushOp::<E>::NotReady } else { FlushOp::<E>::Delegate }),
    {
        if b < STALL_BOUND {
            FlushOp::NotReady
        } else {
            FlushOp::Delegate
        }
    }
}

impl<E> PollOp<E> {
    /// The generated directive for a uniformly random byte.
    pub fn from_random_byte(b: u8) -> (r: Self)
        ensures
            r == (if b < STALL_BOUND { PollOp::<E>::NotReady } else { PollOp::<E>::Delegate }),
    {
        if b < STALL_BOUND {
            PollOp::NotReady
        } else {
            PollOp::Delegate
        }
    }
}

/// The directive handed out by one call on a script, if any is left.
pub open spec fn script_head<T>(ops: Seq<T>) -> Option<T> {
    if ops.len() > 0 {
        Some(ops[0])
    } else {
        None
    }
}

/// The script left after one call.
pub open spec fn script_tail<T>(ops: Seq<T>) -> Seq<T> {
    if ops.len() > 0 {
        ops.drop_first()
    } else {
        ops
    }
}

/// The directives handed out by `n` consecutive calls on `ops`.
pub open spec fn pulled<T>(ops: Seq<T>, n: nat) -> Seq<Option<T>>
    decreases n,
{
    if n == 0 {
        Seq::empty()
    } else {
        seq![script_head(ops)] + pulled(script_tail(ops), (n - 1) as nat)
    }
}

/// The send directive that an optional script entry stands for.
pub open spec fn send_directive<E>(o: Option<SendOp<E>>) -> SendOp<E> {
    match o {
        Some(op) => op,
        None => SendOp::Delegate,
    }
}

/// The flush directive that an optional script entry stands for.
pub open spec fn flush_directive<E>(o: Option<FlushOp<E>>) -> FlushOp<E> {
    match o {
        Some(op) => op,
        None => FlushOp::Delegate,
    }
}

/// The poll directive that an optional script entry stands for.
pub open spec fn poll_directive<E>(o: Option<PollOp<E>>) -> PollOp<E> {
    match o {
        Some(op) => op,
        None => PollOp::Delegate,
    }
}

/// Over `n` calls, a script hands out its own entries in order, then nothing.
pub proof fn lemma_pulled<T>(ops: Seq<T>, n: nat)
    ensures
        pulled(ops, n).len() == n,
        forall|k: int| 0 <= k < n ==> #[trigger] pulled(ops, n)[k] == (if k < ops.len() { Some(ops[k]) } else { None }),
    decreases n,
{
    if n > 0 {
        let rest = pulled(script_tail(ops), (n - 1) as nat);
        lemma_pulled(script_tail(ops), (n - 1) as nat);
        assert forall|k: int| 0 <= k < n implies #[trigger] pulled(ops, n)[k] == (if k < ops.len() { Some(ops[k]) } else { None }) by {
            if k > 0 {
                assert(pulled(ops, n)[k] == rest[k - 1]);
            }
        }
    }
}

/// A send script of length `N` used for more than `N` sends scripts only the first
/// `N`: every later send delegates, exactly as an unwrapped consumer would behave.
pub proof fn lemma_send_script_exhausted<E>(ops: Seq<SendOp<E>>, n: nat)
    ensures
        forall|k: int| 0 <= k < n ==> #[trigger] send_directive(pulled(ops, n)[k]) == (if k < ops.len() { ops[k] } else { SendOp::Delegate }),
{
    lemma_pulled(ops, n);
}

/// A finite sequence of directives, consumed one per call. An exhausted script keeps
/// answering `None`.
pub struct Script<T> {
    ops: Vec<T>,
}

impl<T> View for Script<T> {
    type V = Seq<T>;

    closed spec fn view(&self) -> Seq<T> {
        self.ops@
    }
}

impl<T> Script<T> {
    pub fn new(ops: Vec<T>) -> (r: Self)
        ensures
            r@ == ops@,
    {
        Script { ops }
    }

    /// Takes the next directive.
    pub fn next(&mut self) -> (r: Option<T>)
        ensures
            r == script_head(old(self)@),
            final(self)@ == script_tail(old(self)@),
    {
        if self.ops.len() > 0 {
            Some(self.ops.remove(0))
        } else {
            None
        }
    }

    pub fn remaining(&self) -> (r: usize)
        ensures
            r == self@.len(),
    {
        self.ops.len()
    }
}

} // verus!
