//! The vocabulary shared by consumers, producers and the combinators that drive them.
use vstd::prelude::*;

verus! {

/// What a consumer reports when it is offered one item.
pub enum Offered<I, E> {
    /// The item was taken.
    Accepted,
    /// The consumer is not ready; the item comes back unconsumed.
    Rejected(I),
    /// The consumer failed.
    Failed(E),
}

/// What a consumer reports for a flush or a close.
pub enum Status<E> {
    /// The operation is complete.
    Ready,
    /// Not complete yet; the caller is notified when to retry.
    Pending,
    /// The operation failed.
    Failed(E),
}

/// What a producer reports when it is polled.
pub enum Polled<I, E> {
    /// The next item.
    Item(I),
    /// The sequence has ended.
    End,
    /// Nothing yet; the caller is notified when to retry.
    Pending,
    /// The producer failed.
    Failed(E),
}

} // verus!
