//! The queue of entries that found no room in the ring.
//!
//! The queue is the `Injector` of the `crossbeam_deque` crate, a first-in
//! first-out queue. It is used here by one owner at a time: every function that
//! changes it takes it by `&mut`, so no other thread is at work on it meanwhile,
//! and none is while it is only looked at. The queue itself is not handed out.

use crate::request::SqEntry;
use crossbeam_deque::{Injector, Steal};
use vstd::prelude::*;

verus! {

/// The outside queue.
#[verifier::external_type_specification]
#[verifier::external_body]
#[verifier::reject_recursive_types(T)]
pub struct ExInjector<T>(crossbeam_deque::Injector<T>);

/// The entries in a queue, the one that entered first in front.
pub uninterp spec fn waiting(queue: Injector<SqEntry>) -> Seq<SqEntry>;

/// What came of an attempt to take an entry from the queue.
#[derive(Clone, Copy, Debug, PartialEq, Eq)]
pub enum Stolen {
    /// The first entry of the queue.
    Entry(SqEntry),
    /// There was no entry.
    Empty,
    /// The attempt failed and may be repeated.
    Retry,
}

/// What an attempt to take an entry may come to: nothing to take where there is
/// no entry, and otherwise the first entry, or a failure that leaves the queue as
/// it is.
pub open spec fn may_steal(before: Seq<SqEntry>, stolen: Stolen, after: Seq<SqEntry>) -> bool {
    match stolen {
        Stolen::Entry(entry) => before.len() > 0 && entry == before.first() && after
            == before.drop_first(),
        Stolen::Empty => before.len() == 0 && after == before,
        Stolen::Retry => before.len() > 0 && after == before,
    }
}

/// `Injector::new` makes an empty queue.
#[verifier::external_body]
pub(crate) fn new_queue() -> (queue: Injector<SqEntry>)
    ensures
        waiting(queue) == Seq::<SqEntry>::empty(),
{
    Injector::new()
}

/// `Injector::push` appends an entry at the back.
#[verifier::external_body]
pub(crate) fn push_back(queue: &mut Injector<SqEntry>, entry: SqEntry)
    ensures
        waiting(*final(queue)) == waiting(*old(queue)).push(entry),
{
    queue.push(entry)
}

/// `Injector::steal` takes the entry in front. It reports an empty queue exactly
/// when there is no entry. On a queue with entries the attempt may also fail,
/// even without another thread at work, because it ends in a weak
/// compare-and-exchange; the queue is then unchanged. Which of the two happens is
/// left open.
#[verifier::external_body]
pub(crate) fn steal_front(queue: &mut Injector<SqEntry>) -> (stolen: Stolen)
    ensures
        may_steal(waiting(*old(queue)), stolen, waiting(*final(queue))),
{
    match queue.steal() {
        Steal::Success(entry) => Stolen::Entry(entry),
        Steal::Empty => Stolen::Empty,
        Steal::Retry => Stolen::Retry,
    }
}

/// `Injector::is_empty` says whether there is no entry.
#[verifier::external_body]
pub(crate) fn is_empty(queue: &Injector<SqEntry>) -> (empty: bool)
    ensures
        empty == (waiting(*queue).len() == 0),
{
    queue.is_empty()
}

/// The `Debug` impl of `Injector` writes the same words for every queue.
#[verifier::external_body]
pub(crate) fn text(queue: &Injector<SqEntry>) -> (text: String)
    ensures
        text@ == "Injector { .. }"@,
{
    format!("{:?}", queue)
}

} // verus!
