//! Trusted boundary to the outside concurrency primitives that the buffer
//! pool is built on: a bounded FIFO queue of byte buffers and a counting
//! semaphore. Each wrapper's contract states only what the primitive's own
//! source shows; everything above this module is verified against these
//! contracts.

use vstd::prelude::*;

verus! {

/// Largest pool size these wrappers accept; far below the points where the
/// queue and semaphore constructors panic.
pub const POOL_BOUND: usize = 0x1000_0000;

#[verifier::external_type_specification]
#[verifier::external_body]
#[verifier::reject_recursive_types(T)]
pub struct ExArrayQueue<T>(crossbeam::queue::ArrayQueue<T>);

#[verifier::external_type_specification]
#[verifier::external_body]
pub struct ExSemaphore(tokio::sync::Semaphore);

/// The buffers held by the queue, oldest first.
pub uninterp spec fn queue_contents(q: crossbeam::queue::ArrayQueue<Vec<u8>>) -> Seq<Seq<u8>>;

/// The fixed bound the queue was created with.
pub uninterp spec fn queue_capacity(q: crossbeam::queue::ArrayQueue<Vec<u8>>) -> nat;

/// The semaphore's current permit count.
pub uninterp spec fn semaphore_permits(s: tokio::sync::Semaphore) -> nat;

/// Relies on crossbeam's `ArrayQueue::new`: an empty bounded queue of the
/// given capacity. The constructor panics on a zero capacity, so that input
/// is excluded here.
#[verifier::external_body]
pub(crate) fn buffer_queue_new(cap: usize) -> (q: crossbeam::queue::ArrayQueue<Vec<u8>>)
    requires
        1 <= cap <= POOL_BOUND,
    ensures
        queue_capacity(q) == cap,
        queue_contents(q) == Seq::<Seq<u8>>::empty(),
{
    crossbeam::queue::ArrayQueue::new(cap)
}

/// Relies on crossbeam's `ArrayQueue::push`: appends the value when the
/// queue is below capacity, and hands the value back untouched when it is
/// full.
#[verifier::external_body]
pub(crate) fn buffer_queue_push(q: &mut crossbeam::queue::ArrayQueue<Vec<u8>>, v: Vec<u8>) -> (r:
    Result<(), Vec<u8>>)
    ensures
        queue_capacity(*final(q)) == queue_capacity(*old(q)),
        r is Ok <==> queue_contents(*old(q)).len() < queue_capacity(*old(q)),
        r is Ok ==> queue_contents(*final(q)) == queue_contents(*old(q)).push(v@),
        r matches Err(w) ==> w@ == v@ && queue_contents(*final(q)) == queue_contents(*old(q)),
{
    q.push(v)
}

/// Relies on crossbeam's `ArrayQueue::pop`: removes and returns the oldest
/// element, or `None` exactly when the queue is empty.
#[verifier::external_body]
pub(crate) fn buffer_queue_pop(q: &mut crossbeam::queue::ArrayQueue<Vec<u8>>) -> (r: Option<
    Vec<u8>>)
    ensures
        queue_capacity(*final(q)) == queue_capacity(*old(q)),
        r is Some <==> queue_contents(*old(q)).len() > 0,
        r matches Some(b) ==> {
            &&& b@ == queue_contents(*old(q))[0]
            &&& queue_contents(*final(q)) == queue_contents(*old(q)).subrange(
                1,
                queue_contents(*old(q)).len() as int,
            )
        },
        r is None ==> queue_contents(*final(q)) == queue_contents(*old(q)),
{
    q.pop()
}

/// Relies on crossbeam's `ArrayQueue::len`: the number of elements held.
#[verifier::external_body]
pub(crate) fn buffer_queue_len(q: &crossbeam::queue::ArrayQueue<Vec<u8>>) -> (n: usize)
    ensures
        n == queue_contents(*q).len(),
{
    q.len()
}

/// Relies on tokio's `Semaphore::new`: a semaphore holding exactly the given
/// permits. The constructor panics above `MAX_PERMITS`, far beyond the bound
/// required here.
#[verifier::external_body]
pub(crate) fn semaphore_new(n: usize) -> (s: tokio::sync::Semaphore)
    requires
        n <= POOL_BOUND,
    ensures
        semaphore_permits(s) == n,
{
    tokio::sync::Semaphore::new(n)
}

/// Relies on tokio's `Semaphore::add_permits`: raises the permit count by
/// `n`. It panics above `MAX_PERMITS`, so the sum is bounded here.
#[verifier::external_body]
pub(crate) fn semaphore_add(s: &mut tokio::sync::Semaphore, n: usize)
    requires
        semaphore_permits(*old(s)) + n <= POOL_BOUND,
    ensures
        semaphore_permits(*final(s)) == semaphore_permits(*old(s)) + n,
{
    s.add_permits(n)
}

/// Relies on tokio's `Semaphore::forget_permits`: lowers the permit count by
/// at most `n` and returns how many permits were actually removed.
#[verifier::external_body]
pub(crate) fn semaphore_forget(s: &mut tokio::sync::Semaphore, n: usize) -> (taken: usize)
    ensures
        taken == if n <= semaphore_permits(*old(s)) {
            n as int
        } else {
            semaphore_permits(*old(s)) as int
        },
        semaphore_permits(*final(s)) == semaphore_permits(*old(s)) - taken,
{
    s.forget_permits(n)
}

/// Relies on tokio's `Semaphore::available_permits`: the current permit
/// count, which the semaphore stores as a `usize`.
#[verifier::external_body]
pub(crate) fn semaphore_available(s: &tokio::sync::Semaphore) -> (n: usize)
    ensures
        n == semaphore_permits(*s),
{
    s.available_permits()
}

} // verus!
