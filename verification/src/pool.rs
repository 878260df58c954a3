//! Bounded pool of reusable byte buffers. A fixed set of `total` buffers
//! cycles between the pool and its callers; a counting semaphore mirrors the
//! number of buffers in the pool, so the permit count and the buffer count
//! never disagree. Checkout and return are the only ways buffers leave or
//! enter, and the pool never grows past its initial size.
//!
//! A buffer is zeroed and restored to the pool's configured capacity when it
//! is returned, so no occupant ever sees bytes a previous occupant wrote.

use vstd::prelude::*;

use crate::ext::{
    buffer_queue_len, buffer_queue_new, buffer_queue_pop, buffer_queue_push, queue_capacity,
    queue_contents, semaphore_add, semaphore_available, semaphore_forget, semaphore_new,
    semaphore_permits, POOL_BOUND,
};

verus! {

/// A fixed set of byte buffers behind a bounded FIFO queue, gated by a
/// counting semaphore whose permits track the buffers available.
pub struct BufferPool {
    queue: crossbeam::queue::ArrayQueue<Vec<u8>>,
    permits: tokio::sync::Semaphore,
    buffer_capacity: usize,
    total: usize,
    checked_out: usize,
}

impl BufferPool {
    /// Number of buffers the pool was created with.
    pub closed spec fn total_buffers(&self) -> int {
        self.total as int
    }

    /// Configured byte capacity of every buffer.
    pub closed spec fn capacity_each(&self) -> int {
        self.buffer_capacity as int
    }

    /// The buffers currently waiting in the pool, oldest first.
    pub closed spec fn pooled_buffers(&self) -> Seq<Seq<u8>> {
        queue_contents(self.queue)
    }

    /// Buffers currently waiting in the pool.
    pub closed spec fn available(&self) -> int {
        queue_contents(self.queue).len() as int
    }

    /// Buffers currently checked out by callers.
    pub closed spec fn checked_out_count(&self) -> int {
        self.checked_out as int
    }

    /// Permits currently held by the gating semaphore.
    pub closed spec fn permit_count(&self) -> int {
        semaphore_permits(self.permits) as int
    }

    /// Pool invariant: the queue was sized for exactly `total` buffers, the
    /// available and checked-out counts sum to `total`, the semaphore holds
    /// one permit per available buffer, and every pooled buffer has the
    /// configured capacity as its logical length.
    pub closed spec fn wf(&self) -> bool {
        &&& 1 <= self.total <= POOL_BOUND
        &&& queue_capacity(self.queue) == self.total
        &&& queue_contents(self.queue).len() + self.checked_out == self.total
        &&& semaphore_permits(self.permits) == queue_contents(self.queue).len()
        &&& forall|i: int|
            0 <= i < queue_contents(self.queue).len() ==> #[trigger] queue_contents(
                self.queue,
            )[i].len() == self.buffer_capacity
    }

    /// Builds a pool of `count` zeroed buffers, each of logical length
    /// `capacity`, with one permit per buffer.
    pub fn new(count: usize, capacity: usize) -> (p: BufferPool)
        requires
            1 <= count <= POOL_BOUND,
        ensures
            p.wf(),
            p.total_buffers() == count,
            p.capacity_each() == capacity,
            p.available() == count,
            p.checked_out_count() == 0,
    {
        let mut queue = buffer_queue_new(count);
        let mut filled: usize = 0;
        while filled < count
            invariant
                filled <= count,
                count <= POOL_BOUND,
                queue_capacity(queue) == count,
                queue_contents(queue).len() == filled,
                forall|i: int|
                    0 <= i < filled ==> #[trigger] queue_contents(queue)[i].len() == capacity,
            decreases count - filled,
        {
            let buf: Vec<u8> = vec![0u8; capacity];
            let pushed = buffer_queue_push(&mut queue, buf);
            match pushed {
                Ok(()) => {},
                Err(_) => {
                    proof {
                        assert(false);
                    }
                },
            }
            filled = filled + 1;
        }
        let permits = semaphore_new(count);
        BufferPool { queue, permits, buffer_capacity: capacity, total: count, checked_out: 0 }
    }

    /// Takes one buffer out of the pool, or returns `None` exactly when none
    /// is available. A returned buffer has the pool's configured capacity as
    /// its logical length; the caller owns it until it releases it.
    pub fn try_acquire(&mut self) -> (r: Option<Vec<u8>>)
        requires
            old(self).wf(),
        ensures
            final(self).wf(),
            final(self).total_buffers() == old(self).total_buffers(),
            final(self).capacity_each() == old(self).capacity_each(),
            r is Some <==> old(self).available() > 0,
            r matches Some(b) ==> {
                &&& b@.len() == old(self).capacity_each()
                &&& b@ == old(self).pooled_buffers()[0]
                &&& final(self).pooled_buffers() == old(self).pooled_buffers().subrange(
                    1,
                    old(self).available(),
                )
                &&& final(self).available() == old(self).available() - 1
                &&& final(self).checked_out_count() == old(self).checked_out_count() + 1
            },
            r is None ==> {
                &&& final(self).available() == old(self).available()
                &&& final(self).checked_out_count() == old(self).checked_out_count()
            },
    {
        let taken = semaphore_forget(&mut self.permits, 1);
        if taken == 1 {
            let popped = buffer_queue_pop(&mut self.queue);
            match popped {
                Some(buf) => {
                    self.checked_out = self.checked_out + 1;
                    Some(buf)
                },
                None => {
                    proof {
                        assert(false);
                    }
                    None
                },
            }
        } else {
            None
        }
    }

    /// Returns a checked-out buffer to the pool: its logical length is
    /// restored to exactly the configured capacity (and its bytes zeroed),
    /// and one permit comes back with it. Returning a buffer that was never
    /// checked out would overflow the pool, so that call is excluded.
    pub fn release(&mut self, buffer: Vec<u8>)
        requires
            old(self).wf(),
            old(self).checked_out_count() > 0,
        ensures
            final(self).wf(),
            final(self).total_buffers() == old(self).total_buffers(),
            final(self).capacity_each() == old(self).capacity_each(),
            final(self).available() == old(self).available() + 1,
            final(self).checked_out_count() == old(self).checked_out_count() - 1,
            final(self).pooled_buffers() == old(self).pooled_buffers().push(
                Seq::new(old(self).capacity_each() as nat, |j: int| 0u8),
            ),
    {
        let mut buf = buffer;
        buf.clear();
        let mut len: usize = 0;
        while len < self.buffer_capacity
            invariant
                buf@.len() == len,
                len <= self.buffer_capacity,
                forall|j: int| 0 <= j < len ==> buf@[j] == 0,
            decreases self.buffer_capacity - len,
        {
            buf.push(0u8);
            len = len + 1;
        }
        proof {
            assert(buf@ =~= Seq::new(old(self).capacity_each() as nat, |j: int| 0u8));
        }
        let pushed = buffer_queue_push(&mut self.queue, buf);
        match pushed {
            Ok(()) => {},
            Err(_) => {
                proof {
                    assert(false);
                }
            },
        }
        self.checked_out = self.checked_out - 1;
        semaphore_add(&mut self.permits, 1);
    }

    /// Number of buffers currently in the pool.
    pub fn available_buffers(&self) -> (n: usize)
        requires
            self.wf(),
        ensures
            n == self.available(),
    {
        buffer_queue_len(&self.queue)
    }

    /// Number of permits currently held by the gating semaphore.
    pub fn available_permits(&self) -> (n: usize)
        requires
            self.wf(),
        ensures
            n == self.permit_count(),
    {
        semaphore_available(&self.permits)
    }

    /// Pool size chosen at construction.
    pub fn size(&self) -> (n: usize)
        ensures
            n == self.total_buffers(),
    {
        self.total
    }

    /// Configured logical length of every buffer.
    pub fn buffer_capacity(&self) -> (n: usize)
        ensures
            n == self.capacity_each(),
    {
        self.buffer_capacity
    }
}

/// Law: buffers are conserved. In a well-formed pool the available and
/// checked-out counts always sum to the pool size, so at most that many
/// buffers are ever checked out at once, and the buffer count agrees with
/// the semaphore's permit count at every observable point.
pub proof fn lemma_pool_conservation(p: &BufferPool)
    requires
        p.wf(),
    ensures
        p.available() + p.checked_out_count() == p.total_buffers(),
        0 <= p.checked_out_count() <= p.total_buffers(),
        p.available() == p.permit_count(),
{
}

} // verus!
