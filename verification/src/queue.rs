//! A bounded, deadline-aware holding area of pending items: FIFO except for an
//! explicit front insertion, with a runtime-adjustable capacity and a FIFO of
//! registered wake handles. Enqueueing never exceeds capacity: it partially
//! accepts instead and lets the caller report backpressure for the rest.
//!
//! The queue itself is a sequential structure; [`Sender`], [`Receiver`] and
//! [`QueueFuture`] share one queue behind a verified lock, so every operation
//! is a single mutual-exclusion region around the in-memory mutation.

use std::collections::VecDeque;
use std::sync::Arc;
use vstd::prelude::*;
use vstd::rwlock::RwLock;
use vstd::rwlock::RwLockPredicate;

verus! {

/// One unit of queued work: the payload together with the time it was admitted
/// and the absolute time after which it must not be served. Times are
/// milliseconds on the caller's clock.
pub struct Metadata<T> {
    pub value: T,
    pub arrival: u64,
    pub deadline: u64,
}

impl<T> Metadata<T> {
    /// An item is well formed when its deadline does not precede its arrival.
    pub open spec fn wf(&self) -> bool {
        self.arrival <= self.deadline
    }
}

/// What an accepting enqueue stamps and appends: the accepted values in the
/// order they leave the back of the caller's vector, newest offer first.
pub open spec fn stamped<T>(accepted: Seq<T>, arrival: u64, deadline: u64) -> Seq<Metadata<T>> {
    accepted.reverse().map_values(|v: T| Metadata { value: v, arrival, deadline })
}

/// The ordered holding area: resident items, the admission ceiling, and the
/// wake handles of suspended consumers, oldest first.
pub struct Queue<T, W> {
    items: VecDeque<Metadata<T>>,
    capacity: usize,
    waiters: VecDeque<W>,
}

impl<T, W> Queue<T, W> {
    /// The resident items, head (next to leave) first.
    pub closed spec fn spec_items(&self) -> Seq<Metadata<T>> {
        self.items@
    }

    /// The admission ceiling.
    pub closed spec fn spec_capacity(&self) -> int {
        self.capacity as int
    }

    /// Registered wake handles, oldest first.
    pub closed spec fn spec_waiters(&self) -> Seq<W> {
        self.waiters@
    }

    /// How much room admission sees: capacity minus length, or zero when a
    /// front insertion or a capacity cut has left the queue over capacity.
    pub open spec fn spec_free_space(&self) -> int {
        if self.spec_items().len() <= self.spec_capacity() {
            self.spec_capacity() - self.spec_items().len()
        } else {
            0
        }
    }

    /// Every resident item is well formed.
    pub open spec fn wf(&self) -> bool {
        forall|i: int|
            0 <= i < self.spec_items().len() ==> (#[trigger] self.spec_items()[i]).wf()
    }

    /// An empty queue with the given capacity and no pending wake registration.
    pub fn new(capacity: usize) -> (q: Self)
        ensures
            q.spec_items() == Seq::<Metadata<T>>::empty(),
            q.spec_capacity() == capacity,
            q.spec_waiters() == Seq::<W>::empty(),
            q.wf(),
    {
        Queue { items: VecDeque::new(), capacity, waiters: VecDeque::new() }
    }

    /// How many items are resident.
    pub fn len(&self) -> (n: usize)
        ensures
            n == self.spec_items().len(),
    {
        self.items.len()
    }

    /// The admission ceiling.
    pub fn capacity(&self) -> (c: usize)
        ensures
            c == self.spec_capacity(),
    {
        self.capacity
    }

    /// `capacity - length`, saturating at zero while the queue is over
    /// capacity after a front insertion or a capacity cut.
    pub fn free_space(&self) -> (r: usize)
        ensures
            r == self.spec_free_space(),
    {
        let len = self.items.len();
        if len <= self.capacity {
            self.capacity - len
        } else {
            0
        }
    }

    /// Admits `min(free_space, values.len())` items, taking them from the back
    /// of `values` so the caller keeps exactly the unaccepted rest, stamping
    /// each with the given arrival and with `deadline = arrival + ttl`, and
    /// appending them at the tail. When at least one item is accepted and a
    /// consumer is registered, the oldest wake handle is handed back to be
    /// woken; at most one handle per call.
    pub fn enqueue_many(&mut self, arrival: u64, ttl: u64, values: &mut Vec<T>) -> (r: (
        usize,
        Option<W>,
    ))
        requires
            arrival + ttl <= u64::MAX,
            old(self).wf(),
        ensures
            ({
                let consumed = r.0 as int;
                let kept = old(values)@.len() - consumed;
                &&& consumed == vstd::math::min(
                    old(self).spec_free_space(),
                    old(values)@.len() as int,
                )
                &&& final(values)@ == old(values)@.take(kept)
                &&& final(self).spec_items() == old(self).spec_items() + stamped(
                    old(values)@.skip(kept),
                    arrival,
                    (arrival + ttl) as u64,
                )
                &&& final(self).spec_capacity() == old(self).spec_capacity()
                &&& if consumed > 0 && old(self).spec_waiters().len() > 0 {
                    r.1 == Some(old(self).spec_waiters()[0])
                        && final(self).spec_waiters() == old(self).spec_waiters().skip(1)
                } else {
                    r.1 is None && final(self).spec_waiters() == old(self).spec_waiters()
                }
                &&& old(self).spec_items().len() <= old(self).spec_capacity()
                    ==> final(self).spec_items().len() <= final(self).spec_capacity()
                &&& final(self).wf()
            }),
    {
        let deadline = arrival + ttl;
        let free = self.free_space();
        let offered = values.len();
        let consumed = if free < offered {
            free
        } else {
            offered
        };
        let woken: Option<W> = if consumed > 0 {
            self.waiters.pop_front()
        } else {
            None
        };
        let ghost offered_seq = values@;
        let mut taken: usize = 0;
        while taken < consumed
            invariant
                taken <= consumed,
                consumed <= offered_seq.len(),
                values@ == offered_seq.take(offered_seq.len() - taken),
                self.spec_items() == old(self).spec_items() + stamped(
                    offered_seq.skip(offered_seq.len() - taken),
                    arrival,
                    deadline,
                ),
                self.spec_capacity() == old(self).spec_capacity(),
                self.spec_waiters() == old(self).spec_waiters().skip(
                    if consumed > 0 && old(self).spec_waiters().len() > 0 {
                        1int
                    } else {
                        0int
                    },
                ),
                arrival <= deadline,
                old(self).wf(),
            decreases consumed - taken,
        {
            let value = values.pop().unwrap();
            self.items.push_back(Metadata { value, arrival, deadline });
            taken = taken + 1;
            proof {
                let kept = offered_seq.len() - taken;
                assert(values@ == offered_seq.take(kept + 1).take(kept));
                assert(offered_seq.take(kept + 1).take(kept) == offered_seq.take(kept));
                assert(offered_seq.skip(kept) == seq![offered_seq[kept]] + offered_seq.skip(
                    kept + 1,
                ));
                assert(stamped(offered_seq.skip(kept), arrival, deadline) =~= stamped(
                    offered_seq.skip(kept + 1),
                    arrival,
                    deadline,
                ).push(Metadata { value: offered_seq[kept], arrival, deadline }));
            }
        }
        (consumed, woken)
    }

    /// The non-suspending step of a dequeue: when an item is resident, the
    /// head (oldest) item is returned at once, no wake is registered and the
    /// passed handle is dropped; otherwise the handle joins the back of the
    /// waiter line.
    pub fn poll_dequeue(&mut self, waker: W) -> (r: Option<Metadata<T>>)
        requires
            old(self).wf(),
        ensures
            old(self).spec_items().len() > 0 ==> {
                &&& r == Some(old(self).spec_items()[0])
                &&& final(self).spec_items() == old(self).spec_items().skip(1)
                &&& final(self).spec_waiters() == old(self).spec_waiters()
            },
            old(self).spec_items().len() == 0 ==> {
                &&& r is None
                &&& final(self).spec_items() == old(self).spec_items()
                &&& final(self).spec_waiters() == old(self).spec_waiters().push(waker)
            },
            final(self).spec_capacity() == old(self).spec_capacity(),
            r is Some ==> r->Some_0.wf(),
            final(self).wf(),
    {
        match self.items.pop_front() {
            Some(meta) => Some(meta),
            None => {
                self.waiters.push_back(waker);
                None
            },
        }
    }

    /// Inserts at the head, bypassing capacity: used to retry an item ahead of
    /// newer work. Hands back the oldest wake handle, if a consumer is
    /// suspended, since an item has become available.
    pub fn push_front(&mut self, value: Metadata<T>) -> (r: Option<W>)
        requires
            old(self).wf(),
            value.wf(),
        ensures
            final(self).spec_items() == seq![value] + old(self).spec_items(),
            final(self).spec_capacity() == old(self).spec_capacity(),
            if old(self).spec_waiters().len() > 0 {
                r == Some(old(self).spec_waiters()[0])
                    && final(self).spec_waiters() == old(self).spec_waiters().skip(1)
            } else {
                r is None && final(self).spec_waiters() == old(self).spec_waiters()
            },
            final(self).wf(),
    {
        self.items.push_front(value);
        self.waiters.pop_front()
    }

    /// Replaces the admission ceiling. Resident items are never evicted, even
    /// when the queue is now over capacity: the next admission simply sees no
    /// free space until the excess drains. Nobody is woken: a smaller or
    /// larger ceiling makes no item available.
    pub fn set_capacity(&mut self, capacity: usize)
        requires
            old(self).wf(),
        ensures
            final(self).spec_capacity() == capacity,
            final(self).spec_items() == old(self).spec_items(),
            final(self).spec_waiters() == old(self).spec_waiters(),
            final(self).spec_free_space() == if old(self).spec_items().len() <= capacity {
                capacity - old(self).spec_items().len()
            } else {
                0int
            },
            final(self).wf(),
    {
        self.capacity = capacity;
    }
}

/// Law: admission never pushes the queue over its capacity. A queue within
/// capacity that admits `min(free_space, offered)` items — the accept count of
/// every `enqueue_many` call — is still within capacity, whatever was offered;
/// and since a new queue starts empty, every sequence of `enqueue_many` calls
/// keeps `length <= capacity`. While the queue is within capacity, free space
/// is exactly `capacity - length`.
pub proof fn lemma_admission_within_capacity<T, W>(q: Queue<T, W>, offered: int)
    requires
        q.spec_items().len() <= q.spec_capacity(),
        offered >= 0,
    ensures
        q.spec_items().len() + vstd::math::min(q.spec_free_space(), offered)
            <= q.spec_capacity(),
        q.spec_free_space() == q.spec_capacity() - q.spec_items().len(),
{
}

/// Law: items leave in arrival order — a dequeue takes the head — and an item
/// inserted by `push_front` (whose effect on the items is the `requires`
/// below) is returned before every item that was resident when it was
/// inserted: the next dequeue yields exactly the inserted item and leaves the
/// prior residents untouched, in order.
pub proof fn lemma_front_insertion_served_first<T, W>(
    before: Queue<T, W>,
    after: Queue<T, W>,
    v: Metadata<T>,
)
    requires
        after.spec_items() == seq![v] + before.spec_items(),
    ensures
        after.spec_items().len() > 0,
        after.spec_items()[0] == v,
        after.spec_items().skip(1) == before.spec_items(),
{
    assert(after.spec_items().skip(1) =~= before.spec_items());
}

/// The lock invariant of a shared queue: whatever is stored is well formed.
pub struct QueuePred;

impl<T, W> RwLockPredicate<Queue<T, W>> for QueuePred {
    open spec fn inv(self, q: Queue<T, W>) -> bool {
        q.wf()
    }
}

/// The producing half of a shared queue.
pub struct Sender<T, W> {
    shared: Arc<RwLock<Queue<T, W>, QueuePred>>,
}

/// The consuming half of a shared queue: dequeueing, requeueing ahead of
/// newer work, capacity control and gauge readouts.
pub struct Receiver<T, W> {
    shared: Arc<RwLock<Queue<T, W>, QueuePred>>,
}

/// One pending dequeue: each poll either takes the head item or leaves a wake
/// handle registered. The caller wakes the handles these operations hand back.
pub struct QueueFuture<T, W> {
    shared: Arc<RwLock<Queue<T, W>, QueuePred>>,
}

/// What one `send_many` call observed and did, all read in a single
/// mutual-exclusion region: the admission snapshot and the accept count
/// belong to the same instant.
pub struct SendOutcome<W> {
    /// How many of the offered values were admitted.
    pub consumed: usize,
    /// The capacity at admission time.
    pub capacity: usize,
    /// The free space just before admission.
    pub free_space: usize,
    /// The wake handle of the oldest suspended consumer, when at least one
    /// value was admitted while a consumer was registered. The caller must
    /// wake it.
    pub wake: Option<W>,
}

impl<W> SendOutcome<W> {
    /// The free space left once the admitted values are counted.
    pub open spec fn spec_free_after(&self) -> int {
        self.free_space - self.consumed
    }

    /// The backpressure record for the values this call did not admit: the
    /// capacity and the free space left after admission, each saturated into
    /// its field's range.
    pub fn backpressure(&self) -> (r: crate::api::Backpressure)
        requires
            self.consumed <= self.free_space,
        ensures
            r.queue_capacity == vstd::math::min(self.capacity as int, u32::MAX as int),
            r.queue_free_space == vstd::math::min(self.spec_free_after(), u32::MAX as int),
    {
        let free_after = self.free_space - self.consumed;
        crate::api::Backpressure {
            queue_capacity: if self.capacity > u32::MAX as usize {
                u32::MAX
            } else {
                self.capacity as u32
            },
            queue_free_space: if free_after > u32::MAX as usize {
                u32::MAX
            } else {
                free_after as u32
            },
        }
    }
}

/// Gauge readouts for metrics: one consistent snapshot of the queue.
pub struct QueueStats {
    pub len: usize,
    pub capacity: usize,
    pub free_space: usize,
}

/// A new shared queue with the given capacity: a connected producing and
/// consuming pair around one mutual-exclusion region.
pub fn queue<T, W>(capacity: usize) -> (r: (Sender<T, W>, Receiver<T, W>))
    ensures
        r.0.wf(),
        r.1.wf(),
        r.0.connected_to(r.1),
{
    let q = Queue::new(capacity);
    let lock = RwLock::new(q, Ghost(QueuePred));
    let shared = Arc::new(lock);
    let also_shared = shared.clone();
    (Sender { shared: also_shared }, Receiver { shared })
}

impl<T, W> Sender<T, W> {
    /// The shared lock admits exactly the well-formed queues.
    pub closed spec fn wf(self) -> bool {
        self.shared.pred() == QueuePred
    }

    /// Both halves address one and the same queue.
    pub closed spec fn connected_to(self, rx: Receiver<T, W>) -> bool {
        self.shared == rx.shared
    }

    /// Admits up to the observed free space from the back of `values`,
    /// stamping each accepted value with `arrival` and `deadline = arrival +
    /// ttl`; the unaccepted rest stays in `values`. The outcome carries the
    /// accept count, the capacity and free-space snapshot it was computed
    /// from, and the wake handle of the oldest suspended consumer when the
    /// call accepted anything; the caller wakes that handle and reports a
    /// backpressure record for the rest.
    pub fn send_many(&self, arrival: u64, ttl: u64, values: &mut Vec<T>) -> (r: SendOutcome<W>)
        requires
            self.wf(),
            arrival + ttl <= u64::MAX,
        ensures
            r.consumed == vstd::math::min(r.free_space as int, old(values)@.len() as int),
            final(values)@ == old(values)@.take(old(values)@.len() - r.consumed),
            r.free_space <= r.capacity,
            r.consumed == 0 ==> r.wake is None,
    {
        let (mut q, handle) = self.shared.acquire_write();
        let capacity = q.capacity();
        let free_space = q.free_space();
        let (consumed, wake) = q.enqueue_many(arrival, ttl, values);
        handle.release_write(q);
        SendOutcome { consumed, capacity, free_space, wake }
    }
}

impl<T, W> Receiver<T, W> {
    /// The shared lock admits exactly the well-formed queues.
    pub closed spec fn wf(self) -> bool {
        self.shared.pred() == QueuePred
    }

    /// The future addresses this receiver's own shared queue, no other.
    pub closed spec fn feeds(self, f: QueueFuture<T, W>) -> bool {
        self.shared == f.shared
    }

    /// A pending dequeue on this very queue: the future addresses the
    /// receiver's own shared queue. Nothing is taken or registered until the
    /// future is polled.
    pub fn recv(&self) -> (r: QueueFuture<T, W>)
        requires
            self.wf(),
        ensures
            r.wf(),
            self.feeds(r),
    {
        QueueFuture { shared: self.shared.clone() }
    }

    /// Replaces the capacity. Takes effect for the next admission; resident
    /// items are never evicted.
    pub fn set_capacity(&self, capacity: usize)
        requires
            self.wf(),
    {
        let (mut q, handle) = self.shared.acquire_write();
        q.set_capacity(capacity);
        handle.release_write(q);
    }

    /// Inserts an item at the head, bypassing capacity, for a retry ahead of
    /// newer work. Returns the wake handle of the oldest suspended consumer,
    /// if one is registered; the caller must wake it.
    pub fn push_front(&self, value: Metadata<T>) -> (r: Option<W>)
        requires
            self.wf(),
            value.wf(),
    {
        let (mut q, handle) = self.shared.acquire_write();
        let woken = q.push_front(value);
        handle.release_write(q);
        woken
    }

    /// One consistent snapshot of length, capacity and free space, for
    /// metrics gauges and admission decisions.
    pub fn stats(&self) -> (r: QueueStats)
        requires
            self.wf(),
        ensures
            r.free_space == if r.len <= r.capacity {
                r.capacity - r.len
            } else {
                0int
            },
    {
        let read_handle = self.shared.acquire_read();
        let q = read_handle.borrow();
        let r = QueueStats { len: q.len(), capacity: q.capacity(), free_space: q.free_space() };
        read_handle.release_read();
        r
    }
}

impl<T, W> QueueFuture<T, W> {
    /// The shared lock admits exactly the well-formed queues.
    pub closed spec fn wf(self) -> bool {
        self.shared.pred() == QueuePred
    }

    /// One poll: when an item is resident, the head item is returned at once
    /// and no wake is registered; otherwise `waker` joins the back of the
    /// waiter line and the poll comes back empty. A returned item is well
    /// formed: its deadline does not precede its arrival.
    pub fn poll_once(&self, waker: W) -> (r: Option<Metadata<T>>)
        requires
            self.wf(),
        ensures
            r is Some ==> r->Some_0.wf(),
    {
        let (mut q, handle) = self.shared.acquire_write();
        let taken = q.poll_dequeue(waker);
        handle.release_write(q);
        taken
    }
}

} // verus!
