//! A capacity-bounded cache of reusable downstream-connection handles.
//! Handles are created lazily by the caller when the pool says so, checked
//! out, and returned after use or discarded on failure. Capacity is
//! adjustable at runtime in lockstep with the work queue's capacity, so both
//! can be tuned together by an external control loop.
//!
//! Creation itself may suspend (a network handshake), so the pool never runs
//! a factory: [`Pool::acquire`] decides between handing out an idle handle,
//! telling the caller to create one, and suspending the caller, and the
//! caller carries the decision out. Suspended acquirers are served oldest
//! first.

use vstd::prelude::*;

verus! {

/// What an `acquire` decided, under the pool's own exclusion.
pub enum Acquired<T> {
    /// An idle handle, checked out and handed to the caller.
    Ready(T),
    /// No idle handle, but the resident count allows one more: it was counted
    /// to the caller, who must now create the handle (or call
    /// [`Pool::abandon_create`] if creation fails).
    Create,
    /// The pool is at capacity with nothing idle: the wake handle was
    /// registered and the caller suspends until a handle is handed to it.
    Wait,
}

/// Where a returned handle went: back to the idle set, or straight to the
/// oldest suspended acquirer, never re-idled in between (so a waiter cannot
/// have its handle stolen by a fresh caller).
pub enum Released<T, W> {
    Idled,
    HandedOff(W, T),
}

/// The reusable-handle pool: idle handles (most recently returned first), the
/// ceiling on live handles, how many handles are live (idle or checked out),
/// and the wake handles of suspended acquirers, oldest first.
pub struct Pool<T, W> {
    idle: Vec<T>,
    capacity: usize,
    resident: usize,
    waiters: Vec<W>,
}

impl<T, W> Pool<T, W> {
    /// The idle handles, most recently returned last.
    pub closed spec fn spec_idle(&self) -> Seq<T> {
        self.idle@
    }

    /// The ceiling on live handles.
    pub closed spec fn spec_capacity(&self) -> int {
        self.capacity as int
    }

    /// How many handles are live: idle here plus checked out by callers.
    pub closed spec fn spec_resident(&self) -> int {
        self.resident as int
    }

    /// Suspended acquirers, oldest first.
    pub closed spec fn spec_waiters(&self) -> Seq<W> {
        self.waiters@
    }

    /// Live handles include the idle ones.
    pub open spec fn wf(&self) -> bool {
        self.spec_idle().len() <= self.spec_resident()
    }

    /// An empty pool with the given ceiling: no handle exists yet, none is
    /// idle, nobody waits.
    pub fn new(capacity: usize) -> (p: Self)
        ensures
            p.spec_idle() == Seq::<T>::empty(),
            p.spec_capacity() == capacity,
            p.spec_resident() == 0,
            p.spec_waiters() == Seq::<W>::empty(),
            p.wf(),
    {
        Pool { idle: Vec::new(), capacity, resident: 0, waiters: Vec::new() }
    }

    /// The ceiling on live handles.
    pub fn capacity(&self) -> (c: usize)
        ensures
            c == self.spec_capacity(),
    {
        self.capacity
    }

    /// How many handles are live.
    pub fn resident(&self) -> (n: usize)
        ensures
            n == self.spec_resident(),
    {
        self.resident
    }

    /// How many handles sit idle in the pool.
    pub fn idle_len(&self) -> (n: usize)
        ensures
            n == self.spec_idle().len(),
    {
        self.idle.len()
    }

    /// Checks out a handle: the most recently returned idle one when there is
    /// one; otherwise, when the resident count is below capacity, the count
    /// is taken and the caller creates the handle; otherwise the caller's
    /// wake handle is registered behind the older ones and the caller
    /// suspends. A handle is never created while one sits idle, and never
    /// while the pool is at or over capacity, so live handles never climb
    /// past the ceiling.
    pub fn acquire(&mut self, waker: W) -> (r: Acquired<T>)
        requires
            old(self).wf(),
        ensures
            final(self).spec_capacity() == old(self).spec_capacity(),
            old(self).spec_resident() <= old(self).spec_capacity()
                ==> final(self).spec_resident() <= final(self).spec_capacity(),
            old(self).spec_idle().len() > 0 ==> {
                &&& r == Acquired::<T>::Ready(old(self).spec_idle().last())
                &&& final(self).spec_idle() == old(self).spec_idle().drop_last()
                &&& final(self).spec_resident() == old(self).spec_resident()
                &&& final(self).spec_waiters() == old(self).spec_waiters()
            },
            old(self).spec_idle().len() == 0 && old(self).spec_resident() < old(self).spec_capacity() ==> {
                &&& r == Acquired::<T>::Create
                &&& final(self).spec_idle() == old(self).spec_idle()
                &&& final(self).spec_resident() == old(self).spec_resident() + 1
                &&& final(self).spec_resident() <= final(self).spec_capacity()
                &&& final(self).spec_waiters() == old(self).spec_waiters()
            },
            old(self).spec_idle().len() == 0 && old(self).spec_resident() >= old(self).spec_capacity() ==> {
                &&& r == Acquired::<T>::Wait
                &&& final(self).spec_idle() == old(self).spec_idle()
                &&& final(self).spec_resident() == old(self).spec_resident()
                &&& final(self).spec_waiters() == old(self).spec_waiters().push(waker)
            },
            final(self).wf(),
    {
        match self.idle.pop() {
            Some(handle) => Acquired::Ready(handle),
            None => {
                if self.resident < self.capacity {
                    self.resident = self.resident + 1;
                    Acquired::Create
                } else {
                    self.waiters.push(waker);
                    Acquired::Wait
                }
            },
        }
    }

    /// Returns a checked-out handle. When an acquirer is suspended, the
    /// oldest one is woken and this very handle is handed to it directly,
    /// before any new handle could be created for it; otherwise the handle
    /// joins the idle set. The caller held a checked-out handle, so strictly
    /// fewer handles were idle than live.
    pub fn release(&mut self, handle: T) -> (r: Released<T, W>)
        requires
            old(self).wf(),
            old(self).spec_idle().len() < old(self).spec_resident(),
        ensures
            final(self).spec_capacity() == old(self).spec_capacity(),
            final(self).spec_resident() == old(self).spec_resident(),
            old(self).spec_waiters().len() > 0 ==> {
                &&& r == Released::<T, W>::HandedOff(old(self).spec_waiters()[0], handle)
                &&& final(self).spec_idle() == old(self).spec_idle()
                &&& final(self).spec_waiters() == old(self).spec_waiters().skip(1)
            },
            old(self).spec_waiters().len() == 0 ==> {
                &&& r == Released::<T, W>::Idled
                &&& final(self).spec_idle() == old(self).spec_idle().push(handle)
                &&& final(self).spec_waiters() == old(self).spec_waiters()
            },
            final(self).wf(),
    {
        if self.waiters.len() > 0 {
            let waiter = self.waiters.remove(0);
            Released::HandedOff(waiter, handle)
        } else {
            self.idle.push(handle);
            Released::Idled
        }
    }

    /// Drops a handle that proved unusable, without re-idling it, and frees
    /// its slot in the resident count so a future `acquire` may create a
    /// fresh one. The caller held a checked-out handle, so strictly fewer
    /// handles were idle than live.
    pub fn discard(&mut self, handle: T) -> (r: Option<W>)
        requires
            old(self).wf(),
            old(self).spec_idle().len() < old(self).spec_resident(),
        ensures
            final(self).spec_capacity() == old(self).spec_capacity(),
            final(self).spec_resident() == old(self).spec_resident() - 1,
            final(self).spec_idle() == old(self).spec_idle(),
            if old(self).spec_waiters().len() > 0 && old(self).spec_resident() - 1 < old(self).spec_capacity() {
                r == Some(old(self).spec_waiters()[0])
                    && final(self).spec_waiters() == old(self).spec_waiters().skip(1)
            } else {
                r is None && final(self).spec_waiters() == old(self).spec_waiters()
            },
            final(self).wf(),
    {
        let _ = handle;
        self.abandon_create()
    }

    /// Gives back a creation slot taken by an `acquire` that answered
    /// `Create`, when creating the handle failed: the resident count drops
    /// and, when the freed slot leaves room under the ceiling, the oldest
    /// waiter is woken so its next `acquire` can create. The caller held a
    /// creation slot, so strictly fewer handles were idle than counted live.
    pub fn abandon_create(&mut self) -> (r: Option<W>)
        requires
            old(self).wf(),
            old(self).spec_idle().len() < old(self).spec_resident(),
        ensures
            final(self).spec_capacity() == old(self).spec_capacity(),
            final(self).spec_resident() == old(self).spec_resident() - 1,
            final(self).spec_idle() == old(self).spec_idle(),
            if old(self).spec_waiters().len() > 0 && old(self).spec_resident() - 1 < old(self).spec_capacity() {
                r == Some(old(self).spec_waiters()[0])
                    && final(self).spec_waiters() == old(self).spec_waiters().skip(1)
            } else {
                r is None && final(self).spec_waiters() == old(self).spec_waiters()
            },
            final(self).wf(),
    {
        self.resident = self.resident - 1;
        if self.waiters.len() > 0 && self.resident < self.capacity {
            Some(self.waiters.remove(0))
        } else {
            None
        }
    }

    /// Replaces the ceiling for future creation; handles above the new
    /// ceiling are never closed. When the new ceiling leaves room to create
    /// and someone is suspended, the oldest waiter is woken so its next
    /// `acquire` can create.
    pub fn set_capacity(&mut self, capacity: usize) -> (r: Option<W>)
        requires
            old(self).wf(),
        ensures
            final(self).spec_capacity() == capacity,
            final(self).spec_idle() == old(self).spec_idle(),
            final(self).spec_resident() == old(self).spec_resident(),
            if old(self).spec_waiters().len() > 0 && old(self).spec_resident() < capacity {
                r == Some(old(self).spec_waiters()[0])
                    && final(self).spec_waiters() == old(self).spec_waiters().skip(1)
            } else {
                r is None && final(self).spec_waiters() == old(self).spec_waiters()
            },
            final(self).wf(),
    {
        self.capacity = capacity;
        if self.waiters.len() > 0 && self.resident < self.capacity {
            Some(self.waiters.remove(0))
        } else {
            None
        }
    }
}

} // verus!
