//! Per-batch orchestration decisions: admit the batch's items to the work
//! queue, turn the unadmitted rest into backpressure slots, let the worker
//! drop items whose deadline has passed, and assemble one report per item.
//! The surrounding I/O (decoding the batch, dispatching downstream, encoding
//! the answer) stays outside; every decision in between is made here.

use crate::api::Backpressure;
use crate::queue::Metadata;
use crate::queue::SendOutcome;
use crate::queue::Sender;
use vstd::prelude::*;

verus! {

/// What one batch item came to in the end.
pub enum ItemOutcome {
    /// The downstream call completed with this status and body.
    Completed { status_code: u16, body: Vec<u8> },
    /// Admission refused the item; the slot carries the queue snapshot.
    Rejected(Backpressure),
    /// The batch deadline elapsed before a result arrived, or the item's own
    /// deadline had passed when a worker picked it up.
    TimedOut,
    /// The downstream call failed (connection refused, malformed or oversized
    /// response). The batch as a whole still succeeds.
    Failed,
}

/// One slot of the batch answer, matched to its request by the
/// caller-supplied identifier, never by position.
pub struct ItemReport {
    pub id: String,
    pub outcome: ItemOutcome,
}

/// What admission did with one batch: how many items the queue accepted, the
/// items it did not, and the backpressure record their slots will carry, all
/// taken from the same admission instant.
pub struct Admission<T, W> {
    /// The accept count and queue snapshot, and the wake handle the caller
    /// must wake when one is carried.
    pub outcome: SendOutcome<W>,
    /// The items the queue did not accept, in their offered order.
    pub rejected: Vec<T>,
    /// The capacity and post-admission free space those items report back.
    pub backpressure: Backpressure,
}

/// Offers a batch's items to the queue with one shared deadline of `arrival +
/// ttl`, and splits the result: the queue keeps what fits, the rest comes
/// back with the backpressure record to report per rejected item.
pub fn offer_batch<T, W>(sender: &Sender<T, W>, arrival: u64, ttl: u64, items: Vec<T>) -> (r: Admission<
    T,
    W,
>)
    requires
        sender.wf(),
        arrival + ttl <= u64::MAX,
    ensures
        r.outcome.consumed == vstd::math::min(r.outcome.free_space as int, items@.len() as int),
        r.rejected@ == items@.take(items@.len() - r.outcome.consumed),
        r.backpressure.queue_capacity == vstd::math::min(
            r.outcome.capacity as int,
            u32::MAX as int,
        ),
        r.backpressure.queue_free_space == vstd::math::min(
            r.outcome.spec_free_after(),
            u32::MAX as int,
        ),
{
    let mut rejected = items;
    let outcome = sender.send_many(arrival, ttl, &mut rejected);
    let backpressure = outcome.backpressure();
    Admission { outcome, rejected, backpressure }
}

/// What a worker does with a dequeued item.
pub enum Work<T> {
    /// The deadline has not passed: perform the downstream call.
    Dispatch(T),
    /// The deadline has passed: drop the item and report a timeout, without
    /// touching the dispatcher.
    Expired,
}

/// The worker's deadline check, made after dequeueing and before dispatching:
/// an item whose deadline has passed is dropped and reported as timed out; no
/// stale request reaches the downstream connection.
pub fn triage<T>(item: Metadata<T>, now: u64) -> (r: Work<T>)
    ensures
        now > item.deadline ==> r == Work::<T>::Expired,
        now <= item.deadline ==> r == Work::<T>::Dispatch(item.value),
{
    if now > item.deadline {
        Work::Expired
    } else {
        Work::Dispatch(item.value)
    }
}

/// One report per item refused at admission: each carries the same snapshot
/// taken when the batch was offered.
pub fn rejection_reports(ids: Vec<String>, snapshot: Backpressure) -> (r: Vec<ItemReport>)
    ensures
        r@.len() == ids@.len(),
        forall|i: int|
            0 <= i < ids@.len() ==> (#[trigger] r@[i]) == (ItemReport {
                id: ids@[i],
                outcome: ItemOutcome::Rejected(snapshot),
            }),
{
    let mut reports: Vec<ItemReport> = Vec::new();
    let mut rest = ids;
    let ghost all = rest@;
    proof {
        assert(rest@ =~= all.skip(0));
    }
    while rest.len() > 0
        invariant
            reports@.len() + rest@.len() == all.len(),
            forall|i: int|
                0 <= i < reports@.len() ==> (#[trigger] reports@[i]) == (ItemReport {
                    id: all[i],
                    outcome: ItemOutcome::Rejected(snapshot),
                }),
            rest@ == all.skip(reports@.len() as int),
        decreases rest@.len(),
    {
        let ghost k: int = reports@.len() as int;
        let id = rest.remove(0);
        reports.push(ItemReport { id, outcome: ItemOutcome::Rejected(snapshot) });
        proof {
            assert(all.skip(k)[0] == all[k]);
            assert(rest@ =~= all.skip(k + 1));
        }
    }
    reports
}

/// Closes the books on a batch whose deadline has elapsed: the reports that
/// arrived stay as they are, and every still-pending item is reported as
/// timed out, whatever its worker is still doing with it.
pub fn finish_batch(collected: Vec<ItemReport>, pending: Vec<String>) -> (r: Vec<ItemReport>)
    ensures
        r@.len() == collected@.len() + pending@.len(),
        forall|i: int| 0 <= i < collected@.len() ==> r@[i] == collected@[i],
        forall|i: int|
            0 <= i < pending@.len() ==> r@[collected@.len() + i] == (ItemReport {
                id: pending@[i],
                outcome: ItemOutcome::TimedOut,
            }),
{
    let mut reports = collected;
    let mut rest = pending;
    let ghost done = reports@;
    let ghost late = rest@;
    proof {
        assert(rest@ =~= late.skip(0));
    }
    while rest.len() > 0
        invariant
            done.len() <= reports@.len(),
            rest@.len() <= late.len(),
            reports@.len() == done.len() + (late.len() - rest@.len()),
            forall|i: int| 0 <= i < done.len() ==> reports@[i] == done[i],
            forall|i: int|
                done.len() <= i < reports@.len() ==> reports@[i] == (ItemReport {
                    id: late[i - done.len()],
                    outcome: ItemOutcome::TimedOut,
                }),
            rest@ == late.skip(reports@.len() - done.len()),
        decreases rest@.len(),
    {
        let ghost k: int = reports@.len() - done.len();
        let id = rest.remove(0);
        reports.push(ItemReport { id, outcome: ItemOutcome::TimedOut });
        proof {
            assert(late.skip(k)[0] == late[k]);
            assert(rest@ =~= late.skip(k + 1));
        }
    }
    reports
}

} // verus!
