use batch_proxy::api::Backpressure;
use batch_proxy::batch::finish_batch;
use batch_proxy::batch::offer_batch;
use batch_proxy::batch::rejection_reports;
use batch_proxy::batch::triage;
use batch_proxy::batch::ItemOutcome;
use batch_proxy::batch::ItemReport;
use batch_proxy::batch::Work;
use batch_proxy::queue::queue;
use batch_proxy::queue::Metadata;

#[test]
fn offered_batch_splits_into_accepted_and_rejected_with_one_snapshot() {
    // Scenario: capacity 2, a batch of three; two enter the queue and the
    // third reports the post-admission snapshot.
    let (tx, _rx) = queue::<u64, u32>(2);
    let admission = offer_batch(&tx, 0, 5000, vec![10u64, 20, 30]);
    assert_eq!(admission.outcome.consumed, 2);
    assert_eq!(admission.rejected, vec![10u64]);
    assert_eq!(
        admission.backpressure,
        Backpressure { queue_capacity: 2, queue_free_space: 0 }
    );
}

#[test]
fn batch_within_capacity_is_admitted_whole() {
    let (tx, rx) = queue::<u64, u32>(4);
    let admission = offer_batch(&tx, 0, 5000, vec![1u64, 2, 3]);
    assert_eq!(admission.outcome.consumed, 3);
    assert!(admission.rejected.is_empty());
    assert_eq!(rx.stats().len, 3);
}

#[test]
fn worker_dispatches_an_item_whose_deadline_has_not_passed() {
    let item = Metadata { value: 5u64, arrival: 0, deadline: 100 };
    match triage(item, 100) {
        Work::Dispatch(value) => assert_eq!(value, 5),
        Work::Expired => panic!("the deadline has not passed"),
    }
}

#[test]
fn worker_drops_an_item_whose_deadline_has_passed() {
    // Scenario: a tiny batch timeout and a slow downstream; the worker
    // observes the passed deadline and reports a timeout without dispatching.
    let item = Metadata { value: 5u64, arrival: 0, deadline: 10 };
    assert!(matches!(triage(item, 1000), Work::Expired));
}

#[test]
fn rejected_items_report_the_admission_snapshot() {
    let snapshot = Backpressure { queue_capacity: 2, queue_free_space: 0 };
    let reports = rejection_reports(vec![String::from("a"), String::from("b")], snapshot);
    assert_eq!(reports.len(), 2);
    assert_eq!(reports[0].id, "a");
    assert!(matches!(reports[0].outcome, ItemOutcome::Rejected(r) if r == snapshot));
    assert_eq!(reports[1].id, "b");
    assert!(matches!(reports[1].outcome, ItemOutcome::Rejected(r) if r == snapshot));
}

#[test]
fn pending_items_become_timeouts_and_the_batch_still_answers() {
    // A mixed batch: one completed item, one whose worker never answered
    // before the batch deadline. Both slots appear in the one batch answer.
    let done = ItemReport {
        id: String::from("fast"),
        outcome: ItemOutcome::Completed { status_code: 200, body: vec![1, 2] },
    };
    let reports = finish_batch(vec![done], vec![String::from("slow")]);
    assert_eq!(reports.len(), 2);
    assert_eq!(reports[0].id, "fast");
    assert!(matches!(
        reports[0].outcome,
        ItemOutcome::Completed { status_code: 200, ref body } if body == &vec![1u8, 2]
    ));
    assert_eq!(reports[1].id, "slow");
    assert!(matches!(reports[1].outcome, ItemOutcome::TimedOut));
}

#[test]
fn finish_batch_with_nothing_pending_keeps_the_reports() {
    let done = ItemReport { id: String::from("only"), outcome: ItemOutcome::Failed };
    let reports = finish_batch(vec![done], vec![]);
    assert_eq!(reports.len(), 1);
    assert_eq!(reports[0].id, "only");
    assert!(matches!(reports[0].outcome, ItemOutcome::Failed));
}
