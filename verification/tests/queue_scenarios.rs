use batch_proxy::queue::queue;
use batch_proxy::queue::Metadata;
use batch_proxy::queue::Queue;

#[test]
fn new_queue_is_empty_with_given_capacity() {
    let q: Queue<u64, u32> = Queue::new(4);
    assert_eq!(q.len(), 0);
    assert_eq!(q.capacity(), 4);
    assert_eq!(q.free_space(), 4);
}

#[test]
fn free_space_is_capacity_minus_length() {
    let mut q: Queue<u64, u32> = Queue::new(3);
    let mut values = vec![10u64, 20];
    let (consumed, _) = q.enqueue_many(0, 1000, &mut values);
    assert_eq!(consumed, 2);
    assert_eq!(q.len(), 2);
    assert_eq!(q.free_space(), q.capacity() - q.len());
    assert_eq!(q.free_space(), 1);
}

#[test]
fn capacity_two_enqueue_three_accepts_two_and_reports_backpressure() {
    // Scenario: capacity 2, three items offered with a 5 s ttl.
    let (tx, _rx) = queue::<u64, u32>(2);
    let mut values = vec![10u64, 20, 30];
    let outcome = tx.send_many(0, 5000, &mut values);
    assert_eq!(outcome.consumed, 2);
    assert_eq!(values, vec![10u64]);
    let record = outcome.backpressure();
    assert_eq!(record.queue_capacity, 2);
    assert_eq!(record.queue_free_space, 0);
}

#[test]
fn enqueue_within_free_space_accepts_everything() {
    let (tx, _rx) = queue::<u64, u32>(5);
    let mut values = vec![1u64, 2, 3];
    let outcome = tx.send_many(0, 1000, &mut values);
    assert_eq!(outcome.consumed, 3);
    assert!(values.is_empty());
    assert_eq!(outcome.free_space, 5);
    assert_eq!(outcome.capacity, 5);
}

#[test]
fn enqueue_beyond_free_space_leaves_the_rest_with_the_caller() {
    let (tx, _rx) = queue::<u64, u32>(5);
    let mut first = vec![1u64, 2, 3];
    tx.send_many(0, 1000, &mut first);
    let mut second = vec![4u64, 5, 6, 7];
    let outcome = tx.send_many(1, 1000, &mut second);
    assert_eq!(outcome.free_space, 2);
    assert_eq!(outcome.consumed, 2);
    assert_eq!(second, vec![4u64, 5]);
}

#[test]
fn dequeue_from_nonempty_queue_returns_immediately_in_fifo_order() {
    let (tx, rx) = queue::<u64, u32>(10);
    let mut a = vec![1u64];
    tx.send_many(0, 1000, &mut a);
    let mut b = vec![2u64];
    tx.send_many(1, 1000, &mut b);
    let first = rx.recv().poll_once(91).expect("an item is resident");
    let second = rx.recv().poll_once(92).expect("an item is resident");
    assert_eq!(first.value, 1);
    assert_eq!(first.arrival, 0);
    assert_eq!(first.deadline, 1000);
    assert_eq!(second.value, 2);
}

#[test]
fn push_front_item_is_served_before_resident_items() {
    let (tx, rx) = queue::<u64, u32>(10);
    let mut values = vec![1u64];
    tx.send_many(0, 1000, &mut values);
    let woken = rx.push_front(Metadata { value: 99, arrival: 5, deadline: 50 });
    assert!(woken.is_none());
    let head = rx.recv().poll_once(90).expect("an item is resident");
    assert_eq!(head.value, 99);
    let next = rx.recv().poll_once(90).expect("an item is resident");
    assert_eq!(next.value, 1);
}

#[test]
fn second_dequeue_suspends_and_an_accepting_enqueue_wakes_exactly_it() {
    // Scenario: capacity 1, one item in, first dequeue immediate, second
    // dequeue suspends, the next accepting enqueue hands back its wake handle.
    let (tx, rx) = queue::<u64, u32>(1);
    let mut values = vec![1u64];
    let outcome = tx.send_many(0, 1000, &mut values);
    assert_eq!(outcome.consumed, 1);
    assert!(outcome.wake.is_none());

    let first = rx.recv().poll_once(11);
    assert_eq!(first.expect("an item is resident").value, 1);

    let pending = rx.recv();
    assert!(pending.poll_once(22).is_none());

    let mut more = vec![2u64];
    let outcome = tx.send_many(5, 1000, &mut more);
    assert_eq!(outcome.consumed, 1);
    assert_eq!(outcome.wake, Some(22));

    let woken = pending.poll_once(23).expect("the enqueued item is resident");
    assert_eq!(woken.value, 2);
}

#[test]
fn push_front_wakes_a_suspended_consumer() {
    let (_tx, rx) = queue::<u64, u32>(1);
    let pending = rx.recv();
    assert!(pending.poll_once(7).is_none());
    let woken = rx.push_front(Metadata { value: 3, arrival: 0, deadline: 9 });
    assert_eq!(woken, Some(7));
    assert_eq!(pending.poll_once(8).expect("the item is resident").value, 3);
}

#[test]
fn rejecting_enqueue_wakes_nobody() {
    let (tx, rx) = queue::<u64, u32>(1);
    let mut values = vec![1u64];
    tx.send_many(0, 1000, &mut values);
    let pending = rx.recv();
    // The queue is non-empty, so this consumer is not suspended; drain first.
    assert!(pending.poll_once(41).is_some());
    assert!(pending.poll_once(42).is_none());
    let mut refused = vec![2u64, 3];
    let outcome = tx.send_many(5, 1000, &mut refused);
    assert_eq!(outcome.consumed, 1);
    // One waiter, one accepting call: exactly one wake.
    assert_eq!(outcome.wake, Some(42));
    let mut full = vec![9u64];
    let outcome = tx.send_many(6, 1000, &mut full);
    assert_eq!(outcome.consumed, 0);
    assert!(outcome.wake.is_none());
}

#[test]
fn set_capacity_never_evicts_and_takes_effect_for_the_next_enqueue() {
    let (tx, rx) = queue::<u64, u32>(2);
    let mut values = vec![1u64, 2];
    tx.send_many(0, 1000, &mut values);

    rx.set_capacity(1);
    let stats = rx.stats();
    assert_eq!(stats.len, 2);
    assert_eq!(stats.capacity, 1);
    assert_eq!(stats.free_space, 0);

    let mut refused = vec![3u64];
    let outcome = tx.send_many(1, 1000, &mut refused);
    assert_eq!(outcome.consumed, 0);
    assert_eq!(refused, vec![3u64]);

    rx.set_capacity(5);
    let mut accepted = vec![3u64];
    let outcome = tx.send_many(2, 1000, &mut accepted);
    assert_eq!(outcome.consumed, 1);
    assert_eq!(rx.stats().free_space, 2);
}

#[test]
fn push_front_may_exceed_capacity_and_free_space_saturates() {
    let (tx, rx) = queue::<u64, u32>(1);
    let mut values = vec![1u64];
    tx.send_many(0, 1000, &mut values);
    rx.push_front(Metadata { value: 2, arrival: 1, deadline: 100 });
    let stats = rx.stats();
    assert_eq!(stats.len, 2);
    assert_eq!(stats.capacity, 1);
    assert_eq!(stats.free_space, 0);
    // The excess drains naturally; admission sees room again afterwards.
    assert_eq!(rx.recv().poll_once(1).expect("resident").value, 2);
    assert_eq!(rx.recv().poll_once(2).expect("resident").value, 1);
    assert_eq!(rx.stats().free_space, 1);
}

#[test]
fn items_of_one_call_are_taken_from_the_back_of_the_offer() {
    // send_many consumes from the back of the caller's vector, so the last
    // offered value is enqueued first within one call.
    let mut q: Queue<u64, u32> = Queue::new(2);
    let mut values = vec![10u64, 20, 30];
    let (consumed, _) = q.enqueue_many(0, 100, &mut values);
    assert_eq!(consumed, 2);
    assert_eq!(values, vec![10u64]);
    assert_eq!(q.poll_dequeue(0).expect("resident").value, 30);
    assert_eq!(q.poll_dequeue(0).expect("resident").value, 20);
}
