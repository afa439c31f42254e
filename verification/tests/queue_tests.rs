//! Tests for the bounded notification queue: FIFO order and the
//! backpressure boundary at exactly the capacity.

use odilia_input::keys::KeyCode;
use odilia_input::queue::{BoundedQueue, MAX_EVENTS};
use odilia_input::tracker::{RawKeyEvent, RawKeyEventKind};

#[test]
fn backpressure_exactly_at_capacity() {
    let mut queue: BoundedQueue<u32> = BoundedQueue::new(3);
    assert!(queue.try_enqueue(1));
    assert!(queue.try_enqueue(2));
    assert!(queue.try_enqueue(3));
    // the queue is full at its capacity: one more is refused
    assert!(queue.is_full());
    assert!(!queue.try_enqueue(4));
    assert_eq!(queue.len(), 3);

    // draining a single slot lets the very next enqueue through
    assert_eq!(queue.dequeue(), Some(1));
    assert!(queue.try_enqueue(4));
    assert!(!queue.try_enqueue(5));
    assert_eq!(queue.len(), 3);
}

#[test]
fn fifo_order_is_kept() {
    let mut queue: BoundedQueue<u32> = BoundedQueue::new(8);
    for n in [10, 20, 30] {
        assert!(queue.try_enqueue(n));
    }
    assert_eq!(queue.dequeue(), Some(10));
    assert_eq!(queue.dequeue(), Some(20));
    assert_eq!(queue.dequeue(), Some(30));
    assert_eq!(queue.dequeue(), None);
}

#[test]
fn dequeue_on_empty_returns_nothing() {
    let mut queue: BoundedQueue<u32> = BoundedQueue::new(2);
    assert_eq!(queue.dequeue(), None);
    assert!(queue.try_enqueue(1));
    assert_eq!(queue.dequeue(), Some(1));
    assert_eq!(queue.dequeue(), None);
}

#[test]
fn event_queue_with_default_capacity() {
    let mut queue: BoundedQueue<RawKeyEvent> = BoundedQueue::new(MAX_EVENTS);
    assert_eq!(queue.capacity(), 256);
    let ev = RawKeyEvent { kind: RawKeyEventKind::Press, code: KeyCode::KeyA };
    for _ in 0..MAX_EVENTS {
        assert!(queue.try_enqueue(ev));
    }
    assert!(!queue.try_enqueue(ev));
    assert_eq!(queue.dequeue(), Some(ev));
    assert!(queue.try_enqueue(ev));
    assert!(!queue.try_enqueue(ev));
}
