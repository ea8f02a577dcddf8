use serviceless::queue::{PopResult, Queue};

#[test]
fn fifo_push_pop() {
    let mut q: Queue<u64> = Queue::new();
    q.push(1);
    q.push(2);
    q.push(3);
    assert!(matches!(q.pop(), PopResult::Data(1)));
    assert!(matches!(q.pop(), PopResult::Data(2)));
    assert!(matches!(q.pop(), PopResult::Data(3)));
    assert!(matches!(q.pop(), PopResult::Empty));
}

#[test]
fn pop_on_empty_queue_reports_empty() {
    let mut q: Queue<u8> = Queue::new();
    assert!(matches!(q.pop(), PopResult::Empty));
    assert_eq!(q.len(), 0);
}

#[test]
fn unfinished_push_is_inconsistent_until_linked() {
    let mut q: Queue<u64> = Queue::new();
    q.begin_push(7);
    assert!(matches!(q.pop(), PopResult::Inconsistent));
    q.finish_push(0);
    assert!(matches!(q.pop(), PopResult::Data(7)));
    assert!(matches!(q.pop(), PopResult::Empty));
}

#[test]
fn preempted_producer_blocks_later_finished_push() {
    let mut q: Queue<u64> = Queue::new();
    // Producer A swaps the head first, then producer B swaps and publishes.
    q.begin_push(10);
    q.begin_push(20);
    q.finish_push(1);
    // B's value is in the queue but unreachable until A publishes its link.
    assert!(matches!(q.pop(), PopResult::Inconsistent));
    q.finish_push(0);
    assert!(matches!(q.pop(), PopResult::Data(10)));
    assert!(matches!(q.pop(), PopResult::Data(20)));
    assert!(matches!(q.pop(), PopResult::Empty));
}

#[test]
fn pop_spin_returns_values_then_none() {
    let mut q: Queue<u64> = Queue::new();
    q.push(5);
    q.push(6);
    assert_eq!(q.pop_spin(), Some(5));
    assert_eq!(q.pop_spin(), Some(6));
    assert_eq!(q.pop_spin(), None);
}

#[test]
fn drain_observes_every_push_exactly_once_in_order() {
    let mut q: Queue<u64> = Queue::new();
    // Eight producers, round-robin interleaved, 1250 pushes each.
    let producers: u64 = 8;
    let per_producer: u64 = 1250;
    for i in 0..per_producer {
        for p in 0..producers {
            q.push(p * 1_000_000 + i);
        }
    }
    let drained = q.drain();
    assert_eq!(drained.len(), 10_000);
    // Exactly once: all values distinct and accounted for.
    let mut seen = vec![false; 10_000];
    for v in &drained {
        let p = v / 1_000_000;
        let i = v % 1_000_000;
        let idx = (p * per_producer + i) as usize;
        assert!(!seen[idx]);
        seen[idx] = true;
    }
    assert!(seen.iter().all(|s| *s));
    // Per-producer order: each producer's values appear in its push order.
    let mut last: Vec<i64> = vec![-1; producers as usize];
    for v in &drained {
        let p = (v / 1_000_000) as usize;
        let i = (v % 1_000_000) as i64;
        assert!(i > last[p]);
        last[p] = i;
    }
    assert!(matches!(q.pop(), PopResult::Empty));
}

#[test]
fn drain_after_interleaved_two_phase_pushes() {
    let mut q: Queue<u64> = Queue::new();
    // Two producers race, each completing its own push out of swap order.
    q.begin_push(1);
    q.begin_push(2);
    q.finish_push(1);
    q.finish_push(0);
    q.push(3);
    let drained = q.drain();
    assert_eq!(drained, vec![1, 2, 3]);
}
