use serviceless::mpsc::{unbounded, NextMessage, TryRecvError, UnboundedChannel};
use serviceless::state::{decode_state, encode_state, State, INIT_STATE, MAX_CAPACITY, OPEN_MASK};

#[test]
fn state_word_round_trip() {
    let open_five = encode_state(&State { is_open: true, num_messages: 5 });
    let d = decode_state(open_five);
    assert!(d.is_open);
    assert_eq!(d.num_messages, 5);

    let closed_two = encode_state(&State { is_open: false, num_messages: 2 });
    let d = decode_state(closed_two);
    assert!(!d.is_open);
    assert_eq!(d.num_messages, 2);
}

#[test]
fn state_word_layout() {
    assert_eq!(decode_state(INIT_STATE).num_messages, 0);
    assert!(decode_state(INIT_STATE).is_open);
    assert!(!decode_state(0).is_open);
    assert_eq!(decode_state(0).num_messages, 0);
    assert_eq!(OPEN_MASK, MAX_CAPACITY + 1);
    assert_eq!(encode_state(&State { is_open: true, num_messages: 3 }), OPEN_MASK + 3);
}

#[test]
fn state_is_closed_needs_flag_clear_and_empty() {
    assert!(State { is_open: false, num_messages: 0 }.is_closed());
    assert!(!State { is_open: false, num_messages: 1 }.is_closed());
    assert!(!State { is_open: true, num_messages: 0 }.is_closed());
}

#[test]
fn state_size_hint_bounds() {
    assert_eq!(State { is_open: true, num_messages: 4 }.size_hint(), (4, None));
    assert_eq!(State { is_open: false, num_messages: 4 }.size_hint(), (4, Some(4)));
}

#[test]
fn send_then_receive_in_order() {
    let mut chan: UnboundedChannel<u64> = unbounded();
    assert!(chan.unbounded_send(1).is_ok());
    assert!(chan.unbounded_send(2).is_ok());
    assert_eq!(chan.len(), 2);
    assert!(!chan.is_empty());
    assert_eq!(chan.try_recv(), Ok(1));
    assert_eq!(chan.try_recv(), Ok(2));
    assert_eq!(chan.try_recv(), Err(TryRecvError::Empty));
}

#[test]
fn send_after_close_is_disconnected() {
    let mut chan: UnboundedChannel<u64> = unbounded();
    chan.close();
    assert!(chan.is_closed());
    let err = chan.unbounded_send(9).unwrap_err();
    assert!(err.is_disconnected());
    assert_eq!(err.clone().into_inner(), 9);
    assert!(err.into_send_error().is_disconnected());
    assert!(chan.poll_ready_nb().is_err());
    assert!(chan.start_send(9).is_err());
}

#[test]
fn try_recv_tells_empty_from_closed() {
    let mut chan: UnboundedChannel<u64> = unbounded();
    let empty = chan.try_recv().unwrap_err();
    assert!(empty.is_empty());
    assert!(!empty.is_closed());
    chan.close();
    let closed = chan.try_recv().unwrap_err();
    assert!(closed.is_closed());
    assert!(!closed.is_empty());
    assert!(chan.is_terminated());
}

#[test]
fn try_next_reports_end_of_stream_as_ok_none() {
    let mut chan: UnboundedChannel<u64> = unbounded();
    assert!(chan.unbounded_send(5).is_ok());
    assert_eq!(chan.try_next(), Ok(Some(5)));
    assert_eq!(chan.try_next(), Err(TryRecvError::Empty));
    chan.close();
    assert_eq!(chan.try_next(), Ok(None));
}

#[test]
fn channel_stays_open_until_sixth_sender_drops() {
    let mut chan: UnboundedChannel<u64> = unbounded();
    // One sender exists at creation; five more handles are cloned off it.
    for _ in 0..5 {
        chan.clone_sender();
    }
    for _ in 0..5 {
        chan.drop_sender();
        assert!(!chan.is_closed());
    }
    chan.drop_sender();
    assert!(chan.is_closed());
}

#[test]
fn receiver_waits_out_a_send_granted_before_closure() {
    let mut chan: UnboundedChannel<u64> = unbounded();
    // A sender increments the count, is preempted before pushing...
    assert_eq!(chan.inc_num_messages(), Some(1));
    // ...and the channel closes in between.
    chan.close();
    // The receiver must keep waiting: the flag is clear but a message is owed.
    assert!(matches!(chan.next_message(), NextMessage::Pending));
    chan.queue_push_and_signal(42);
    assert!(matches!(chan.next_message(), NextMessage::Ready(Some(42))));
    assert!(matches!(chan.next_message(), NextMessage::Ready(None)));
    assert!(chan.is_terminated());
}

#[test]
fn inc_num_messages_refused_when_closed() {
    let mut chan: UnboundedChannel<u64> = unbounded();
    chan.close();
    assert_eq!(chan.inc_num_messages(), None);
}

#[test]
fn end_of_stream_only_after_every_accepted_message() {
    let mut chan: UnboundedChannel<u64> = unbounded();
    for v in 0..100 {
        assert!(chan.unbounded_send(v).is_ok());
    }
    chan.close();
    assert!(chan.unbounded_send(100).is_err());
    let values = chan.recv_all();
    assert_eq!(values, (0..100).collect::<Vec<u64>>());
    assert!(chan.is_terminated());
    assert_eq!(chan.try_recv(), Err(TryRecvError::Closed));
}

#[test]
fn last_sender_drop_closes_and_drains_cleanly() {
    let mut chan: UnboundedChannel<u64> = unbounded();
    assert!(chan.unbounded_send(7).is_ok());
    chan.drop_sender();
    assert!(chan.is_closed());
    let values = chan.recv_all();
    assert_eq!(values, vec![7]);
}

#[test]
fn poll_next_parks_when_nothing_is_deliverable() {
    let mut chan: UnboundedChannel<u64> = unbounded();
    assert!(matches!(chan.poll_next(), NextMessage::Pending));
    assert!(chan.unbounded_send(3).is_ok());
    assert!(matches!(chan.poll_next(), NextMessage::Ready(Some(3))));
}

#[test]
fn size_hint_follows_state() {
    let mut chan: UnboundedChannel<u64> = unbounded();
    assert_eq!(chan.size_hint(), (0, None));
    assert!(chan.unbounded_send(1).is_ok());
    assert_eq!(chan.size_hint(), (1, None));
    chan.close();
    assert_eq!(chan.size_hint(), (1, Some(1)));
    assert_eq!(chan.try_recv(), Ok(1));
    assert!(matches!(chan.next_message(), NextMessage::Ready(None)));
    assert_eq!(chan.size_hint(), (0, Some(0)));
}

#[test]
fn drop_receiver_tears_down() {
    let mut chan: UnboundedChannel<u64> = unbounded();
    assert!(chan.unbounded_send(1).is_ok());
    assert!(chan.unbounded_send(2).is_ok());
    chan.drop_receiver();
    assert!(chan.is_closed());
    assert!(chan.is_terminated());
    assert!(chan.unbounded_send(3).is_err());
}

#[test]
fn ten_thousand_sends_from_eight_producers_drain_exactly() {
    let mut chan: UnboundedChannel<u64> = unbounded();
    // Eight producer handles interleave their sends round-robin.
    let producers: u64 = 8;
    let per_producer: u64 = 1250;
    for _ in 1..producers {
        chan.clone_sender();
    }
    for i in 0..per_producer {
        for p in 0..producers {
            assert!(chan.unbounded_send(p * 1_000_000 + i).is_ok());
        }
    }
    assert_eq!(chan.len(), 10_000);
    for _ in 0..producers {
        chan.drop_sender();
    }
    assert!(chan.is_closed());
    let drained = chan.recv_all();
    assert_eq!(drained.len(), 10_000);
    let mut seen = vec![false; 10_000];
    let mut last: Vec<i64> = vec![-1; producers as usize];
    for v in &drained {
        let p = v / 1_000_000;
        let i = v % 1_000_000;
        let idx = (p * per_producer + i) as usize;
        assert!(!seen[idx]);
        seen[idx] = true;
        assert!((i as i64) > last[p as usize]);
        last[p as usize] = i as i64;
    }
    assert!(seen.iter().all(|s| *s));
}
