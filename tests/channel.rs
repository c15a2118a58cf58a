use subsystem_test_helpers::{ReadPoll, SinkState, Slot};

fn writable(s: &SinkState<&'static str, u32>) -> bool {
    let free = s.is_writable();
    assert_eq!(free, matches!(s.slot, Slot::Empty { .. }));
    free
}

#[test]
fn new_channel_is_empty_and_open() {
    let s: SinkState<u8, u32> = SinkState::new();
    assert!(matches!(s.slot, Slot::Empty { read_waker: None }));
    assert!(!s.writer_closed);
}

#[test]
fn writes_are_read_in_order_and_complete_only_after_read() {
    let mut s: SinkState<&'static str, u32> = SinkState::new();
    let values = ["a", "b", "c", "d"];
    let mut seen = Vec::new();
    for v in values.iter() {
        assert!(s.poll_ready(1));
        assert_eq!(s.start_send(*v), if seen.is_empty() { None } else { Some(2) });
        assert!(!s.poll_flush(3));
        assert!(!s.poll_flush(3));
        match s.poll_next(2) {
            ReadPoll::Ready { item, wake_writer, wake_flusher } => {
                assert_eq!(wake_writer, None);
                assert_eq!(wake_flusher, Some(3));
                seen.push(item);
            }
            _ => panic!("a written value must be readable"),
        }
        assert!(s.poll_flush(3));
    }
    assert_eq!(seen, values.to_vec());
}

#[test]
fn second_write_is_refused_while_occupied() {
    let mut s: SinkState<&'static str, u32> = SinkState::new();
    assert!(writable(&s));
    assert!(s.poll_ready(1));
    s.start_send("x");
    assert!(!writable(&s));
    assert!(!s.poll_ready(1));
    assert!(!s.poll_ready(4));
    assert!(!writable(&s));
    assert!(matches!(s.poll_next(2), ReadPoll::Ready { item: "x", .. }));
    assert!(writable(&s));
    assert!(s.poll_ready(1));
}

#[test]
fn parked_reader_is_woken_once_per_write() {
    let mut s: SinkState<&'static str, u32> = SinkState::new();
    assert!(matches!(s.poll_next(7), ReadPoll::Pending));
    assert!(matches!(s.poll_next(8), ReadPoll::Pending));
    assert_eq!(s.start_send("one"), Some(8));
    assert!(matches!(s.poll_next(8), ReadPoll::Ready { item: "one", .. }));
    assert_eq!(s.start_send("two"), Some(8));
    assert!(matches!(s.poll_next(8), ReadPoll::Ready { item: "two", .. }));
}

#[test]
fn parked_writer_is_woken_once_per_read() {
    let mut s: SinkState<&'static str, u32> = SinkState::new();
    s.start_send("one");
    assert!(!s.poll_ready(5));
    assert!(!s.poll_ready(6));
    match s.poll_next(1) {
        ReadPoll::Ready { item, wake_writer, wake_flusher } => {
            assert_eq!(item, "one");
            assert_eq!(wake_writer, Some(6));
            assert_eq!(wake_flusher, None);
        }
        _ => panic!("expected the value"),
    }
    assert!(s.poll_ready(6));
    s.start_send("two");
    match s.poll_next(1) {
        ReadPoll::Ready { wake_writer, .. } => assert_eq!(wake_writer, None),
        _ => panic!("expected the value"),
    }
}

#[test]
fn poll_close_behaves_as_flush() {
    let mut s: SinkState<&'static str, u32> = SinkState::new();
    assert!(s.poll_close(1));
    s.start_send("v");
    assert!(!s.poll_close(9));
    match s.poll_next(2) {
        ReadPoll::Ready { wake_flusher, .. } => assert_eq!(wake_flusher, Some(9)),
        _ => panic!("expected the value"),
    }
    assert!(s.poll_close(1));
}

#[test]
fn dropping_the_writer_wakes_and_closes_a_parked_reader() {
    let mut s: SinkState<&'static str, u32> = SinkState::new();
    assert!(matches!(s.poll_next(3), ReadPoll::Pending));
    assert_eq!(s.writer_dropped(), Some(3));
    assert!(matches!(s.poll_next(3), ReadPoll::Closed));
    assert!(matches!(s.poll_next(3), ReadPoll::Closed));
}

#[test]
fn value_written_before_the_writer_drops_is_still_read() {
    let mut s: SinkState<&'static str, u32> = SinkState::new();
    s.start_send("last");
    assert_eq!(s.writer_dropped(), None);
    assert!(matches!(s.poll_next(3), ReadPoll::Ready { item: "last", .. }));
    assert!(matches!(s.poll_next(3), ReadPoll::Closed));
}

#[test]
fn randomized_interleavings_always_make_progress() {
    let writer: u32 = 1;
    let reader: u32 = 2;
    for seed in 1u64..=64 {
        let mut rng = seed;
        let mut s: SinkState<u64, u32> = SinkState::new();
        let n: u64 = 20;
        let mut next_value: u64 = 0;
        let mut flushing = false;
        let mut writer_parked = false;
        let mut reader_parked = false;
        let mut received: Vec<u64> = Vec::new();
        let mut turns: u64 = 0;
        while received.len() < n as usize || flushing {
            turns += 1;
            assert!(turns <= 10 * n, "no progress within the bound for seed {}", seed);
            assert!(!(writer_parked && reader_parked), "a wake was lost for seed {}", seed);
            rng = rng.wrapping_mul(6364136223846793005).wrapping_add(1442695040888963407);
            let writer_turn = if writer_parked || next_value == n && !flushing {
                false
            } else if reader_parked {
                true
            } else {
                (rng >> 33) % 2 == 0
            };
            if writer_turn {
                if flushing {
                    if s.poll_flush(writer) {
                        flushing = false;
                    } else {
                        writer_parked = true;
                    }
                } else if s.poll_ready(writer) {
                    if s.start_send(next_value) == Some(reader) {
                        reader_parked = false;
                    }
                    next_value += 1;
                    flushing = true;
                } else {
                    writer_parked = true;
                }
            } else {
                match s.poll_next(reader) {
                    ReadPoll::Ready { item, wake_writer, wake_flusher } => {
                        received.push(item);
                        if wake_writer == Some(writer) || wake_flusher == Some(writer) {
                            writer_parked = false;
                        }
                    }
                    ReadPoll::Pending => reader_parked = true,
                    ReadPoll::Closed => panic!("the writer is still there"),
                }
            }
        }
        assert_eq!(received, (0..n).collect::<Vec<u64>>());
    }
}
