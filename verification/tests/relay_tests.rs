use dock_core::relay::{LogRelay, RelayPhase, RELAY_CAPACITY};

fn chunk(s: &str) -> Vec<u8> {
    s.as_bytes().to_vec()
}

#[test]
fn chunks_are_delivered_in_production_order() {
    let mut relay = LogRelay::new();
    assert!(relay.offer(chunk("C1")));
    assert!(relay.offer(chunk("C2")));
    assert!(relay.offer(chunk("C3")));
    // The sink delays consumption: nothing is lost meanwhile.
    assert_eq!(relay.pending_len(), 3);
    assert_eq!(relay.take(), Some(chunk("C1")));
    assert_eq!(relay.take(), Some(chunk("C2")));
    assert_eq!(relay.take(), Some(chunk("C3")));
    assert_eq!(relay.take(), None);
}

#[test]
fn full_buffer_rejects_instead_of_dropping() {
    let mut relay = LogRelay::new();
    for i in 0..RELAY_CAPACITY {
        assert!(relay.offer(vec![i as u8]));
    }
    // The producer is held back; the chunk is not dropped and may be
    // offered again once the sink catches up.
    assert!(!relay.offer(chunk("overflow")));
    assert_eq!(relay.pending_len(), RELAY_CAPACITY);
    assert_eq!(relay.take(), Some(vec![0u8]));
    assert!(relay.offer(chunk("overflow")));
    assert_eq!(relay.pending_len(), RELAY_CAPACITY);
}

#[test]
fn interleaved_offer_and_take_keep_order() {
    let mut relay = LogRelay::new();
    assert!(relay.offer(chunk("a")));
    assert!(relay.offer(chunk("b")));
    assert_eq!(relay.take(), Some(chunk("a")));
    assert!(relay.offer(chunk("c")));
    assert_eq!(relay.take(), Some(chunk("b")));
    assert_eq!(relay.take(), Some(chunk("c")));
    assert_eq!(relay.take(), None);
}

#[test]
fn cancellation_stops_both_duties() {
    let mut relay = LogRelay::new();
    assert!(relay.offer(chunk("before")));
    relay.cancel();
    assert_eq!(relay.phase_now(), RelayPhase::Cancelled);
    // The producer's next offer is refused and the forwarder delivers
    // nothing further.
    assert!(!relay.offer(chunk("after")));
    assert_eq!(relay.take(), None);
    assert_eq!(relay.pending_len(), 1);
}

#[test]
fn stream_end_drains_buffered_chunks() {
    let mut relay = LogRelay::new();
    assert!(relay.offer(chunk("tail1")));
    assert!(relay.offer(chunk("tail2")));
    relay.end_stream();
    assert_eq!(relay.phase_now(), RelayPhase::Ended);
    assert!(!relay.offer(chunk("late")));
    assert_eq!(relay.take(), Some(chunk("tail1")));
    assert_eq!(relay.take(), Some(chunk("tail2")));
    assert_eq!(relay.take(), None);
}

#[test]
fn sink_failure_is_terminal() {
    let mut relay = LogRelay::new();
    assert!(relay.offer(chunk("pending")));
    relay.sink_closed();
    assert_eq!(relay.phase_now(), RelayPhase::SinkClosed);
    assert!(!relay.offer(chunk("more")));
    assert_eq!(relay.take(), None);
}

#[test]
fn terminal_phases_absorb_later_signals() {
    let mut relay = LogRelay::new();
    relay.cancel();
    relay.end_stream();
    assert_eq!(relay.phase_now(), RelayPhase::Cancelled);
    let mut relay2 = LogRelay::new();
    relay2.end_stream();
    relay2.cancel();
    assert_eq!(relay2.phase_now(), RelayPhase::Ended);
}

#[test]
fn failed_open_ends_with_zero_chunks() {
    let mut relay = LogRelay::failed_open();
    assert_eq!(relay.phase_now(), RelayPhase::Ended);
    assert!(!relay.offer(chunk("never")));
    assert_eq!(relay.take(), None);
    assert_eq!(relay.pending_len(), 0);
}

#[test]
fn empty_stream_delivers_zero_chunks() {
    let mut relay = LogRelay::new();
    relay.end_stream();
    assert_eq!(relay.take(), None);
    assert_eq!(relay.pending_len(), 0);
}
