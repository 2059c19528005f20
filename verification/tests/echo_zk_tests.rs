use turbo_zk_benchmark::echo::{
    bits_answered, client_react, reports_progress, round_trip_bytes, server_react, Frame,
    Reaction, MESSAGE_SIZE_BYTES,
};
use turbo_zk_benchmark::error::BenchError;
use turbo_zk_benchmark::zk::{add_mod_order, payload_bits, State, FIELD_ORDER};

#[test]
fn round_trip_counts_both_directions() {
    assert_eq!(round_trip_bytes(1000, 1024), Some(2_048_000));
    assert_eq!(round_trip_bytes(0, 1024), Some(0));
    assert_eq!(round_trip_bytes(7, 0), Some(0));
    assert_eq!(round_trip_bytes(1, u64::MAX / 2), Some(u64::MAX - 1));
}

#[test]
fn round_trip_that_does_not_fit_is_not_reported() {
    assert_eq!(round_trip_bytes(1, u64::MAX / 2 + 1), None);
    assert_eq!(round_trip_bytes(u64::MAX, u64::MAX), None);
    assert_eq!(round_trip_bytes(1 << 32, 1 << 32), None);
}

#[test]
fn progress_is_reported_every_interval() {
    assert!(reports_progress(0, 100));
    assert!(!reports_progress(1, 100));
    assert!(!reports_progress(99, 100));
    assert!(reports_progress(100, 100));
    assert!(reports_progress(5, 1));
}

#[test]
fn client_answers_pings_only() {
    assert_eq!(client_react(Frame::Ping), Reaction::PongThenPing);
    assert_eq!(client_react(Frame::Pong), Reaction::Ignore);
    assert_eq!(client_react(Frame::Other), Reaction::Ignore);
    assert_eq!(client_react(Frame::Broken), Reaction::Stop);
}

#[test]
fn server_pings_after_pongs_only() {
    assert_eq!(server_react(Frame::Pong), Reaction::Ping);
    assert_eq!(server_react(Frame::Ping), Reaction::Ignore);
    assert_eq!(server_react(Frame::Other), Reaction::Ignore);
    assert_eq!(server_react(Frame::Broken), Reaction::Stop);
}

#[test]
fn answered_bits_are_frames_times_size_times_eight() {
    assert_eq!(MESSAGE_SIZE_BYTES, 32);
    assert_eq!(bits_answered(0), Some(0));
    assert_eq!(bits_answered(3), Some(768));
    assert_eq!(bits_answered(u64::MAX / 256), Some(u64::MAX / 256 * 256));
    assert_eq!(bits_answered(u64::MAX / 256 + 1), None);
}

#[test]
fn timeouts_are_told_apart_from_other_failures() {
    assert!(BenchError::NegotiationTimeout.timed_out());
    assert!(BenchError::ThroughputTimeout.timed_out());
    assert!(!BenchError::NegotiationError.timed_out());
    assert!(!BenchError::MailboxClosed.timed_out());
    assert!(!BenchError::MailboxFull.timed_out());
    assert!(!BenchError::ConnectionFailed.timed_out());
    assert!(!BenchError::ChannelNotOpen.timed_out());
    assert!(!BenchError::AlreadyResolved.timed_out());
}

#[test]
fn payload_bits_mark_the_upper_half_of_the_bytes() {
    assert_eq!(
        payload_bits(&vec![0, 127, 128, 255, 1, 200]),
        vec![false, false, true, true, false, true]
    );
    assert_eq!(payload_bits(&Vec::new()), Vec::<bool>::new());
}

#[test]
fn field_addition_wraps_at_the_order() {
    assert_eq!(FIELD_ORDER, 18446744069414584321);
    assert_eq!(add_mod_order(1, 2), 3);
    assert_eq!(add_mod_order(FIELD_ORDER - 1, 1), 0);
    assert_eq!(add_mod_order(FIELD_ORDER - 1, FIELD_ORDER - 1), FIELD_ORDER - 2);
    assert_eq!(add_mod_order(0, 0), 0);
}

#[test]
fn test_state_transitions() {
    let mut states = vec![State::new(None, 0, 0)];
    for i in 0..30 {
        let witness = states[i].witness(1, 1);
        assert_eq!((witness.x, witness.y), (i as u64, i as u64));
        assert_eq!((witness.x_prime, witness.y_prime), (1, 1));
        assert_eq!((witness.new_x, witness.new_y), (i as u64 + 1, i as u64 + 1));
        let next_state = states[i].move_by(1, 1, vec![i as u8]);
        states.push(next_state);
    }
    let last = states.last().unwrap();
    assert_eq!((last.x(), last.y()), (30, 30));
    assert_eq!(last.proof_bytes(), Some(&vec![29u8]));
    assert_eq!(states[0].proof_bytes(), None);
}

#[test]
fn state_moves_by_the_largest_step() {
    let start = State::new(None, u32::MAX, 0);
    let next = start.move_by(u32::MAX, u32::MAX, Vec::new());
    assert_eq!(next.x(), 2 * (u32::MAX as u64));
    assert_eq!(next.y(), u32::MAX as u64);
}
