use turbo_zk_benchmark::gate::{Poll, ReadinessGate};
use turbo_zk_benchmark::loopback::{establish, run_in_process, ANSWERER_ID, OFFERER_ID};
use turbo_zk_benchmark::session::{ConnectionState, PeerSession, Role};

#[test]
fn in_process_run_of_a_thousand_kilobyte_messages() {
    let sample = run_in_process(1000, 1024).ok().unwrap();
    assert!(sample.elapsed_nanos() > 0);
    assert_eq!(sample.elapsed_nanos(), 1000);
    assert_eq!(sample.total_bytes(), 2_048_000);
    assert_eq!(sample.iterations(), 1000);
    assert_eq!(sample.message_size(), 1024);
    assert_eq!(sample.latency_nanos(), 1);
    let latency = sample.elapsed_nanos() as f64 / sample.iterations() as f64;
    assert!(latency.is_finite() && latency > 0.0);
}

#[test]
fn in_process_run_counts_twice_the_bytes_sent() {
    for (iterations, message_size) in [(1u64, 0u64), (1, 1), (3, 5), (17, 4096), (250, 1)] {
        let sample = run_in_process(iterations, message_size).ok().unwrap();
        assert_eq!(sample.total_bytes(), 2 * (iterations as u128) * (message_size as u128));
        assert_eq!(sample.elapsed_nanos(), iterations);
    }
}

#[test]
fn established_pair_is_connected_with_open_channels() {
    let mut offerer = PeerSession::new(OFFERER_ID, Role::Offerer);
    let mut answerer = PeerSession::new(ANSWERER_ID, Role::Answerer);
    let mut gate = ReadinessGate::new();
    assert_eq!(establish(&mut offerer, &mut answerer, &mut gate), Ok(()));
    assert_eq!(offerer.connection_state(), ConnectionState::Connected);
    assert_eq!(answerer.connection_state(), ConnectionState::Connected);
    assert_eq!(offerer.data_channel().unwrap().owner, OFFERER_ID);
    assert_eq!(answerer.data_channel().unwrap().owner, ANSWERER_ID);
    assert_eq!(offerer.pending_candidates(), 0);
    assert_eq!(gate.poll(), Ok(Poll::Ready));
}
