use turbo_zk_benchmark::error::BenchError;
use turbo_zk_benchmark::gate::{Poll, ReadinessGate};
use turbo_zk_benchmark::harness::{Harness, Phase};
use turbo_zk_benchmark::ice::{IceExchange, Relay};
use turbo_zk_benchmark::mailbox::{Delivery, Mailbox};
use turbo_zk_benchmark::session::{PeerSession, Role, StateChange, TransportSignal};

const SECOND: u64 = 1_000_000_000;

struct Pair {
    offerer: PeerSession,
    answerer: PeerSession,
    gate: ReadinessGate,
}

fn tell(gate: &mut ReadinessGate, peer: Role, change: Option<StateChange>) {
    if let Some(change) = change {
        assert_eq!(gate.connection_changed(peer, change.to), Ok(()));
    }
}

/// Runs the whole handshake over an ideal transport that accepts everything
/// and connects as soon as it has a candidate.
fn negotiate() -> Pair {
    let mut offerer = PeerSession::new(1, Role::Offerer);
    let mut answerer = PeerSession::new(2, Role::Answerer);
    let mut gate = ReadinessGate::new();
    let mut offers: Mailbox<Vec<u8>> = Mailbox::for_descriptions();
    let mut answers: Mailbox<Vec<u8>> = Mailbox::for_descriptions();
    let mut exchange = IceExchange::new(10);

    assert_eq!(offerer.on_connection_state_changed(), Ok(()));
    assert_eq!(answerer.on_connection_state_changed(), Ok(()));
    assert_eq!(offerer.open_data_channel(), Ok(()));

    assert_eq!(offerer.create_offer(), Ok(()));
    assert_eq!(offerer.set_local_description(b"offer".to_vec()), Ok(()));
    assert!(offers.send(offerer.local_description().unwrap().clone()).is_ok());
    let offer = match offers.recv() {
        Delivery::Message(offer) => offer,
        _ => panic!("the offer was lost"),
    };
    assert_eq!(answerer.set_remote_description(offer), Ok(()));
    assert!(answerer.remote_description_applied(true).unwrap().is_empty());

    assert_eq!(answerer.create_answer(), Ok(()));
    assert_eq!(answerer.set_local_description(b"answer".to_vec()), Ok(()));
    assert!(answers.send(answerer.local_description().unwrap().clone()).is_ok());
    let answer = match answers.recv() {
        Delivery::Message(answer) => answer,
        _ => panic!("the answer was lost"),
    };
    assert_eq!(offerer.set_remote_description(answer), Ok(()));
    assert!(offerer.remote_description_applied(true).unwrap().is_empty());

    let from_offerer = offerer.local_candidate(vec![1]).ok().unwrap();
    let from_answerer = answerer.local_candidate(vec![2]).ok().unwrap();
    assert!(exchange.submit(Role::Offerer, from_offerer).is_ok());
    assert!(exchange.submit(Role::Answerer, from_answerer).is_ok());
    exchange.finish(Role::Offerer);
    exchange.finish(Role::Answerer);
    loop {
        match exchange.step(&mut offerer, &mut answerer) {
            Relay::Apply { to: Role::Offerer, .. } => {
                let change = offerer.candidate_applied(true).unwrap();
                tell(&mut gate, Role::Offerer, change);
            }
            Relay::Apply { to: Role::Answerer, .. } => {
                let change = answerer.candidate_applied(true).unwrap();
                tell(&mut gate, Role::Answerer, change);
            }
            Relay::Finished => break,
            _ => panic!("the exchange went wrong"),
        }
    }
    let change = offerer.transport_signal(TransportSignal::Connected);
    tell(&mut gate, Role::Offerer, change);
    let change = answerer.transport_signal(TransportSignal::Connected);
    tell(&mut gate, Role::Answerer, change);

    assert_eq!(offerer.channel_acknowledged(), Ok(()));
    assert_eq!(gate.channel_changed(Role::Offerer, true), Ok(()));
    assert_eq!(answerer.incoming_channel(), Ok(()));
    assert_eq!(gate.channel_changed(Role::Answerer, true), Ok(()));
    Pair { offerer, answerer, gate }
}

fn running(iterations: u64, message_size: u64, deadline: u64) -> (Harness, Pair) {
    let mut pair = negotiate();
    let mut harness = Harness::new(iterations, message_size, 5 * SECOND, deadline, 0);
    assert_eq!(harness.await_readiness(&mut pair.gate, 10), Ok(Poll::Ready));
    assert_eq!(harness.start(&pair.offerer, &pair.answerer, 100), Ok(()));
    (harness, pair)
}

#[test]
fn end_to_end_run_reports_elapsed_time_and_both_directions() {
    let (mut harness, pair) = running(1000, 1024, 60 * SECOND);
    let mut now = 100;
    for _ in 0..1000 {
        now += 50;
        assert_eq!(harness.send(&pair.offerer, now), Ok(Some(1024)));
    }
    assert_eq!(harness.send(&pair.offerer, now), Ok(None));
    let mut sample = None;
    for index in 0..1000 {
        now += 50;
        let outcome = harness.receive(1024, now).ok().unwrap();
        assert_eq!(outcome.is_some(), index == 999);
        sample = outcome;
    }
    let sample = sample.unwrap();
    assert_eq!(harness.phase(), Phase::Done);
    assert!(sample.elapsed_nanos() > 0);
    assert_eq!(sample.elapsed_nanos(), 100_000);
    assert_eq!(sample.total_bytes(), 2_048_000);
    assert_eq!(sample.iterations(), 1000);
    assert_eq!(sample.message_size(), 1024);
    let latency = sample.elapsed_nanos() as f64 / sample.iterations() as f64;
    assert!(latency.is_finite() && latency > 0.0);
    assert_eq!(sample.latency_nanos(), 100);
}

#[test]
fn interleaved_sends_and_receipts_account_the_same() {
    let (mut harness, pair) = running(3, 7, 60 * SECOND);
    let mut last = None;
    for step in 0..3u64 {
        assert_eq!(harness.send(&pair.offerer, 200 + step), Ok(Some(7)));
        last = harness.receive(7, 200 + step).ok().unwrap();
    }
    assert_eq!(last.unwrap().total_bytes(), 2 * 3 * 7);
}

#[test]
fn total_counts_what_was_really_observed() {
    let (mut harness, pair) = running(2, 10, 60 * SECOND);
    assert_eq!(harness.send(&pair.offerer, 200), Ok(Some(10)));
    assert_eq!(harness.send(&pair.offerer, 200), Ok(Some(10)));
    assert!(harness.receive(10, 300).ok().unwrap().is_none());
    let sample = harness.receive(4, 400).ok().unwrap().unwrap();
    assert_eq!(sample.total_bytes(), 20 + 14);
    assert_eq!(sample.elapsed_nanos(), 300);
}

#[test]
fn zero_sized_messages_make_a_run_of_zero_bytes() {
    let (mut harness, pair) = running(1, 0, 60 * SECOND);
    assert_eq!(harness.send(&pair.offerer, 200), Ok(Some(0)));
    let sample = harness.receive(0, 200).ok().unwrap().unwrap();
    assert_eq!(sample.total_bytes(), 0);
}

#[test]
fn peer_that_never_sets_the_remote_description_times_out() {
    let mut offerer = PeerSession::new(1, Role::Offerer);
    let answerer = PeerSession::new(2, Role::Answerer);
    let mut gate = ReadinessGate::new();
    let mut harness = Harness::new(1000, 1024, 5 * SECOND, 60 * SECOND, 0);
    assert_eq!(offerer.create_offer(), Ok(()));
    assert_eq!(offerer.set_local_description(b"offer".to_vec()), Ok(()));
    assert_eq!(answerer.remote_description(), None);
    assert_eq!(harness.await_readiness(&mut gate, SECOND), Ok(Poll::Pending));
    assert_eq!(harness.await_readiness(&mut gate, 5 * SECOND), Ok(Poll::Pending));
    assert_eq!(
        harness.await_readiness(&mut gate, 5 * SECOND + 1),
        Err(BenchError::NegotiationTimeout)
    );
    assert_eq!(harness.phase(), Phase::Failed(BenchError::NegotiationTimeout));
    assert_eq!(harness.await_readiness(&mut gate, SECOND), Err(BenchError::NegotiationTimeout));
    assert_eq!(harness.tick(0), Err(BenchError::NegotiationTimeout));
    assert!(harness.sample().is_none());
    assert!(!gate.is_resolved());
}

#[test]
fn tick_alone_notices_the_negotiation_deadline() {
    let mut harness = Harness::new(1, 1, 10, 10, 1000);
    assert_eq!(harness.tick(1010), Ok(()));
    assert_eq!(harness.tick(5), Ok(()));
    assert_eq!(harness.tick(1011), Err(BenchError::NegotiationTimeout));
}

#[test]
fn failed_peer_fails_the_run_with_connection_failed() {
    let mut gate = ReadinessGate::new();
    let mut harness = Harness::new(10, 10, 5 * SECOND, 5 * SECOND, 0);
    assert_eq!(
        gate.connection_changed(Role::Answerer, turbo_zk_benchmark::session::ConnectionState::Failed),
        Ok(())
    );
    assert_eq!(harness.await_readiness(&mut gate, 1), Err(BenchError::ConnectionFailed));
    assert_eq!(harness.phase(), Phase::Failed(BenchError::ConnectionFailed));
}

#[test]
fn timed_phase_cannot_start_before_readiness() {
    let pair = negotiate();
    let mut harness = Harness::new(10, 10, 5 * SECOND, 5 * SECOND, 0);
    assert_eq!(
        harness.start(&pair.offerer, &pair.answerer, 1),
        Err(BenchError::ChannelNotOpen)
    );
    assert_eq!(harness.send(&pair.offerer, 1), Err(BenchError::ChannelNotOpen));
    assert!(matches!(harness.receive(10, 1), Err(BenchError::ChannelNotOpen)));
    assert_eq!(harness.phase(), Phase::Negotiating);
}

#[test]
fn start_without_open_channels_fails_the_run() {
    let mut pair = negotiate();
    let mut harness = Harness::new(10, 10, 5 * SECOND, 5 * SECOND, 0);
    assert_eq!(harness.await_readiness(&mut pair.gate, 1), Ok(Poll::Ready));
    assert_eq!(harness.send(&pair.offerer, 1), Err(BenchError::ChannelNotOpen));
    pair.answerer.close();
    assert_eq!(
        harness.start(&pair.offerer, &pair.answerer, 2),
        Err(BenchError::ChannelNotOpen)
    );
    assert_eq!(harness.phase(), Phase::Failed(BenchError::ChannelNotOpen));
}

#[test]
fn readiness_is_awaited_once() {
    let mut pair = negotiate();
    let mut harness = Harness::new(10, 10, 5 * SECOND, 5 * SECOND, 0);
    assert_eq!(harness.await_readiness(&mut pair.gate, 1), Ok(Poll::Ready));
    assert_eq!(harness.await_readiness(&mut pair.gate, 2), Err(BenchError::AlreadyResolved));
    assert_eq!(harness.phase(), Phase::Ready);
    assert_eq!(harness.start(&pair.offerer, &pair.answerer, 3), Ok(()));
    assert_eq!(
        harness.start(&pair.offerer, &pair.answerer, 4),
        Err(BenchError::AlreadyResolved)
    );
}

#[test]
fn throughput_deadline_fails_the_run_without_a_sample() {
    let (mut harness, pair) = running(2, 8, 1000);
    assert_eq!(harness.send(&pair.offerer, 600), Ok(Some(8)));
    assert!(harness.receive(8, 1100).ok().unwrap().is_none());
    assert_eq!(harness.send(&pair.offerer, 1101), Err(BenchError::ThroughputTimeout));
    assert_eq!(harness.phase(), Phase::Failed(BenchError::ThroughputTimeout));
    assert!(matches!(harness.receive(8, 1101), Err(BenchError::ThroughputTimeout)));
    assert!(harness.sample().is_none());
}

#[test]
fn lost_message_ends_in_timeout_not_in_a_short_count() {
    let (mut harness, pair) = running(2, 8, 1000);
    assert_eq!(harness.send(&pair.offerer, 200), Ok(Some(8)));
    assert_eq!(harness.send(&pair.offerer, 200), Ok(Some(8)));
    assert!(harness.receive(8, 300).ok().unwrap().is_none());
    assert_eq!(harness.tick(1100), Ok(()));
    assert_eq!(harness.tick(1101), Err(BenchError::ThroughputTimeout));
    assert!(harness.sample().is_none());
}

#[test]
fn receipt_that_no_send_accounts_for_fails_the_run() {
    let (mut harness, _pair) = running(2, 8, 1000);
    assert!(matches!(harness.receive(8, 200), Err(BenchError::ChannelNotOpen)));
    assert_eq!(harness.phase(), Phase::Failed(BenchError::ChannelNotOpen));
}

#[test]
fn closed_channel_fails_the_next_send() {
    let (mut harness, mut pair) = running(2, 8, 1000);
    assert_eq!(harness.send(&pair.offerer, 200), Ok(Some(8)));
    pair.offerer.close();
    assert_eq!(harness.send(&pair.offerer, 201), Err(BenchError::ChannelNotOpen));
    assert_eq!(harness.phase(), Phase::Failed(BenchError::ChannelNotOpen));
}

#[test]
fn host_failure_ends_a_live_run_only() {
    let (mut harness, pair) = running(1, 8, 1000);
    assert_eq!(harness.send(&pair.offerer, 200), Ok(Some(8)));
    assert!(harness.receive(8, 300).ok().unwrap().is_some());
    harness.fail(BenchError::ChannelNotOpen);
    assert_eq!(harness.phase(), Phase::Done);
    assert_eq!(harness.sample().unwrap().total_bytes(), 16);
    assert_eq!(harness.tick(10_000_000), Ok(()));
    assert_eq!(harness.sample().unwrap().elapsed_nanos(), 200);

    let mut other = Harness::new(1, 1, 10, 10, 0);
    other.fail(BenchError::MailboxClosed);
    assert_eq!(other.phase(), Phase::Failed(BenchError::MailboxClosed));
    other.fail(BenchError::ConnectionFailed);
    assert_eq!(other.phase(), Phase::Failed(BenchError::MailboxClosed));
}

#[test]
fn clock_does_not_run_backwards() {
    let (mut harness, pair) = running(1, 8, 1000);
    assert_eq!(harness.send(&pair.offerer, 500), Ok(Some(8)));
    let sample = harness.receive(8, 50).ok().unwrap().unwrap();
    assert_eq!(sample.elapsed_nanos(), 400);
}
