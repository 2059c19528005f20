use turbo_zk_benchmark::error::BenchError;
use turbo_zk_benchmark::ice::{IceExchange, Relay};
use turbo_zk_benchmark::session::{CandidateMessage, PeerSession, Role};

fn candidate(origin: u64, ordinal: u64) -> CandidateMessage {
    CandidateMessage { origin, ordinal, payload: vec![origin as u8, ordinal as u8] }
}

fn pair_with_descriptions() -> (PeerSession, PeerSession) {
    let mut offerer = PeerSession::new(1, Role::Offerer);
    let mut answerer = PeerSession::new(2, Role::Answerer);
    assert_eq!(offerer.create_offer(), Ok(()));
    assert_eq!(offerer.set_local_description(vec![1]), Ok(()));
    assert_eq!(answerer.set_remote_description(vec![1]), Ok(()));
    assert!(answerer.remote_description_applied(true).is_ok());
    assert_eq!(answerer.create_answer(), Ok(()));
    assert_eq!(answerer.set_local_description(vec![2]), Ok(()));
    assert_eq!(offerer.set_remote_description(vec![2]), Ok(()));
    assert!(offerer.remote_description_applied(true).is_ok());
    (offerer, answerer)
}

#[test]
fn exchange_alternates_between_the_two_directions() {
    let (mut offerer, mut answerer) = pair_with_descriptions();
    let mut exchange = IceExchange::new(10);
    for ordinal in 0..2 {
        assert!(exchange.submit(Role::Offerer, candidate(1, ordinal)).is_ok());
        assert!(exchange.submit(Role::Answerer, candidate(2, ordinal)).is_ok());
    }
    let mut seen = Vec::new();
    for _ in 0..4 {
        match exchange.step(&mut offerer, &mut answerer) {
            Relay::Apply { to, candidate } => seen.push((to, candidate.origin, candidate.ordinal)),
            _ => panic!("a candidate should have been relayed"),
        }
    }
    assert_eq!(
        seen,
        vec![
            (Role::Offerer, 2, 0),
            (Role::Answerer, 1, 0),
            (Role::Offerer, 2, 1),
            (Role::Answerer, 1, 1),
        ]
    );
    assert!(matches!(exchange.step(&mut offerer, &mut answerer), Relay::Idle));
}

#[test]
fn exchange_keeps_the_order_within_one_direction() {
    let (mut offerer, mut answerer) = pair_with_descriptions();
    let mut exchange = IceExchange::new(10);
    for ordinal in 0..10 {
        assert!(exchange.submit(Role::Offerer, candidate(1, ordinal)).is_ok());
    }
    for expected in 0..10 {
        match exchange.step(&mut offerer, &mut answerer) {
            Relay::Apply { to: Role::Answerer, candidate } => {
                assert_eq!(candidate.ordinal, expected);
                assert_eq!(candidate.payload, vec![1, expected as u8]);
            }
            _ => panic!("a candidate should have been relayed"),
        }
    }
}

#[test]
fn full_exchange_hands_the_candidate_back() {
    let mut exchange = IceExchange::new(10);
    for ordinal in 0..10 {
        assert!(exchange.submit(Role::Offerer, candidate(1, ordinal)).is_ok());
    }
    let refused = exchange.submit(Role::Offerer, candidate(1, 10)).err().unwrap();
    assert_eq!(refused.error, BenchError::MailboxFull);
    assert_eq!(refused.message.ordinal, 10);
    assert!(exchange.submit(Role::Answerer, candidate(2, 0)).is_ok());
}

#[test]
fn exchange_finishes_when_both_sides_are_done_and_drained() {
    let (mut offerer, mut answerer) = pair_with_descriptions();
    let mut exchange = IceExchange::new(10);
    assert!(exchange.submit(Role::Offerer, candidate(1, 0)).is_ok());
    exchange.finish(Role::Offerer);
    assert!(matches!(
        exchange.step(&mut offerer, &mut answerer),
        Relay::Apply { to: Role::Answerer, .. }
    ));
    assert!(matches!(exchange.step(&mut offerer, &mut answerer), Relay::Idle));
    exchange.finish(Role::Answerer);
    assert!(matches!(exchange.step(&mut offerer, &mut answerer), Relay::Finished));
    assert!(matches!(exchange.step(&mut offerer, &mut answerer), Relay::Finished));
    let refused = exchange.submit(Role::Offerer, candidate(1, 1)).err().unwrap();
    assert_eq!(refused.error, BenchError::MailboxClosed);
}

#[test]
fn refused_candidate_does_not_stop_the_exchange() {
    let (mut offerer, mut answerer) = pair_with_descriptions();
    let mut exchange = IceExchange::new(10);
    assert!(exchange.submit(Role::Offerer, candidate(2, 0)).is_ok());
    assert!(exchange.submit(Role::Offerer, candidate(1, 1)).is_ok());
    assert!(matches!(
        exchange.step(&mut offerer, &mut answerer),
        Relay::Refused { to: Role::Answerer, error: BenchError::NegotiationError }
    ));
    assert!(matches!(
        exchange.step(&mut offerer, &mut answerer),
        Relay::Apply { to: Role::Answerer, .. }
    ));
}

#[test]
fn exchange_buffers_in_a_session_without_remote_description() {
    let mut offerer = PeerSession::new(1, Role::Offerer);
    let mut answerer = PeerSession::new(2, Role::Answerer);
    let mut exchange = IceExchange::new(10);
    assert!(exchange.submit(Role::Offerer, candidate(1, 0)).is_ok());
    assert!(matches!(
        exchange.step(&mut offerer, &mut answerer),
        Relay::Buffered { to: Role::Answerer }
    ));
    assert_eq!(answerer.pending_candidates(), 1);
    assert_eq!(answerer.set_remote_description(vec![1]), Ok(()));
    let replay = answerer.remote_description_applied(true).unwrap();
    assert_eq!(replay.len(), 1);
    assert_eq!(replay[0].payload, vec![1, 0]);
}

#[test]
fn aborted_exchange_lets_nobody_wait() {
    let (mut offerer, mut answerer) = pair_with_descriptions();
    let mut exchange = IceExchange::new(10);
    assert!(exchange.submit(Role::Offerer, candidate(1, 0)).is_ok());
    exchange.abort();
    exchange.abort();
    assert_eq!(
        exchange.submit(Role::Answerer, candidate(2, 0)).err().unwrap().error,
        BenchError::MailboxClosed
    );
    assert!(matches!(exchange.step(&mut offerer, &mut answerer), Relay::Apply { .. }));
    assert!(matches!(exchange.step(&mut offerer, &mut answerer), Relay::Finished));
}
