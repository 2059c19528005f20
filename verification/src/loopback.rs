//! A whole run inside one process: two sessions joined by a transport that
//! accepts every description and every candidate, connects as soon as it has
//! a candidate, and hands every message over untouched.

use crate::error::BenchError;
use crate::gate::{GateModel, Poll, ReadinessGate};
use crate::harness::{Harness, HarnessModel, Phase, SampleModel, ThroughputSample};
use crate::ice::{IceExchange, Relay};
use crate::mailbox::{Delivery, Mailbox, MIN_CANDIDATE_CAPACITY};
use crate::session::{
    ChannelState, ConnectionState, PeerSession, Role, SessionModel, StateChange, TransportSignal,
};
use vstd::prelude::*;

verus! {

/// The id of the offering session of a run in one process.
pub const OFFERER_ID: u64 = 1;

/// The id of the answering session of a run in one process.
pub const ANSWERER_ID: u64 = 2;

/// A session that has negotiated, is connected and holds an open channel.
pub open spec fn established(s: SessionModel) -> bool {
    &&& s.wf()
    &&& s.state == ConnectionState::Connected
    &&& s.channel == ChannelState::Open
    &&& s.remote is Applied
    &&& s.local is Created
    &&& s.awaiting == 0
}

/// Tells the readiness gate what an observer was told, if anything.
fn report(gate: &mut ReadinessGate, peer: Role, change: Option<StateChange>) -> (r: Result<
    (),
    BenchError,
>)
    ensures
        match change {
            Some(c) => final(gate)@ == old(gate)@.after_connection_changed(peer, c.to) && r == old(
                gate,
            )@.connection_changed_result(peer, c.to),
            None => final(gate)@ == old(gate)@ && r is Ok,
        },
{
    match change {
        Some(c) => gate.connection_changed(peer, c.to),
        None => Ok(()),
    }
}

/// Carries one description from its maker to the other peer through a
/// mailbox of its own, and has the transport accept it there.
fn deliver_description(to: &mut PeerSession, desc: Vec<u8>) -> (r: Result<(), BenchError>)
    requires
        old(to)@.wf(),
        old(to)@.can_set_remote_description(),
        old(to)@.pending.len() == 0,
    ensures
        r is Ok,
        final(to)@.wf(),
        final(to)@ == (SessionModel { remote: final(to)@.remote, ..old(to)@ }),
        final(to)@.remote is Applied,
{
    let mut mailbox: Mailbox<Vec<u8>> = Mailbox::for_descriptions();
    match mailbox.send(desc) {
        Ok(()) => {},
        Err(refused) => {
            return Err(refused.error);
        },
    }
    match mailbox.recv() {
        Delivery::Message(blob) => {
            match to.set_remote_description(blob) {
                Ok(()) => {},
                Err(e) => {
                    return Err(e);
                },
            }
            assert(to@.pending =~= Seq::empty());
            match to.remote_description_applied(true) {
                Ok(_) => Ok(()),
                Err(e) => Err(e),
            }
        },
        _ => Err(BenchError::MailboxClosed),
    }
}

/// Negotiates a fresh pair of sessions to the point where both are
/// connected and both channels are open, and tells the readiness gate of it. Over a
/// transport that refuses nothing this cannot fail.
pub fn establish(
    offerer: &mut PeerSession,
    answerer: &mut PeerSession,
    gate: &mut ReadinessGate,
) -> (r: Result<(), BenchError>)
    requires
        old(offerer)@ == SessionModel::fresh(OFFERER_ID, Role::Offerer),
        old(answerer)@ == SessionModel::fresh(ANSWERER_ID, Role::Answerer),
        old(gate)@ == GateModel::fresh(),
    ensures
        r is Ok,
        established(final(offerer)@),
        established(final(answerer)@),
        final(offerer)@.role == Role::Offerer,
        final(answerer)@.role == Role::Answerer,
        final(gate)@.outcome() == Some(Ok::<(), BenchError>(())),
        !final(gate)@.resolved,
{
    // Observers and the channel request come first, as the transport needs them.
    match offerer.on_connection_state_changed() {
        Ok(()) => {},
        Err(e) => {
            return Err(e);
        },
    }
    match answerer.on_connection_state_changed() {
        Ok(()) => {},
        Err(e) => {
            return Err(e);
        },
    }
    match offerer.open_data_channel() {
        Ok(()) => {},
        Err(e) => {
            return Err(e);
        },
    }
    // The offer, and its way to the answering side.
    match offerer.create_offer() {
        Ok(()) => {},
        Err(e) => {
            return Err(e);
        },
    }
    let mut offer: Vec<u8> = Vec::new();
    offer.push(OFFERER_ID as u8);
    match offerer.set_local_description(offer.clone()) {
        Ok(()) => {},
        Err(e) => {
            return Err(e);
        },
    }
    match deliver_description(answerer, offer) {
        Ok(()) => {},
        Err(e) => {
            return Err(e);
        },
    }
    // The answer, and its way back.
    match answerer.create_answer() {
        Ok(()) => {},
        Err(e) => {
            return Err(e);
        },
    }
    let mut answer: Vec<u8> = Vec::new();
    answer.push(ANSWERER_ID as u8);
    match answerer.set_local_description(answer.clone()) {
        Ok(()) => {},
        Err(e) => {
            return Err(e);
        },
    }
    match deliver_description(offerer, answer) {
        Ok(()) => {},
        Err(e) => {
            return Err(e);
        },
    }
    // One candidate each way.
    let mut exchange = IceExchange::new(MIN_CANDIDATE_CAPACITY);
    match offerer.local_candidate(Vec::new()) {
        Ok(candidate) => match exchange.submit(Role::Offerer, candidate) {
            Ok(()) => {},
            Err(refused) => {
                return Err(refused.error);
            },
        },
        Err(e) => {
            return Err(e);
        },
    }
    match answerer.local_candidate(Vec::new()) {
        Ok(candidate) => match exchange.submit(Role::Answerer, candidate) {
            Ok(()) => {},
            Err(refused) => {
                return Err(refused.error);
            },
        },
        Err(e) => {
            return Err(e);
        },
    }
    exchange.finish(Role::Offerer);
    exchange.finish(Role::Answerer);
    match exchange.step(offerer, answerer) {
        Relay::Apply { .. } => {
            match offerer.candidate_applied(true) {
                Ok(change) => match report(gate, Role::Offerer, change) {
                    Ok(()) => {},
                    Err(e) => {
                        return Err(e);
                    },
                },
                Err(e) => {
                    return Err(e);
                },
            }
        },
        _ => {
            return Err(BenchError::NegotiationError);
        },
    }
    match exchange.step(offerer, answerer) {
        Relay::Apply { .. } => {
            match answerer.candidate_applied(true) {
                Ok(change) => match report(gate, Role::Answerer, change) {
                    Ok(()) => {},
                    Err(e) => {
                        return Err(e);
                    },
                },
                Err(e) => {
                    return Err(e);
                },
            }
        },
        _ => {
            return Err(BenchError::NegotiationError);
        },
    }
    // The transport connects both ends and opens the channel.
    let change = offerer.transport_signal(TransportSignal::Connected);
    match report(gate, Role::Offerer, change) {
        Ok(()) => {},
        Err(e) => {
            return Err(e);
        },
    }
    let change = answerer.transport_signal(TransportSignal::Connected);
    match report(gate, Role::Answerer, change) {
        Ok(()) => {},
        Err(e) => {
            return Err(e);
        },
    }
    match offerer.channel_acknowledged() {
        Ok(()) => {},
        Err(e) => {
            return Err(e);
        },
    }
    match gate.channel_changed(Role::Offerer, true) {
        Ok(()) => {},
        Err(e) => {
            return Err(e);
        },
    }
    match answerer.incoming_channel() {
        Ok(()) => {},
        Err(e) => {
            return Err(e);
        },
    }
    match gate.channel_changed(Role::Answerer, true) {
        Ok(()) => Ok(()),
        Err(e) => Err(e),
    }
}

/// The harness of a run in one process after `rounds` messages have gone
/// out and come back, one clock tick each.
pub open spec fn after_rounds(iterations: nat, message_size: nat, rounds: nat) -> HarnessModel {
    HarnessModel {
        iterations,
        message_size,
        negotiation_deadline: u64::MAX as nat,
        throughput_deadline: u64::MAX as nat,
        phase: Phase::Running,
        clock: rounds,
        opened_at: 0,
        started_at: 0,
        sent: rounds,
        bytes_sent: rounds * message_size,
        received: rounds,
        bytes_received: rounds * message_size,
    }
}

/// The sample of a run in one process: one tick for each iteration, and
/// the bytes of every message counted at both ends.
pub open spec fn in_process_sample(iterations: nat, message_size: nat) -> SampleModel {
    SampleModel {
        iterations,
        message_size,
        elapsed_nanos: iterations,
        total_bytes: 2 * iterations * message_size,
    }
}

/// One message out and back again, at the tick `round + 1`.
fn round_trip(harness: &mut Harness, sender: &PeerSession, round: u64) -> (r: Result<
    Option<ThroughputSample>,
    BenchError,
>)
    requires
        round < old(harness)@.iterations,
        old(harness)@.wf(),
        old(harness)@ == after_rounds(
            old(harness)@.iterations,
            old(harness)@.message_size,
            round as nat,
        ),
        established(sender@),
    ensures
        final(harness)@.wf(),
        round + 1 < old(harness)@.iterations ==> (r matches Ok(None) && final(harness)@
            == after_rounds(
            old(harness)@.iterations,
            old(harness)@.message_size,
            (round + 1) as nat,
        )),
        round + 1 == old(harness)@.iterations ==> (r matches Ok(Some(sample)) && sample@
            == in_process_sample(old(harness)@.iterations, old(harness)@.message_size)),
{
    let ghost n = harness@.iterations;
    let ghost size = harness@.message_size;
    proof {
        assert((round + 1) * size == round * size + size) by (nonlinear_arith);
        assert(2 * n * size == n * size + n * size) by (nonlinear_arith);
    }
    let now: u64 = round + 1;
    match harness.send(sender, now) {
        Ok(Some(size)) => harness.receive(size, now),
        Ok(None) => Err(BenchError::ThroughputTimeout),
        Err(e) => Err(e),
    }
}

/// Runs a whole benchmark inside one process: negotiates a fresh pair of
/// sessions, waits for readiness, then sends `iterations` messages of
/// `message_size` bytes and observes each as received, one clock tick per
/// message. The run always succeeds, and its sample counts the bytes of
/// every message twice, once sent and once received.
pub fn run_in_process(iterations: u64, message_size: u64) -> (r: Result<
    ThroughputSample,
    BenchError,
>)
    requires
        HarnessModel::valid_config(iterations as nat, message_size as nat),
    ensures
        r matches Ok(sample) && sample@ == in_process_sample(
            iterations as nat,
            message_size as nat,
        ),
{
    let mut offerer = PeerSession::new(OFFERER_ID, Role::Offerer);
    let mut answerer = PeerSession::new(ANSWERER_ID, Role::Answerer);
    let mut gate = ReadinessGate::new();
    let mut harness = Harness::new(iterations, message_size, u64::MAX, u64::MAX, 0);
    match establish(&mut offerer, &mut answerer, &mut gate) {
        Ok(()) => {},
        Err(e) => {
            return Err(e);
        },
    }
    match harness.await_readiness(&mut gate, 0) {
        Ok(Poll::Ready) => {},
        Ok(Poll::Pending) => {
            return Err(BenchError::NegotiationTimeout);
        },
        Err(e) => {
            return Err(e);
        },
    }
    match harness.start(&offerer, &answerer, 0) {
        Ok(()) => {},
        Err(e) => {
            return Err(e);
        },
    }
    assert(0 * (message_size as nat) == 0) by (nonlinear_arith);
    let mut round: u64 = 0;
    while round + 1 < iterations
        invariant
            round < iterations,
            harness@.wf(),
            harness@ == after_rounds(iterations as nat, message_size as nat, round as nat),
            established(offerer@),
        decreases iterations - round,
    {
        match round_trip(&mut harness, &offerer, round) {
            Ok(None) => {},
            Ok(Some(sample)) => {
                return Ok(sample);
            },
            Err(e) => {
                return Err(e);
            },
        }
        round = round + 1;
    }
    match round_trip(&mut harness, &offerer, round) {
        Ok(Some(sample)) => Ok(sample),
        Ok(None) => Err(BenchError::ThroughputTimeout),
        Err(e) => Err(e),
    }
}

} // verus!
