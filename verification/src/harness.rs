//! The throughput harness: waits for readiness, then times a fixed number of
//! sends and the receipts that answer them, and accounts for every byte.
//!
//! Bytes are counted at both ends: the bytes of every message sent, plus the
//! bytes of every message observed as received. Time is what the host reads
//! from its clock, in nanoseconds; a reading older than the latest one is
//! taken as the latest.

use crate::error::BenchError;
use crate::gate::{GateModel, Poll, ReadinessGate};
use crate::session::PeerSession;
use vstd::prelude::*;

verus! {

/// Where a run stands.
#[derive(Clone, Copy, Debug, PartialEq, Eq, Structural)]
pub enum Phase {
    /// The peers negotiate; the readiness gate has not resolved.
    Negotiating,
    /// The readiness gate has resolved in success; the timer has not started.
    Ready,
    /// The timed phase.
    Running,
    /// Every message was sent and observed; the sample is made.
    Done,
    /// The run has failed, for good.
    Failed(BenchError),
}

/// The outcome of one run, as the contracts speak of it.
pub struct SampleModel {
    pub iterations: nat,
    pub message_size: nat,
    pub elapsed_nanos: nat,
    pub total_bytes: nat,
}

impl SampleModel {
    /// The elapsed time divided by the number of iterations, rounded down.
    pub open spec fn latency_nanos(self) -> nat {
        if self.iterations == 0 {
            0
        } else {
            self.elapsed_nanos / self.iterations
        }
    }
}

/// The outcome of one run. It is made once and does not change.
pub struct ThroughputSample {
    iterations: u64,
    message_size: u64,
    elapsed_nanos: u64,
    total_bytes: u128,
}

impl View for ThroughputSample {
    type V = SampleModel;

    closed spec fn view(&self) -> SampleModel {
        SampleModel {
            iterations: self.iterations as nat,
            message_size: self.message_size as nat,
            elapsed_nanos: self.elapsed_nanos as nat,
            total_bytes: self.total_bytes as nat,
        }
    }
}

/// The later of two clock readings.
pub open spec fn later(clock: nat, now: nat) -> nat {
    if now > clock {
        now
    } else {
        clock
    }
}

/// A harness as the contracts speak of it.
pub struct HarnessModel {
    pub iterations: nat,
    pub message_size: nat,
    /// The time allowed from the creation of the harness to readiness.
    pub negotiation_deadline: nat,
    /// The time allowed from the start of the timed phase to the last receipt.
    pub throughput_deadline: nat,
    pub phase: Phase,
    /// The latest clock reading.
    pub clock: nat,
    pub opened_at: nat,
    pub started_at: nat,
    /// Messages sent, and their bytes.
    pub sent: nat,
    pub bytes_sent: nat,
    /// Messages observed as received, and their bytes.
    pub received: nat,
    pub bytes_received: nat,
}

impl HarnessModel {
    /// A run has at least one iteration, and the bytes of all its messages,
    /// counted at both ends, fit in 64 bits.
    pub open spec fn valid_config(iterations: nat, message_size: nat) -> bool {
        iterations >= 1 && 2 * iterations * message_size <= u64::MAX
    }

    /// What holds of every harness: it observes no more than it has sent and
    /// sends no more than it was asked to, it counts the bytes of what it has
    /// sent, its clock does not run backwards, it counts nothing before the
    /// timed phase, and it is done only when everything was sent and observed.
    pub open spec fn wf(self) -> bool {
        &&& HarnessModel::valid_config(self.iterations, self.message_size)
        &&& self.iterations <= u64::MAX
        &&& self.message_size <= u64::MAX
        &&& self.received <= self.sent <= self.iterations
        &&& self.bytes_sent == self.sent * self.message_size
        &&& self.bytes_received <= self.received * u64::MAX
        &&& self.opened_at <= self.clock <= u64::MAX
        &&& self.negotiation_deadline <= u64::MAX
        &&& self.throughput_deadline <= u64::MAX
        &&& (self.phase == Phase::Running || self.phase == Phase::Done) ==> self.opened_at
            <= self.started_at <= self.clock
        &&& (self.phase == Phase::Negotiating || self.phase == Phase::Ready) ==> self.sent == 0
            && self.bytes_received == 0
        &&& self.phase == Phase::Done ==> self.received == self.iterations
    }

    pub open spec fn fresh(
        iterations: nat,
        message_size: nat,
        negotiation_deadline: nat,
        throughput_deadline: nat,
        now: nat,
    ) -> HarnessModel {
        HarnessModel {
            iterations,
            message_size,
            negotiation_deadline,
            throughput_deadline,
            phase: Phase::Negotiating,
            clock: now,
            opened_at: now,
            started_at: now,
            sent: 0,
            bytes_sent: 0,
            received: 0,
            bytes_received: 0,
        }
    }

    /// The harness with its clock moved on to `now`.
    pub open spec fn at(self, now: nat) -> HarnessModel {
        HarnessModel { clock: later(self.clock, now), ..self }
    }

    pub open spec fn failed(self, error: BenchError) -> HarnessModel {
        HarnessModel { phase: Phase::Failed(error), ..self }
    }

    /// The deadline that the present phase has missed, given the clock.
    pub open spec fn overdue(self) -> Option<BenchError> {
        if self.phase == Phase::Negotiating && self.clock - self.opened_at
            > self.negotiation_deadline {
            Some(BenchError::NegotiationTimeout)
        } else if self.phase == Phase::Running && self.clock - self.started_at
            > self.throughput_deadline {
            Some(BenchError::ThroughputTimeout)
        } else {
            None
        }
    }

    /// Why an operation that belongs to the phase `wanted` is turned away in
    /// the present phase, if it is: a failed run repeats its failure, a run
    /// that is further on says so, and one that has not come that far has no
    /// open channel yet.
    pub open spec fn out_of_phase(self, wanted: Phase) -> Option<BenchError> {
        if self.phase == wanted {
            None
        } else {
            match self.phase {
                Phase::Failed(error) => Some(error),
                Phase::Negotiating => Some(BenchError::ChannelNotOpen),
                Phase::Ready => Some(
                    if wanted == Phase::Negotiating {
                        BenchError::AlreadyResolved
                    } else {
                        BenchError::ChannelNotOpen
                    },
                ),
                _ => Some(BenchError::AlreadyResolved),
            }
        }
    }

    // ---- the clock ----
    pub open spec fn after_tick(self, now: nat) -> HarnessModel {
        match self.phase {
            Phase::Done => self,
            Phase::Failed(_) => self,
            _ => match self.at(now).overdue() {
                Some(error) => self.at(now).failed(error),
                None => self.at(now),
            },
        }
    }

    pub open spec fn tick_result(self, now: nat) -> Result<(), BenchError> {
        match self.phase {
            Phase::Done => Ok(()),
            Phase::Failed(error) => Err(error),
            _ => match self.at(now).overdue() {
                Some(error) => Err(error),
                None => Ok(()),
            },
        }
    }

    // ---- readiness ----
    /// Whether waiting for readiness at `now` gets as far as asking the readiness gate.
    pub open spec fn polls_gate(self, now: nat) -> bool {
        self.phase == Phase::Negotiating && self.at(now).overdue() is None
    }

    pub open spec fn after_await_readiness(self, gate: GateModel, now: nat) -> HarnessModel {
        if self.phase != Phase::Negotiating {
            self
        } else if self.at(now).overdue() is Some {
            self.at(now).failed(BenchError::NegotiationTimeout)
        } else {
            match gate.poll_result() {
                Ok(Poll::Pending) => self.at(now),
                Ok(Poll::Ready) => HarnessModel { phase: Phase::Ready, ..self.at(now) },
                Err(error) => self.at(now).failed(error),
            }
        }
    }

    pub open spec fn await_readiness_result(self, gate: GateModel, now: nat) -> Result<
        Poll,
        BenchError,
    > {
        if self.out_of_phase(Phase::Negotiating) is Some {
            Err(self.out_of_phase(Phase::Negotiating).unwrap())
        } else if self.at(now).overdue() is Some {
            Err(BenchError::NegotiationTimeout)
        } else {
            gate.poll_result()
        }
    }

    // ---- the timed phase ----
    /// The timer starts in the phase `Ready`, with both channels open.
    pub open spec fn after_start(self, channels_open: bool, now: nat) -> HarnessModel {
        if self.phase != Phase::Ready {
            self
        } else if !channels_open {
            self.at(now).failed(BenchError::ChannelNotOpen)
        } else {
            HarnessModel {
                phase: Phase::Running,
                started_at: later(self.clock, now),
                ..self.at(now)
            }
        }
    }

    pub open spec fn start_result(self, channels_open: bool) -> Result<(), BenchError> {
        if self.out_of_phase(Phase::Ready) is Some {
            Err(self.out_of_phase(Phase::Ready).unwrap())
        } else if !channels_open {
            Err(BenchError::ChannelNotOpen)
        } else {
            Ok(())
        }
    }

    /// Why the timed phase ends in failure at this point, if it does: the
    /// deadline has passed, or the channel is gone.
    pub open spec fn run_failure(self, channel_open: bool) -> Option<BenchError> {
        if self.overdue() is Some {
            self.overdue()
        } else if !channel_open {
            Some(BenchError::ChannelNotOpen)
        } else {
            None
        }
    }

    pub open spec fn after_send(self, channel_open: bool, now: nat) -> HarnessModel {
        if self.phase != Phase::Running {
            self
        } else if self.at(now).run_failure(channel_open) is Some {
            self.at(now).failed(self.at(now).run_failure(channel_open).unwrap())
        } else if self.sent < self.iterations {
            HarnessModel {
                sent: self.sent + 1,
                bytes_sent: self.bytes_sent + self.message_size,
                ..self.at(now)
            }
        } else {
            self.at(now)
        }
    }

    /// What a send answers: the size of the message to send now, or nothing
    /// when every message has been sent.
    pub open spec fn send_result(self, channel_open: bool, now: nat) -> Result<
        Option<u64>,
        BenchError,
    > {
        if self.out_of_phase(Phase::Running) is Some {
            Err(self.out_of_phase(Phase::Running).unwrap())
        } else if self.at(now).run_failure(channel_open) is Some {
            Err(self.at(now).run_failure(channel_open).unwrap())
        } else if self.sent < self.iterations {
            Ok(Some(self.message_size as u64))
        } else {
            Ok(None)
        }
    }

    /// Why a receipt ends the timed phase in failure, if it does: the
    /// deadline has passed, or no message is on its way.
    pub open spec fn receipt_failure(self) -> Option<BenchError> {
        if self.overdue() is Some {
            self.overdue()
        } else if self.received >= self.sent {
            Some(BenchError::ChannelNotOpen)
        } else {
            None
        }
    }

    /// Whether the receipt taken now is the last one.
    pub open spec fn completes(self) -> bool {
        self.received + 1 == self.iterations
    }

    pub open spec fn after_receive(self, len: nat, now: nat) -> HarnessModel {
        if self.phase != Phase::Running {
            self
        } else if self.at(now).receipt_failure() is Some {
            self.at(now).failed(self.at(now).receipt_failure().unwrap())
        } else {
            HarnessModel {
                received: self.received + 1,
                bytes_received: self.bytes_received + len,
                phase: if self.completes() {
                    Phase::Done
                } else {
                    Phase::Running
                },
                ..self.at(now)
            }
        }
    }

    /// The sample of a harness that is done: the time from the start of the
    /// timed phase to the last receipt, and the bytes counted at both ends.
    pub open spec fn sample(self) -> SampleModel {
        SampleModel {
            iterations: self.iterations,
            message_size: self.message_size,
            elapsed_nanos: (self.clock - self.started_at) as nat,
            total_bytes: self.bytes_sent + self.bytes_received,
        }
    }

    /// What a receipt answers: the sample when it is the last one, nothing
    /// while receipts are outstanding.
    pub open spec fn receive_result(self, len: nat, now: nat) -> Result<
        Option<SampleModel>,
        BenchError,
    > {
        if self.out_of_phase(Phase::Running) is Some {
            Err(self.out_of_phase(Phase::Running).unwrap())
        } else if self.at(now).receipt_failure() is Some {
            Err(self.at(now).receipt_failure().unwrap())
        } else if self.completes() {
            Ok(Some(self.after_receive(len, now).sample()))
        } else {
            Ok(None)
        }
    }

    /// A failure that the host reports ends a run that has not ended yet.
    pub open spec fn after_fail(self, error: BenchError) -> HarnessModel {
        match self.phase {
            Phase::Done => self,
            Phase::Failed(_) => self,
            _ => self.failed(error),
        }
    }
}

impl ThroughputSample {
    pub fn iterations(&self) -> (r: u64)
        ensures
            r == self@.iterations,
    {
        self.iterations
    }

    pub fn message_size(&self) -> (r: u64)
        ensures
            r == self@.message_size,
    {
        self.message_size
    }

    /// The time from the start of the timed phase to the last receipt.
    pub fn elapsed_nanos(&self) -> (r: u64)
        ensures
            r == self@.elapsed_nanos,
    {
        self.elapsed_nanos
    }

    /// The bytes sent plus the bytes observed as received.
    pub fn total_bytes(&self) -> (r: u128)
        ensures
            r == self@.total_bytes,
    {
        self.total_bytes
    }

    /// The time that one iteration took on average, in whole nanoseconds;
    /// zero for a sample of no iterations.
    pub fn latency_nanos(&self) -> (r: u64)
        ensures
            r == self@.latency_nanos(),
    {
        if self.iterations == 0 {
            0
        } else {
            self.elapsed_nanos / self.iterations
        }
    }
}

/// The driver of one benchmark run.
pub struct Harness {
    iterations: u64,
    message_size: u64,
    negotiation_deadline: u64,
    throughput_deadline: u64,
    phase: Phase,
    clock: u64,
    opened_at: u64,
    started_at: u64,
    sent: u64,
    bytes_sent: u64,
    received: u64,
    bytes_received: u128,
}

impl View for Harness {
    type V = HarnessModel;

    closed spec fn view(&self) -> HarnessModel {
        HarnessModel {
            iterations: self.iterations as nat,
            message_size: self.message_size as nat,
            negotiation_deadline: self.negotiation_deadline as nat,
            throughput_deadline: self.throughput_deadline as nat,
            phase: self.phase,
            clock: self.clock as nat,
            opened_at: self.opened_at as nat,
            started_at: self.started_at as nat,
            sent: self.sent as nat,
            bytes_sent: self.bytes_sent as nat,
            received: self.received as nat,
            bytes_received: self.bytes_received as nat,
        }
    }
}

/// The bytes of `count` messages of `size` bytes are no more than those of
/// `limit` such messages, where `count` is no more than `limit`.
proof fn lemma_bytes_bounded(count: nat, limit: nat, size: nat)
    requires
        count <= limit,
    ensures
        count * size <= limit * size,
        (count + 1) * size == count * size + size,
        2 * limit * size == limit * size + limit * size,
{
    assert(count * size <= limit * size) by (nonlinear_arith)
        requires
            count <= limit,
    ;
    assert((count + 1) * size == count * size + size) by (nonlinear_arith);
    assert(2 * limit * size == limit * size + limit * size) by (nonlinear_arith);
}

impl Harness {
    /// A harness for `iterations` messages of `message_size` bytes, created
    /// at the time `now`, with the time allowed for negotiation and for the
    /// timed phase, in nanoseconds.
    pub fn new(
        iterations: u64,
        message_size: u64,
        negotiation_deadline: u64,
        throughput_deadline: u64,
        now: u64,
    ) -> (r: Harness)
        requires
            HarnessModel::valid_config(iterations as nat, message_size as nat),
        ensures
            r@ == HarnessModel::fresh(
                iterations as nat,
                message_size as nat,
                negotiation_deadline as nat,
                throughput_deadline as nat,
                now as nat,
            ),
            r@.wf(),
    {
        Harness {
            iterations,
            message_size,
            negotiation_deadline,
            throughput_deadline,
            phase: Phase::Negotiating,
            clock: now,
            opened_at: now,
            started_at: now,
            sent: 0,
            bytes_sent: 0,
            received: 0,
            bytes_received: 0,
        }
    }

    fn advance(&mut self, now: u64)
        ensures
            final(self)@ == old(self)@.at(now as nat),
    {
        if now > self.clock {
            self.clock = now;
        }
    }

    fn check_deadline(&self) -> (r: Option<BenchError>)
        requires
            self@.wf(),
        ensures
            r == self@.overdue(),
    {
        match self.phase {
            Phase::Negotiating => {
                if self.clock - self.opened_at > self.negotiation_deadline {
                    Some(BenchError::NegotiationTimeout)
                } else {
                    None
                }
            },
            Phase::Running => {
                if self.clock - self.started_at > self.throughput_deadline {
                    Some(BenchError::ThroughputTimeout)
                } else {
                    None
                }
            },
            _ => None,
        }
    }

    fn turn_away(&self, wanted: Phase) -> (r: Option<BenchError>)
        ensures
            r == self@.out_of_phase(wanted),
    {
        if self.phase == wanted {
            None
        } else {
            match self.phase {
                Phase::Failed(error) => Some(error),
                Phase::Negotiating => Some(BenchError::ChannelNotOpen),
                Phase::Ready => {
                    if wanted == Phase::Negotiating {
                        Some(BenchError::AlreadyResolved)
                    } else {
                        Some(BenchError::ChannelNotOpen)
                    }
                },
                _ => Some(BenchError::AlreadyResolved),
            }
        }
    }

    /// Moves the clock on to `now` and fails the run if the deadline of its
    /// phase has passed: with `NegotiationTimeout` while the peers
    /// negotiate, with `ThroughputTimeout` in the timed phase. A failed run
    /// answers with its failure.
    pub fn tick(&mut self, now: u64) -> (r: Result<(), BenchError>)
        requires
            old(self)@.wf(),
        ensures
            final(self)@.wf(),
            final(self)@ == old(self)@.after_tick(now as nat),
            r == old(self)@.tick_result(now as nat),
    {
        match self.phase {
            Phase::Done => Ok(()),
            Phase::Failed(error) => Err(error),
            _ => {
                self.advance(now);
                match self.check_deadline() {
                    Some(error) => {
                        self.phase = Phase::Failed(error);
                        Err(error)
                    },
                    None => Ok(()),
                }
            },
        }
    }

    /// Asks the readiness gate whether both peers are ready, at the time `now`. Past
    /// the negotiation deadline the run fails with `NegotiationTimeout` and
    /// the readiness gate is not asked. Otherwise the readiness gate's answer decides: `Pending`
    /// leaves the run negotiating, `Ready` makes it ready for the timed
    /// phase, a failure fails it. A run that is not negotiating is turned
    /// away and the readiness gate is left alone.
    pub fn await_readiness(&mut self, gate: &mut ReadinessGate, now: u64) -> (r: Result<
        Poll,
        BenchError,
    >)
        requires
            old(self)@.wf(),
        ensures
            final(self)@.wf(),
            final(self)@ == old(self)@.after_await_readiness(old(gate)@, now as nat),
            final(gate)@ == if old(self)@.polls_gate(now as nat) {
                old(gate)@.after_poll()
            } else {
                old(gate)@
            },
            r == old(self)@.await_readiness_result(old(gate)@, now as nat),
    {
        match self.turn_away(Phase::Negotiating) {
            Some(error) => {
                return Err(error);
            },
            None => {},
        }
        self.advance(now);
        match self.check_deadline() {
            Some(error) => {
                self.phase = Phase::Failed(error);
                return Err(error);
            },
            None => {},
        }
        match gate.poll() {
            Ok(Poll::Pending) => Ok(Poll::Pending),
            Ok(Poll::Ready) => {
                self.phase = Phase::Ready;
                Ok(Poll::Ready)
            },
            Err(error) => {
                self.phase = Phase::Failed(error);
                Err(error)
            },
        }
    }

    /// Starts the timer, at the time `now`. The run has to be ready and both
    /// sessions have to hold an open data channel; without the channels the
    /// run fails with `ChannelNotOpen`.
    pub fn start(&mut self, sender: &PeerSession, receiver: &PeerSession, now: u64) -> (r: Result<
        (),
        BenchError,
    >)
        requires
            old(self)@.wf(),
        ensures
            final(self)@.wf(),
            final(self)@ == old(self)@.after_start(
                sender@.data_channel() is Some && receiver@.data_channel() is Some,
                now as nat,
            ),
            r == old(self)@.start_result(
                sender@.data_channel() is Some && receiver@.data_channel() is Some,
            ),
    {
        match self.turn_away(Phase::Ready) {
            Some(error) => {
                return Err(error);
            },
            None => {},
        }
        self.advance(now);
        if sender.data_channel().is_some() && receiver.data_channel().is_some() {
            self.phase = Phase::Running;
            self.started_at = self.clock;
            Ok(())
        } else {
            self.phase = Phase::Failed(BenchError::ChannelNotOpen);
            Err(BenchError::ChannelNotOpen)
        }
    }

    fn check_run(&self, channel_open: bool) -> (r: Option<BenchError>)
        requires
            self@.wf(),
        ensures
            r == self@.run_failure(channel_open),
    {
        match self.check_deadline() {
            Some(error) => Some(error),
            None => if channel_open {
                None
            } else {
                Some(BenchError::ChannelNotOpen)
            },
        }
    }

    /// Decides the next send, at the time `now`: answers with the size of
    /// the message that the host is to send over the channel of `sender`, and
    /// counts it, or with nothing when every message has been sent. Past
    /// the throughput deadline the run fails with `ThroughputTimeout`;
    /// without an open channel it fails with `ChannelNotOpen`.
    pub fn send(&mut self, sender: &PeerSession, now: u64) -> (r: Result<Option<u64>, BenchError>)
        requires
            old(self)@.wf(),
        ensures
            final(self)@.wf(),
            final(self)@ == old(self)@.after_send(sender@.data_channel() is Some, now as nat),
            r == old(self)@.send_result(sender@.data_channel() is Some, now as nat),
    {
        match self.turn_away(Phase::Running) {
            Some(error) => {
                return Err(error);
            },
            None => {},
        }
        self.advance(now);
        match self.check_run(sender.data_channel().is_some()) {
            Some(error) => {
                self.phase = Phase::Failed(error);
                return Err(error);
            },
            None => {},
        }
        if self.sent < self.iterations {
            proof {
                lemma_bytes_bounded(
                    (self.sent + 1) as nat,
                    self.iterations as nat,
                    self.message_size as nat,
                );
                lemma_bytes_bounded(
                    self.sent as nat,
                    self.iterations as nat,
                    self.message_size as nat,
                );
            }
            self.sent = self.sent + 1;
            self.bytes_sent = self.bytes_sent + self.message_size;
            Ok(Some(self.message_size))
        } else {
            Ok(None)
        }
    }

    /// Counts a message of `len` bytes observed as received, at the time
    /// `now`. The last receipt stops the timer and answers with the sample.
    /// Past the throughput deadline the run fails with `ThroughputTimeout`;
    /// a receipt that no send accounts for fails it with `ChannelNotOpen`.
    pub fn receive(&mut self, len: u64, now: u64) -> (r: Result<Option<ThroughputSample>, BenchError>)
        requires
            old(self)@.wf(),
        ensures
            final(self)@.wf(),
            final(self)@ == old(self)@.after_receive(len as nat, now as nat),
            match r {
                Ok(Some(sample)) => old(self)@.receive_result(len as nat, now as nat) == Ok::<
                    Option<SampleModel>,
                    BenchError,
                >(Some(sample@)),
                Ok(None) => old(self)@.receive_result(len as nat, now as nat) == Ok::<
                    Option<SampleModel>,
                    BenchError,
                >(None),
                Err(error) => old(self)@.receive_result(len as nat, now as nat) == Err::<
                    Option<SampleModel>,
                    BenchError,
                >(error),
            },
    {
        match self.turn_away(Phase::Running) {
            Some(error) => {
                return Err(error);
            },
            None => {},
        }
        self.advance(now);
        match self.check_deadline() {
            Some(error) => {
                self.phase = Phase::Failed(error);
                return Err(error);
            },
            None => {},
        }
        if self.received >= self.sent {
            self.phase = Phase::Failed(BenchError::ChannelNotOpen);
            return Err(BenchError::ChannelNotOpen);
        }
        proof {
            lemma_bytes_bounded(self.received as nat, self.iterations as nat, u64::MAX as nat);
            lemma_bytes_bounded(
                (self.received + 1) as nat,
                self.iterations as nat,
                u64::MAX as nat,
            );
            assert(self.iterations * u64::MAX <= u64::MAX * u64::MAX) by (nonlinear_arith)
                requires
                    self.iterations <= u64::MAX,
            ;
        }
        self.received = self.received + 1;
        self.bytes_received = self.bytes_received + (len as u128);
        if self.received == self.iterations {
            self.phase = Phase::Done;
            Ok(Some(self.make_sample()))
        } else {
            Ok(None)
        }
    }

    fn make_sample(&self) -> (r: ThroughputSample)
        requires
            self@.wf(),
            self@.phase == Phase::Done,
        ensures
            r@ == self@.sample(),
    {
        proof {
            lemma_bytes_bounded(self.received as nat, self.iterations as nat, u64::MAX as nat);
            assert(self.iterations * u64::MAX <= u64::MAX * u64::MAX) by (nonlinear_arith)
                requires
                    self.iterations <= u64::MAX,
            ;
        }
        ThroughputSample {
            iterations: self.iterations,
            message_size: self.message_size,
            elapsed_nanos: self.clock - self.started_at,
            total_bytes: (self.bytes_sent as u128) + self.bytes_received,
        }
    }

    /// Ends the run with a failure that the host has met outside, such as a
    /// send that its transport refused. A run that has ended stays as it is.
    pub fn fail(&mut self, error: BenchError)
        requires
            old(self)@.wf(),
        ensures
            final(self)@.wf(),
            final(self)@ == old(self)@.after_fail(error),
    {
        match self.phase {
            Phase::Done => {},
            Phase::Failed(_) => {},
            _ => {
                self.phase = Phase::Failed(error);
            },
        }
    }

    /// The sample of a run that is done.
    pub fn sample(&self) -> (r: Option<ThroughputSample>)
        requires
            self@.wf(),
        ensures
            match r {
                Some(sample) => self@.phase == Phase::Done && sample@ == self@.sample(),
                None => self@.phase != Phase::Done,
            },
    {
        if self.phase == Phase::Done {
            Some(self.make_sample())
        } else {
            None
        }
    }

    pub fn phase(&self) -> (r: Phase)
        ensures
            r == self@.phase,
    {
        self.phase
    }
}

} // verus!
