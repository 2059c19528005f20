//! Runs of harness operations, and what holds of every run.

use crate::error::BenchError;
use crate::gate::{GateModel, Poll};
use crate::harness::{later, HarnessModel, Phase};
use vstd::prelude::*;

verus! {

/// One operation on a harness, with what it meets outside: the time, the
/// gate's answer, whether the channels are open.
pub enum HarnessOp {
    Tick { now: nat },
    AwaitReadiness { polled: Result<Poll, BenchError>, now: nat },
    Start { channels_open: bool, now: nat },
    Send { channel_open: bool, now: nat },
    Receive { len: nat, now: nat },
    Fail { error: BenchError },
}

impl HarnessModel {
    /// The harness after waiting for readiness, given what the readiness gate answers
    /// when it is asked.
    pub open spec fn after_polled(self, polled: Result<Poll, BenchError>, now: nat) -> HarnessModel {
        if self.phase != Phase::Negotiating {
            self
        } else if self.at(now).overdue() is Some {
            self.at(now).failed(BenchError::NegotiationTimeout)
        } else {
            match polled {
                Ok(Poll::Pending) => self.at(now),
                Ok(Poll::Ready) => HarnessModel { phase: Phase::Ready, ..self.at(now) },
                Err(error) => self.at(now).failed(error),
            }
        }
    }

    /// The harness after one operation.
    pub open spec fn after(self, op: HarnessOp) -> HarnessModel {
        match op {
            HarnessOp::Tick { now } => self.after_tick(now),
            HarnessOp::AwaitReadiness { polled, now } => self.after_polled(polled, now),
            HarnessOp::Start { channels_open, now } => self.after_start(channels_open, now),
            HarnessOp::Send { channel_open, now } => self.after_send(channel_open, now),
            HarnessOp::Receive { len, now } => self.after_receive(len, now),
            HarnessOp::Fail { error } => self.after_fail(error),
        }
    }

    /// Runs `ops` from this harness, first to last.
    pub open spec fn run(self, ops: Seq<HarnessOp>) -> HarnessModel
        decreases ops.len(),
    {
        if ops.len() == 0 {
            self
        } else {
            self.run(ops.drop_last()).after(ops.last())
        }
    }
}

/// True where every message that `ops` reports as received has `size` bytes.
pub open spec fn receipts_echo(ops: Seq<HarnessOp>, size: nat) -> bool {
    forall|i: int|
        0 <= i < ops.len() ==> (#[trigger] ops[i] matches HarnessOp::Receive { len, .. } ==> len
            == size)
}

/// True where the readiness gate has answered `Ready` to one of `ops`.
pub open spec fn gate_was_ready(ops: Seq<HarnessOp>) -> bool {
    exists|i: int|
        0 <= i < ops.len() && (#[trigger] ops[i] matches HarnessOp::AwaitReadiness {
            polled: Ok(Poll::Ready),
            ..
        })
}

/// Waiting on a gate is waiting for what the readiness gate answers.
pub proof fn lemma_await_readiness_is_polled(h: HarnessModel, gate: GateModel, now: nat)
    ensures
        h.after_await_readiness(gate, now) == h.after_polled(gate.poll_result(), now),
{
}

/// No operation breaks a harness, changes what it was asked to measure, or
/// turns its clock back; and a run that has ended stays as it ended.
pub proof fn lemma_step(h: HarnessModel, op: HarnessOp)
    requires
        h.wf(),
        op matches HarnessOp::Receive { len, .. } ==> len <= u64::MAX,
        op matches HarnessOp::Tick { now } ==> now <= u64::MAX,
        op matches HarnessOp::AwaitReadiness { now, .. } ==> now <= u64::MAX,
        op matches HarnessOp::Start { now, .. } ==> now <= u64::MAX,
        op matches HarnessOp::Send { now, .. } ==> now <= u64::MAX,
        op matches HarnessOp::Receive { now, .. } ==> now <= u64::MAX,
    ensures
        h.after(op).wf(),
        h.after(op).iterations == h.iterations,
        h.after(op).message_size == h.message_size,
        h.after(op).clock >= h.clock,
        (h.phase == Phase::Done || h.phase is Failed) ==> h.after(op) == h,
{
    assert((h.sent + 1) * h.message_size == h.sent * h.message_size + h.message_size)
        by (nonlinear_arith);
    assert((h.received + 1) * u64::MAX == h.received * u64::MAX + u64::MAX) by (nonlinear_arith);
}

/// The accounting of a finished run: the sample of a harness that is done
/// counts the bytes of all its messages as sent, plus every byte observed as
/// received; and where each message observed has the size of the messages
/// sent, that is twice the number of iterations times the message size.
pub proof fn lemma_total_bytes(
    iterations: nat,
    message_size: nat,
    negotiation_deadline: nat,
    throughput_deadline: nat,
    now: nat,
    ops: Seq<HarnessOp>,
)
    requires
        HarnessModel::valid_config(iterations, message_size),
        receipts_echo(ops, message_size),
    ensures
        ({
            let end = HarnessModel::fresh(
                iterations,
                message_size,
                negotiation_deadline,
                throughput_deadline,
                now,
            ).run(ops);
            &&& end.bytes_sent == end.sent * message_size
            &&& end.bytes_received == end.received * message_size
            &&& end.received <= end.sent <= iterations
            &&& end.phase == Phase::Done ==> end.sample().total_bytes == 2 * iterations
                * message_size
        }),
    decreases ops.len(),
{
    let start = HarnessModel::fresh(
        iterations,
        message_size,
        negotiation_deadline,
        throughput_deadline,
        now,
    );
    if ops.len() > 0 {
        let head = ops.drop_last();
        assert forall|i: int| 0 <= i < head.len() implies (#[trigger] head[i] matches HarnessOp::Receive {
            len,
            ..
        } ==> len == message_size) by {
            assert(head[i] == ops[i]);
        }
        lemma_total_bytes(
            iterations,
            message_size,
            negotiation_deadline,
            throughput_deadline,
            now,
            head,
        );
        let before = start.run(head);
        let end = start.run(ops);
        assert(ops[ops.len() - 1] == ops.last());
        assert((before.sent + 1) * message_size == before.sent * message_size + message_size)
            by (nonlinear_arith);
        assert((before.received + 1) * message_size == before.received * message_size
            + message_size) by (nonlinear_arith);
        lemma_phase_counts(
            iterations,
            message_size,
            negotiation_deadline,
            throughput_deadline,
            now,
            ops,
        );
    }
    let end = start.run(ops);
    if end.phase == Phase::Done {
        lemma_phase_counts(
            iterations,
            message_size,
            negotiation_deadline,
            throughput_deadline,
            now,
            ops,
        );
        assert(2 * iterations * message_size == iterations * message_size + iterations
            * message_size) by (nonlinear_arith);
    }
}

/// A run yields its sample only when it is complete: a harness is done only
/// after it was asked to send every message and has observed as many; and
/// it counts nothing before the timed phase.
pub proof fn lemma_phase_counts(
    iterations: nat,
    message_size: nat,
    negotiation_deadline: nat,
    throughput_deadline: nat,
    now: nat,
    ops: Seq<HarnessOp>,
)
    requires
        iterations >= 1,
    ensures
        ({
            let end = HarnessModel::fresh(
                iterations,
                message_size,
                negotiation_deadline,
                throughput_deadline,
                now,
            ).run(ops);
            &&& end.iterations == iterations
            &&& end.message_size == message_size
            &&& end.received <= end.sent <= iterations
            &&& end.phase == Phase::Done ==> end.sent == iterations && end.received == iterations
            &&& (end.phase == Phase::Negotiating || end.phase == Phase::Ready) ==> end.sent == 0
                && end.received == 0
        }),
    decreases ops.len(),
{
    if ops.len() > 0 {
        lemma_phase_counts(
            iterations,
            message_size,
            negotiation_deadline,
            throughput_deadline,
            now,
            ops.drop_last(),
        );
    }
}

/// The timer starts only after readiness is proven: a harness reaches the
/// phases `Ready`, `Running` and `Done` only if the readiness gate has answered
/// `Ready` on the way.
pub proof fn lemma_timed_only_after_ready(
    iterations: nat,
    message_size: nat,
    negotiation_deadline: nat,
    throughput_deadline: nat,
    now: nat,
    ops: Seq<HarnessOp>,
)
    ensures
        ({
            let end = HarnessModel::fresh(
                iterations,
                message_size,
                negotiation_deadline,
                throughput_deadline,
                now,
            ).run(ops);
            (end.phase == Phase::Ready || end.phase == Phase::Running || end.phase == Phase::Done)
                ==> gate_was_ready(ops)
        }),
    decreases ops.len(),
{
    let start = HarnessModel::fresh(
        iterations,
        message_size,
        negotiation_deadline,
        throughput_deadline,
        now,
    );
    if ops.len() > 0 {
        let head = ops.drop_last();
        lemma_timed_only_after_ready(
            iterations,
            message_size,
            negotiation_deadline,
            throughput_deadline,
            now,
            head,
        );
        let before = start.run(head);
        let end = start.run(ops);
        if end.phase == Phase::Ready || end.phase == Phase::Running || end.phase == Phase::Done {
            if before.phase == Phase::Ready || before.phase == Phase::Running || before.phase
                == Phase::Done {
                let i = choose|i: int|
                    0 <= i < head.len() && (#[trigger] head[i] matches HarnessOp::AwaitReadiness {
                        polled: Ok(Poll::Ready),
                        ..
                    });
                assert(ops[i] == head[i]);
            } else {
                assert(ops[ops.len() - 1] == ops.last());
            }
        }
    }
}

/// A deadline that has passed ends the run: a harness that negotiates and
/// is asked anything at a time past its negotiation deadline fails with
/// `NegotiationTimeout`, whatever the readiness gate would answer; in the timed phase
/// it fails with `ThroughputTimeout`.
pub proof fn lemma_deadline_ends_run(
    h: HarnessModel,
    polled: Result<Poll, BenchError>,
    channel_open: bool,
    len: nat,
    now: nat,
)
    requires
        h.wf(),
        later(h.clock, now) - h.opened_at > h.negotiation_deadline,
        later(h.clock, now) - h.started_at > h.throughput_deadline,
    ensures
        h.phase == Phase::Negotiating ==> h.after_polled(polled, now).phase == Phase::Failed(
            BenchError::NegotiationTimeout,
        ) && h.after_tick(now).phase == Phase::Failed(BenchError::NegotiationTimeout),
        h.phase == Phase::Running ==> h.after_send(channel_open, now).phase == Phase::Failed(
            BenchError::ThroughputTimeout,
        ) && h.after_receive(len, now).phase == Phase::Failed(BenchError::ThroughputTimeout)
            && h.after_tick(now).phase == Phase::Failed(BenchError::ThroughputTimeout),
{
}

} // verus!
