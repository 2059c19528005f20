//! Runs of session operations, and what holds of every run.

use crate::error::BenchError;
use crate::session::{in_order, CandidateMessage, ConnectionState, SessionModel, TransportSignal};
use vstd::prelude::*;

verus! {

/// One operation on a session, with what the host passes to it.
pub enum SessionOp {
    CreateOffer,
    CreateAnswer,
    SetLocalDescription(Vec<u8>),
    SetRemoteDescription(Vec<u8>),
    RemoteDescriptionApplied(bool),
    LocalCandidate,
    AddRemoteCandidate(CandidateMessage),
    CandidateApplied(bool),
    TransportSignal(TransportSignal),
    Observe,
    OpenDataChannel,
    ChannelAcknowledged,
    IncomingChannel,
    Close,
}

/// Where a session stands after a run of operations, with the candidates
/// that it took during the run and those that it gave out for the
/// transport, each in order.
pub struct SessionTrace {
    pub state: SessionModel,
    pub admitted: Seq<CandidateMessage>,
    pub released: Seq<CandidateMessage>,
}

impl SessionModel {
    /// The session after one operation.
    pub open spec fn after(self, op: SessionOp) -> SessionModel {
        match op {
            SessionOp::CreateOffer => self.after_create_offer(),
            SessionOp::CreateAnswer => self.after_create_answer(),
            SessionOp::SetLocalDescription(desc) => self.after_set_local_description(desc),
            SessionOp::SetRemoteDescription(desc) => self.after_set_remote_description(desc),
            SessionOp::RemoteDescriptionApplied(accepted) => self.after_remote_description_applied(
                accepted,
            ),
            SessionOp::LocalCandidate => self.after_local_candidate(),
            SessionOp::AddRemoteCandidate(candidate) => self.after_add_remote_candidate(candidate),
            SessionOp::CandidateApplied(accepted) => self.after_candidate_applied(accepted),
            SessionOp::TransportSignal(signal) => self.after_transport_signal(signal),
            SessionOp::Observe => self.after_observe(),
            SessionOp::OpenDataChannel => self.after_open_data_channel(),
            SessionOp::ChannelAcknowledged => self.after_channel_acknowledged(),
            SessionOp::IncomingChannel => self.after_incoming_channel(),
            SessionOp::Close => self.after_close(),
        }
    }

    /// The candidates that the session takes in one operation.
    pub open spec fn admitted_by(self, op: SessionOp) -> Seq<CandidateMessage> {
        match op {
            SessionOp::AddRemoteCandidate(candidate) if self.admits(candidate) => seq![candidate],
            _ => Seq::empty(),
        }
    }

    /// The candidates that one operation returns for the transport.
    pub open spec fn released_by(self, op: SessionOp) -> Seq<CandidateMessage> {
        match op {
            SessionOp::AddRemoteCandidate(candidate) => match self.add_remote_candidate_result(
                candidate,
            ) {
                Ok(Some(c)) => seq![c],
                _ => Seq::empty(),
            },
            SessionOp::RemoteDescriptionApplied(accepted) => match self.remote_description_result(
                accepted,
            ) {
                Ok(replay) => replay,
                Err(_) => Seq::empty(),
            },
            _ => Seq::empty(),
        }
    }

    /// Runs `ops` from this session, first to last.
    pub open spec fn run(self, ops: Seq<SessionOp>) -> SessionTrace
        decreases ops.len(),
    {
        if ops.len() == 0 {
            SessionTrace { state: self, admitted: Seq::empty(), released: Seq::empty() }
        } else {
            let before = self.run(ops.drop_last());
            SessionTrace {
                state: before.state.after(ops.last()),
                admitted: before.admitted + before.state.admitted_by(ops.last()),
                released: before.released + before.state.released_by(ops.last()),
            }
        }
    }
}

/// No operation breaks a session, changes who it is, or moves its
/// connection along anything but one of the permitted transitions.
pub proof fn lemma_step(s: SessionModel, op: SessionOp)
    requires
        s.wf(),
    ensures
        s.after(op).wf(),
        s.after(op).id == s.id,
        s.after(op).role == s.role,
        s.after(op).state == s.state || s.state.may_become(s.after(op).state),
{
}

/// The connection state only moves forward: whatever is done to a session,
/// its state never falls back, a connected or failed session stays so until
/// it is closed, and a closed session stays closed.
pub proof fn lemma_connection_state_monotonic(s: SessionModel, ops: Seq<SessionOp>)
    requires
        s.wf(),
    ensures
        s.run(ops).state.wf(),
        s.state.rank() <= s.run(ops).state.state.rank(),
        s.state == ConnectionState::Connected || s.state == ConnectionState::Failed ==> s.run(
            ops,
        ).state.state == s.state || s.run(ops).state.state == ConnectionState::Closed,
        s.state == ConnectionState::Closed ==> s.run(ops).state.state == ConnectionState::Closed,
    decreases ops.len(),
{
    if ops.len() > 0 {
        lemma_connection_state_monotonic(s, ops.drop_last());
        lemma_step(s.run(ops.drop_last()).state, ops.last());
    }
}

/// A second remote description is always refused: whatever became of the
/// first call, the call that follows it fails with the negotiation error and
/// leaves the session as the first call left it.
pub proof fn lemma_second_remote_description_refused(
    s: SessionModel,
    first: Vec<u8>,
    second: Vec<u8>,
)
    requires
        s.wf(),
    ensures
        in_order(s.after_set_remote_description(first).can_set_remote_description()) == Err::<
            (),
            BenchError,
        >(BenchError::NegotiationError),
        s.after_set_remote_description(first).after_set_remote_description(second)
            == s.after_set_remote_description(first),
{
}

/// A remote description that the transport has accepted is never replaced:
/// after any run of operations it is still the one that is set, and setting
/// another is still refused.
pub proof fn lemma_remote_description_kept(s: SessionModel, ops: Seq<SessionOp>)
    requires
        s.wf(),
        s.remote is Applied,
    ensures
        s.run(ops).state.remote == s.remote,
        !s.run(ops).state.can_set_remote_description(),
    decreases ops.len(),
{
    if ops.len() > 0 {
        lemma_remote_description_kept(s, ops.drop_last());
        lemma_connection_state_monotonic(s, ops.drop_last());
    }
}

/// No candidate is lost: whatever is done to a session and in whatever
/// order, the candidates that waited at the start followed by those taken
/// since are exactly those given out for the transport since followed by
/// those that still wait. Once the remote description is set none waits, so
/// every candidate taken has been given out, in the order of its arrival,
/// also those that came before the description.
pub proof fn lemma_candidates_conserved(s: SessionModel, ops: Seq<SessionOp>)
    requires
        s.wf(),
    ensures
        s.run(ops).state.wf(),
        s.pending + s.run(ops).admitted == s.run(ops).released + s.run(ops).state.pending,
        s.run(ops).state.remote is Applied ==> s.pending + s.run(ops).admitted == s.run(
            ops,
        ).released,
    decreases ops.len(),
{
    lemma_connection_state_monotonic(s, ops);
    if ops.len() == 0 {
        assert(s.pending + Seq::<CandidateMessage>::empty() =~= Seq::<CandidateMessage>::empty()
            + s.pending);
    } else {
        lemma_candidates_conserved(s, ops.drop_last());
        let before = s.run(ops.drop_last());
        let now = s.run(ops);
        let op = ops.last();
        assert(before.state.wf());
        assert(s.pending + now.admitted =~= (s.pending + before.admitted)
            + before.state.admitted_by(op));
        assert(now.released + now.state.pending =~= before.released + (before.state.released_by(
            op,
        ) + now.state.pending));
        assert(before.state.pending + before.state.admitted_by(op)
            =~= before.state.released_by(op) + now.state.pending);
        assert((before.released + before.state.pending) + before.state.admitted_by(op)
            =~= before.released + (before.state.pending + before.state.admitted_by(op)));
    }
    if s.run(ops).state.remote is Applied {
        assert(s.run(ops).released + s.run(ops).state.pending =~= s.run(ops).released);
    }
}

/// Candidates that come before the remote description are applied once it
/// arrives: when the transport accepts the staged description, the session
/// gives out exactly the candidates that it has kept, in the order of their
/// arrival, and keeps none; a candidate that it takes after that is given
/// out at once.
pub proof fn lemma_early_candidates_replayed(s: SessionModel, late: CandidateMessage)
    requires
        s.wf(),
        s.expects_remote_verdict(),
    ensures
        s.remote_description_result(true) == Ok::<Seq<CandidateMessage>, BenchError>(s.pending),
        s.after_remote_description_applied(true).pending.len() == 0,
        s.after_remote_description_applied(true).admits(late) ==> s.after_remote_description_applied(
            true,
        ).add_remote_candidate_result(late) == Ok::<Option<CandidateMessage>, BenchError>(
            Some(late),
        ),
{
}

} // verus!
