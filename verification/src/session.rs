//! The peer session: one endpoint's negotiation state machine.
//!
//! A session never touches its transport. Each operation checks that it comes
//! in order, records what it decides, and tells the host what to hand to the
//! transport; the host reports back what the transport answered.

use crate::error::BenchError;
use vstd::prelude::*;

verus! {

/// Which side of the offer/answer exchange a session plays.
#[derive(Clone, Copy, Debug, PartialEq, Eq, Structural)]
pub enum Role {
    Offerer,
    Answerer,
}

/// The connection state of a session.
#[derive(Clone, Copy, Debug, PartialEq, Eq, Structural)]
pub enum ConnectionState {
    New,
    Checking,
    Connected,
    Failed,
    Closed,
}

/// The transport's verdict on a connection that is being checked.
#[derive(Clone, Copy, Debug, PartialEq, Eq, Structural)]
pub enum TransportSignal {
    Connected,
    Failed,
}

/// One transition of a session's connection state, as its observer is told.
#[derive(Clone, Copy, Debug, PartialEq, Eq, Structural)]
pub struct StateChange {
    pub from: ConnectionState,
    pub to: ConnectionState,
}

/// A candidate on its way from the peer that found it to the other one. The
/// payload is relayed as it is.
pub struct CandidateMessage {
    /// The session that produced the candidate.
    pub origin: u64,
    /// How many candidates that session had produced before this one.
    pub ordinal: u64,
    pub payload: Vec<u8>,
}

/// A session's own description.
pub enum LocalDescription {
    Absent,
    /// The session has asked its transport for one.
    Requested,
    Created(Vec<u8>),
}

/// The description of the other peer.
pub enum RemoteDescription {
    Absent,
    /// Taken from the other peer, not yet accepted by the transport.
    Staged(Vec<u8>),
    /// Accepted by the transport.
    Applied(Vec<u8>),
}

/// How far a session's data channel has come.
#[derive(Clone, Copy, Debug, PartialEq, Eq, Structural)]
pub enum ChannelState {
    Absent,
    /// The initiating side has asked for it; the peer has not acknowledged yet.
    Requested,
    Open,
}

/// The open message pipe of a connected session.
#[derive(Clone, Copy, Debug, PartialEq, Eq, Structural)]
pub struct DataChannelHandle {
    pub owner: u64,
    pub open: bool,
}

impl Role {
    /// The other side of the pair.
    pub open spec fn peer(self) -> Role {
        match self {
            Role::Offerer => Role::Answerer,
            Role::Answerer => Role::Offerer,
        }
    }

    /// The other side of the pair.
    pub fn other(&self) -> (r: Role)
        ensures
            r == self.peer(),
    {
        match self {
            Role::Offerer => Role::Answerer,
            Role::Answerer => Role::Offerer,
        }
    }
}

impl ConnectionState {
    /// The transitions a connection may make: from `New` to `Checking`, from
    /// `Checking` to `Connected` or `Failed`, and from any state but `Closed`
    /// to `Closed`.
    pub open spec fn may_become(self, next: ConnectionState) -> bool {
        match (self, next) {
            (ConnectionState::New, ConnectionState::Checking) => true,
            (ConnectionState::Checking, ConnectionState::Connected) => true,
            (ConnectionState::Checking, ConnectionState::Failed) => true,
            (from, ConnectionState::Closed) => from != ConnectionState::Closed,
            _ => false,
        }
    }

    /// How far along its life a connection is. No transition lowers it.
    pub open spec fn rank(self) -> nat {
        match self {
            ConnectionState::New => 0,
            ConnectionState::Checking => 1,
            ConnectionState::Connected => 2,
            ConnectionState::Failed => 2,
            ConnectionState::Closed => 3,
        }
    }
}

impl TransportSignal {
    /// The connection state that the signal decides on.
    pub open spec fn outcome(self) -> ConnectionState {
        match self {
            TransportSignal::Connected => ConnectionState::Connected,
            TransportSignal::Failed => ConnectionState::Failed,
        }
    }
}

/// `Ok` where an operation came in order, the negotiation error where it did not.
pub open spec fn in_order(ok: bool) -> Result<(), BenchError> {
    if ok {
        Ok(())
    } else {
        Err(BenchError::NegotiationError)
    }
}

/// A session as the contracts speak of it.
pub struct SessionModel {
    pub id: u64,
    pub role: Role,
    pub state: ConnectionState,
    pub local: LocalDescription,
    pub remote: RemoteDescription,
    /// Candidates that arrived before the remote description was set, oldest first.
    pub pending: Seq<CandidateMessage>,
    /// Candidates handed to the transport whose result has not come back.
    pub awaiting: nat,
    /// Candidates of its own that the session has sent out.
    pub produced: nat,
    pub channel: ChannelState,
    /// Whether an observer of the connection state is registered.
    pub observed: bool,
}

impl SessionModel {
    /// What holds of every session: nothing waits in the buffer once the
    /// remote description is set, the transport is given candidates only
    /// after that, a connection is checked only after that, only the
    /// initiating side requests a channel, an answer is made only to an offer,
    /// a closed session has no channel, and the counters fit their fields.
    pub open spec fn wf(self) -> bool {
        &&& self.remote is Applied ==> self.pending.len() == 0
        &&& self.awaiting > 0 ==> self.remote is Applied
        &&& (self.state == ConnectionState::Checking || self.state == ConnectionState::Connected
            || self.state == ConnectionState::Failed) ==> self.remote is Applied
        &&& self.channel == ChannelState::Requested ==> self.role == Role::Offerer
        &&& (self.role == Role::Answerer && !(self.local is Absent)) ==> self.remote is Applied
        &&& self.state == ConnectionState::Closed ==> self.channel == ChannelState::Absent
        &&& self.awaiting + self.pending.len() <= u64::MAX
        &&& self.produced <= u64::MAX
    }

    /// The session that `PeerSession::new` makes.
    pub open spec fn fresh(id: u64, role: Role) -> SessionModel {
        SessionModel {
            id,
            role,
            state: ConnectionState::New,
            local: LocalDescription::Absent,
            remote: RemoteDescription::Absent,
            pending: Seq::empty(),
            awaiting: 0,
            produced: 0,
            channel: ChannelState::Absent,
            observed: false,
        }
    }

    pub open spec fn is_closed(self) -> bool {
        self.state == ConnectionState::Closed
    }

    /// What the observer is told of a move from the present state to `to`:
    /// the change, if there is an observer.
    pub open spec fn notice(self, to: ConnectionState) -> Option<StateChange> {
        if self.observed {
            Some(StateChange { from: self.state, to })
        } else {
            None
        }
    }

    // ---- descriptions ----
    /// An offer may be asked for by the offering side, once, while the session lives.
    pub open spec fn can_create_offer(self) -> bool {
        !self.is_closed() && self.role == Role::Offerer && self.local is Absent
    }

    /// An answer may be asked for by the answering side, once, after the
    /// remote offer has been set.
    pub open spec fn can_create_answer(self) -> bool {
        !self.is_closed() && self.role == Role::Answerer && self.local is Absent
            && self.remote is Applied
    }

    pub open spec fn after_create_offer(self) -> SessionModel {
        if self.can_create_offer() {
            SessionModel { local: LocalDescription::Requested, ..self }
        } else {
            self
        }
    }

    pub open spec fn after_create_answer(self) -> SessionModel {
        if self.can_create_answer() {
            SessionModel { local: LocalDescription::Requested, ..self }
        } else {
            self
        }
    }

    /// The transport's description is taken once, after it was asked for.
    pub open spec fn can_set_local_description(self) -> bool {
        !self.is_closed() && self.local is Requested
    }

    pub open spec fn after_set_local_description(self, desc: Vec<u8>) -> SessionModel {
        if self.can_set_local_description() {
            SessionModel { local: LocalDescription::Created(desc), ..self }
        } else {
            self
        }
    }

    /// A remote description is taken only while none is staged or set; the
    /// offering side takes one only after its own offer.
    pub open spec fn can_set_remote_description(self) -> bool {
        !self.is_closed() && self.remote is Absent && (self.role == Role::Answerer
            || self.local is Created)
    }

    pub open spec fn after_set_remote_description(self, desc: Vec<u8>) -> SessionModel {
        if self.can_set_remote_description() {
            SessionModel { remote: RemoteDescription::Staged(desc), ..self }
        } else {
            self
        }
    }

    /// The transport's answer to a remote description is expected only while
    /// one is staged.
    pub open spec fn expects_remote_verdict(self) -> bool {
        !self.is_closed() && self.remote is Staged
    }

    /// An accepted description is set, and the buffered candidates leave for
    /// the transport; a refused one is forgotten.
    pub open spec fn after_remote_description_applied(self, accepted: bool) -> SessionModel {
        if !self.expects_remote_verdict() {
            self
        } else if accepted {
            SessionModel {
                remote: RemoteDescription::Applied(self.remote->Staged_0),
                pending: Seq::empty(),
                awaiting: self.awaiting + self.pending.len(),
                ..self
            }
        } else {
            SessionModel { remote: RemoteDescription::Absent, ..self }
        }
    }

    /// The candidates to hand to the transport when the staged description
    /// was accepted: all that were buffered, in the order of their arrival.
    pub open spec fn remote_description_result(self, accepted: bool) -> Result<
        Seq<CandidateMessage>,
        BenchError,
    > {
        if self.expects_remote_verdict() && accepted {
            Ok(self.pending)
        } else {
            Err(BenchError::NegotiationError)
        }
    }

    // ---- candidates ----
    /// A session sends out candidates of its own once it has its description.
    pub open spec fn can_produce_candidate(self) -> bool {
        !self.is_closed() && self.local is Created && self.produced < u64::MAX
    }

    pub open spec fn after_local_candidate(self) -> SessionModel {
        if self.can_produce_candidate() {
            SessionModel { produced: self.produced + 1, ..self }
        } else {
            self
        }
    }

    /// A session takes a candidate unless it is closed, the candidate is one
    /// of its own, or it already holds as many unsettled candidates as it
    /// can count.
    pub open spec fn admits(self, candidate: CandidateMessage) -> bool {
        !self.is_closed() && candidate.origin != self.id && self.awaiting + self.pending.len()
            < u64::MAX
    }

    /// A candidate that is taken goes to the transport where the remote
    /// description is set, and into the buffer where it is not.
    pub open spec fn after_add_remote_candidate(self, candidate: CandidateMessage) -> SessionModel {
        if !self.admits(candidate) {
            self
        } else if self.remote is Applied {
            SessionModel { awaiting: self.awaiting + 1, ..self }
        } else {
            SessionModel { pending: self.pending.push(candidate), ..self }
        }
    }

    pub open spec fn add_remote_candidate_result(self, candidate: CandidateMessage) -> Result<
        Option<CandidateMessage>,
        BenchError,
    > {
        if !self.admits(candidate) {
            Err(BenchError::NegotiationError)
        } else if self.remote is Applied {
            Ok(Some(candidate))
        } else {
            Ok(None)
        }
    }

    /// The transport's answer to a candidate is expected only while one is out.
    pub open spec fn expects_candidate_verdict(self) -> bool {
        !self.is_closed() && self.awaiting > 0
    }

    /// The first candidate that the transport accepts starts the checking.
    pub open spec fn starts_checking(self, accepted: bool) -> bool {
        self.expects_candidate_verdict() && accepted && self.state == ConnectionState::New
    }

    pub open spec fn after_candidate_applied(self, accepted: bool) -> SessionModel {
        if !self.expects_candidate_verdict() {
            self
        } else {
            SessionModel {
                awaiting: (self.awaiting - 1) as nat,
                state: if self.starts_checking(accepted) {
                    ConnectionState::Checking
                } else {
                    self.state
                },
                ..self
            }
        }
    }

    pub open spec fn candidate_applied_result(self, accepted: bool) -> Result<
        Option<StateChange>,
        BenchError,
    > {
        if !self.expects_candidate_verdict() || !accepted {
            Err(BenchError::NegotiationError)
        } else if self.starts_checking(accepted) {
            Ok(self.notice(ConnectionState::Checking))
        } else {
            Ok(None)
        }
    }

    // ---- connection state ----
    /// The transport's signal decides a connection that is being checked, and
    /// no other: the first signal stands.
    pub open spec fn heeds_signal(self) -> bool {
        self.state == ConnectionState::Checking
    }

    pub open spec fn after_transport_signal(self, signal: TransportSignal) -> SessionModel {
        if self.heeds_signal() {
            SessionModel { state: signal.outcome(), ..self }
        } else {
            self
        }
    }

    pub open spec fn transport_signal_result(self, signal: TransportSignal) -> Option<
        StateChange,
    > {
        if self.heeds_signal() {
            self.notice(signal.outcome())
        } else {
            None
        }
    }

    /// One observer may be registered, while the session lives.
    pub open spec fn can_observe(self) -> bool {
        !self.is_closed() && !self.observed
    }

    pub open spec fn after_observe(self) -> SessionModel {
        if self.can_observe() {
            SessionModel { observed: true, ..self }
        } else {
            self
        }
    }

    /// Closing ends the session and its channel. What was negotiated stays
    /// on record.
    pub open spec fn after_close(self) -> SessionModel {
        if self.is_closed() {
            self
        } else {
            SessionModel { state: ConnectionState::Closed, channel: ChannelState::Absent, ..self }
        }
    }

    pub open spec fn close_result(self) -> Option<StateChange> {
        if self.is_closed() {
            None
        } else {
            self.notice(ConnectionState::Closed)
        }
    }

    // ---- data channel ----
    /// The initiating side asks for the channel, once.
    pub open spec fn can_open_data_channel(self) -> bool {
        !self.is_closed() && self.role == Role::Offerer && self.channel == ChannelState::Absent
    }

    pub open spec fn after_open_data_channel(self) -> SessionModel {
        if self.can_open_data_channel() {
            SessionModel { channel: ChannelState::Requested, ..self }
        } else {
            self
        }
    }

    /// The peer's acknowledgement opens a channel that was asked for.
    pub open spec fn can_acknowledge_channel(self) -> bool {
        !self.is_closed() && self.channel == ChannelState::Requested
    }

    pub open spec fn after_channel_acknowledged(self) -> SessionModel {
        if self.can_acknowledge_channel() {
            SessionModel { channel: ChannelState::Open, ..self }
        } else {
            self
        }
    }

    /// The responding side is given its channel by the transport, once.
    pub open spec fn can_accept_channel(self) -> bool {
        !self.is_closed() && self.role == Role::Answerer && self.channel == ChannelState::Absent
    }

    pub open spec fn after_incoming_channel(self) -> SessionModel {
        if self.can_accept_channel() {
            SessionModel { channel: ChannelState::Open, ..self }
        } else {
            self
        }
    }

    /// The handle of the session's channel: there is one while the session is
    /// connected and its channel is open.
    pub open spec fn data_channel(self) -> Option<DataChannelHandle> {
        if self.state == ConnectionState::Connected && self.channel == ChannelState::Open {
            Some(DataChannelHandle { owner: self.id, open: true })
        } else {
            None
        }
    }
}

/// One endpoint of a session pair.
pub struct PeerSession {
    id: u64,
    role: Role,
    state: ConnectionState,
    local: LocalDescription,
    remote: RemoteDescription,
    pending: Vec<CandidateMessage>,
    awaiting: u64,
    produced: u64,
    channel: ChannelState,
    observed: bool,
}

impl View for PeerSession {
    type V = SessionModel;

    closed spec fn view(&self) -> SessionModel {
        SessionModel {
            id: self.id,
            role: self.role,
            state: self.state,
            local: self.local,
            remote: self.remote,
            pending: self.pending@,
            awaiting: self.awaiting as nat,
            produced: self.produced as nat,
            channel: self.channel,
            observed: self.observed,
        }
    }
}

impl PeerSession {
    /// A new session: nothing negotiated, no candidate seen, no channel.
    pub fn new(id: u64, role: Role) -> (r: PeerSession)
        ensures
            r@ == SessionModel::fresh(id, role),
            r@.wf(),
    {
        PeerSession {
            id,
            role,
            state: ConnectionState::New,
            local: LocalDescription::Absent,
            remote: RemoteDescription::Absent,
            pending: Vec::new(),
            awaiting: 0,
            produced: 0,
            channel: ChannelState::Absent,
            observed: false,
        }
    }

    fn closed(&self) -> (r: bool)
        ensures
            r == self@.is_closed(),
    {
        self.state == ConnectionState::Closed
    }

    fn local_is_absent(&self) -> (r: bool)
        ensures
            r == (self@.local is Absent),
    {
        match self.local {
            LocalDescription::Absent => true,
            _ => false,
        }
    }

    fn local_is_created(&self) -> (r: bool)
        ensures
            r == (self@.local is Created),
    {
        match self.local {
            LocalDescription::Created(_) => true,
            _ => false,
        }
    }

    fn remote_is_applied(&self) -> (r: bool)
        ensures
            r == (self@.remote is Applied),
    {
        match self.remote {
            RemoteDescription::Applied(_) => true,
            _ => false,
        }
    }

    /// Records that the offering side asks its transport for an offer. Fails
    /// on the answering side, on a second request and on a closed session.
    pub fn create_offer(&mut self) -> (r: Result<(), BenchError>)
        requires
            old(self)@.wf(),
        ensures
            final(self)@.wf(),
            final(self)@ == old(self)@.after_create_offer(),
            r == in_order(old(self)@.can_create_offer()),
    {
        if !self.closed() && self.role == Role::Offerer && self.local_is_absent() {
            self.local = LocalDescription::Requested;
            Ok(())
        } else {
            Err(BenchError::NegotiationError)
        }
    }

    /// Records that the answering side asks its transport for an answer.
    /// Fails before the remote offer is set, on the offering side, on a
    /// second request and on a closed session.
    pub fn create_answer(&mut self) -> (r: Result<(), BenchError>)
        requires
            old(self)@.wf(),
        ensures
            final(self)@.wf(),
            final(self)@ == old(self)@.after_create_answer(),
            r == in_order(old(self)@.can_create_answer()),
    {
        if !self.closed() && self.role == Role::Answerer && self.local_is_absent()
            && self.remote_is_applied() {
            self.local = LocalDescription::Requested;
            Ok(())
        } else {
            Err(BenchError::NegotiationError)
        }
    }

    /// Takes the description that the transport produced for the offer or
    /// answer asked for. Fails where none was asked for or one is already held.
    pub fn set_local_description(&mut self, desc: Vec<u8>) -> (r: Result<(), BenchError>)
        requires
            old(self)@.wf(),
        ensures
            final(self)@.wf(),
            final(self)@ == old(self)@.after_set_local_description(desc),
            r == in_order(old(self)@.can_set_local_description()),
    {
        let requested = match self.local {
            LocalDescription::Requested => true,
            _ => false,
        };
        if !self.closed() && requested {
            self.local = LocalDescription::Created(desc);
            Ok(())
        } else {
            Err(BenchError::NegotiationError)
        }
    }

    /// Stages the other peer's description for the transport. Fails, and
    /// keeps what it has, where a remote description is already staged or
    /// set, where the offering side has not made its offer yet, and on a
    /// closed session.
    pub fn set_remote_description(&mut self, desc: Vec<u8>) -> (r: Result<(), BenchError>)
        requires
            old(self)@.wf(),
        ensures
            final(self)@.wf(),
            final(self)@ == old(self)@.after_set_remote_description(desc),
            r == in_order(old(self)@.can_set_remote_description()),
    {
        let absent = match self.remote {
            RemoteDescription::Absent => true,
            _ => false,
        };
        if !self.closed() && absent && (self.role == Role::Answerer || self.local_is_created()) {
            self.remote = RemoteDescription::Staged(desc);
            Ok(())
        } else {
            Err(BenchError::NegotiationError)
        }
    }

    /// Takes the transport's answer to the staged description. An accepted
    /// description is set, and the candidates that arrived before it are
    /// returned for the transport, in the order of their arrival. A refused
    /// one is dropped as malformed. Fails, and changes nothing, where no
    /// description is staged.
    pub fn remote_description_applied(&mut self, accepted: bool) -> (r: Result<
        Vec<CandidateMessage>,
        BenchError,
    >)
        requires
            old(self)@.wf(),
        ensures
            final(self)@.wf(),
            final(self)@ == old(self)@.after_remote_description_applied(accepted),
            match r {
                Ok(replay) => old(self)@.remote_description_result(accepted) == Ok::<
                    Seq<CandidateMessage>,
                    BenchError,
                >(replay@),
                Err(e) => old(self)@.remote_description_result(accepted) == Err::<
                    Seq<CandidateMessage>,
                    BenchError,
                >(e),
            },
    {
        if self.closed() {
            return Err(BenchError::NegotiationError);
        }
        let mut staged = RemoteDescription::Absent;
        std::mem::swap(&mut self.remote, &mut staged);
        match staged {
            RemoteDescription::Staged(desc) => {
                if accepted {
                    self.remote = RemoteDescription::Applied(desc);
                    let mut replay: Vec<CandidateMessage> = Vec::new();
                    std::mem::swap(&mut self.pending, &mut replay);
                    assert(self.pending@ =~= Seq::<CandidateMessage>::empty());
                    let n: usize = replay.len();
                    self.awaiting = self.awaiting + (n as u64);
                    Ok(replay)
                } else {
                    Err(BenchError::NegotiationError)
                }
            },
            other => {
                self.remote = other;
                Err(BenchError::NegotiationError)
            },
        }
    }

    /// The description that is staged or set, for the host to hand to the transport.
    pub fn remote_description(&self) -> (r: Option<&Vec<u8>>)
        ensures
            match self@.remote {
                RemoteDescription::Absent => r is None,
                RemoteDescription::Staged(d) => r == Some(&d),
                RemoteDescription::Applied(d) => r == Some(&d),
            },
    {
        match &self.remote {
            RemoteDescription::Absent => None,
            RemoteDescription::Staged(d) => Some(d),
            RemoteDescription::Applied(d) => Some(d),
        }
    }

    /// The session's own description, once the transport has produced it.
    pub fn local_description(&self) -> (r: Option<&Vec<u8>>)
        ensures
            match self@.local {
                LocalDescription::Created(d) => r == Some(&d),
                _ => r is None,
            },
    {
        match &self.local {
            LocalDescription::Created(d) => Some(d),
            _ => None,
        }
    }

    /// Stamps a candidate that the transport found with the session's id and
    /// the number of candidates sent before it. Fails before the session has
    /// its own description and on a closed session.
    pub fn local_candidate(&mut self, payload: Vec<u8>) -> (r: Result<
        CandidateMessage,
        BenchError,
    >)
        requires
            old(self)@.wf(),
        ensures
            final(self)@.wf(),
            final(self)@ == old(self)@.after_local_candidate(),
            match r {
                Ok(c) => old(self)@.can_produce_candidate() && c == (CandidateMessage {
                    origin: old(self)@.id,
                    ordinal: old(self)@.produced as u64,
                    payload,
                }),
                Err(e) => !old(self)@.can_produce_candidate() && e == BenchError::NegotiationError,
            },
    {
        if !self.closed() && self.local_is_created() && self.produced < u64::MAX {
            let ordinal: u64 = self.produced;
            self.produced = self.produced + 1;
            Ok(CandidateMessage { origin: self.id, ordinal, payload })
        } else {
            Err(BenchError::NegotiationError)
        }
    }

    /// Takes a candidate of the other peer. With the remote description set
    /// it is returned for the transport; before that it is kept, to be
    /// returned when the description is set. Fails, and keeps nothing, on a
    /// closed session and for a candidate that names this session as its origin.
    pub fn add_remote_candidate(&mut self, candidate: CandidateMessage) -> (r: Result<
        Option<CandidateMessage>,
        BenchError,
    >)
        requires
            old(self)@.wf(),
        ensures
            final(self)@.wf(),
            final(self)@ == old(self)@.after_add_remote_candidate(candidate),
            r == old(self)@.add_remote_candidate_result(candidate),
    {
        let buffered: usize = self.pending.len();
        if self.closed() || candidate.origin == self.id || self.awaiting >= u64::MAX - (
        buffered as u64) {
            return Err(BenchError::NegotiationError);
        }
        if self.remote_is_applied() {
            self.awaiting = self.awaiting + 1;
            Ok(Some(candidate))
        } else {
            self.pending.push(candidate);
            Ok(None)
        }
    }

    /// Takes the transport's answer to one candidate handed to it. The first
    /// accepted candidate moves a new session to `Checking`. A refused
    /// candidate is reported as a negotiation error and changes no state.
    /// Fails where no answer is due.
    pub fn candidate_applied(&mut self, accepted: bool) -> (r: Result<
        Option<StateChange>,
        BenchError,
    >)
        requires
            old(self)@.wf(),
        ensures
            final(self)@.wf(),
            final(self)@ == old(self)@.after_candidate_applied(accepted),
            r == old(self)@.candidate_applied_result(accepted),
    {
        if self.closed() || self.awaiting == 0 {
            return Err(BenchError::NegotiationError);
        }
        self.awaiting = self.awaiting - 1;
        if !accepted {
            Err(BenchError::NegotiationError)
        } else if self.state == ConnectionState::New {
            let change = self.announce(ConnectionState::Checking);
            self.state = ConnectionState::Checking;
            Ok(change)
        } else {
            Ok(None)
        }
    }

    fn announce(&self, to: ConnectionState) -> (r: Option<StateChange>)
        ensures
            r == self@.notice(to),
    {
        if self.observed {
            Some(StateChange { from: self.state, to })
        } else {
            None
        }
    }

    /// Takes the transport's verdict on the connection. It decides a
    /// connection that is being checked; in any other state it is ignored, so
    /// the first verdict stands.
    pub fn transport_signal(&mut self, signal: TransportSignal) -> (r: Option<StateChange>)
        requires
            old(self)@.wf(),
        ensures
            final(self)@.wf(),
            final(self)@ == old(self)@.after_transport_signal(signal),
            r == old(self)@.transport_signal_result(signal),
    {
        if self.state == ConnectionState::Checking {
            let to = match signal {
                TransportSignal::Connected => ConnectionState::Connected,
                TransportSignal::Failed => ConnectionState::Failed,
            };
            let change = self.announce(to);
            self.state = to;
            change
        } else {
            None
        }
    }

    /// Registers the observer of the connection state: from now on every
    /// operation that changes the state returns the change. Fails where an
    /// observer is registered already and on a closed session.
    pub fn on_connection_state_changed(&mut self) -> (r: Result<(), BenchError>)
        requires
            old(self)@.wf(),
        ensures
            final(self)@.wf(),
            final(self)@ == old(self)@.after_observe(),
            r == in_order(old(self)@.can_observe()),
    {
        if !self.closed() && !self.observed {
            self.observed = true;
            Ok(())
        } else {
            Err(BenchError::NegotiationError)
        }
    }

    /// Asks for the data channel, on the initiating side, once.
    pub fn open_data_channel(&mut self) -> (r: Result<(), BenchError>)
        requires
            old(self)@.wf(),
        ensures
            final(self)@.wf(),
            final(self)@ == old(self)@.after_open_data_channel(),
            r == in_order(old(self)@.can_open_data_channel()),
    {
        if !self.closed() && self.role == Role::Offerer && self.channel == ChannelState::Absent {
            self.channel = ChannelState::Requested;
            Ok(())
        } else {
            Err(BenchError::NegotiationError)
        }
    }

    /// Records that the peer has acknowledged the channel asked for.
    pub fn channel_acknowledged(&mut self) -> (r: Result<(), BenchError>)
        requires
            old(self)@.wf(),
        ensures
            final(self)@.wf(),
            final(self)@ == old(self)@.after_channel_acknowledged(),
            r == in_order(old(self)@.can_acknowledge_channel()),
    {
        if !self.closed() && self.channel == ChannelState::Requested {
            self.channel = ChannelState::Open;
            Ok(())
        } else {
            Err(BenchError::NegotiationError)
        }
    }

    /// Records that the transport has handed the responding side its channel.
    pub fn incoming_channel(&mut self) -> (r: Result<(), BenchError>)
        requires
            old(self)@.wf(),
        ensures
            final(self)@.wf(),
            final(self)@ == old(self)@.after_incoming_channel(),
            r == in_order(old(self)@.can_accept_channel()),
    {
        if !self.closed() && self.role == Role::Answerer && self.channel == ChannelState::Absent {
            self.channel = ChannelState::Open;
            Ok(())
        } else {
            Err(BenchError::NegotiationError)
        }
    }

    /// The handle of the data channel, while the session is connected and
    /// the channel is open.
    pub fn data_channel(&self) -> (r: Option<DataChannelHandle>)
        ensures
            r == self@.data_channel(),
    {
        if self.state == ConnectionState::Connected && self.channel == ChannelState::Open {
            Some(DataChannelHandle { owner: self.id, open: true })
        } else {
            None
        }
    }

    /// Ends the session and its channel. Closing a closed session changes nothing.
    pub fn close(&mut self) -> (r: Option<StateChange>)
        requires
            old(self)@.wf(),
        ensures
            final(self)@.wf(),
            final(self)@ == old(self)@.after_close(),
            r == old(self)@.close_result(),
    {
        if self.closed() {
            None
        } else {
            let change = self.announce(ConnectionState::Closed);
            self.state = ConnectionState::Closed;
            self.channel = ChannelState::Absent;
            change
        }
    }

    pub fn id(&self) -> (r: u64)
        ensures
            r == self@.id,
    {
        self.id
    }

    pub fn role(&self) -> (r: Role)
        ensures
            r == self@.role,
    {
        self.role
    }

    pub fn connection_state(&self) -> (r: ConnectionState)
        ensures
            r == self@.state,
    {
        self.state
    }

    /// The number of candidates that wait for the remote description.
    pub fn pending_candidates(&self) -> (r: usize)
        ensures
            r == self@.pending.len(),
    {
        self.pending.len()
    }
}

} // verus!
