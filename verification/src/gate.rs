//! The readiness gate: the benchmark may start once both peers are connected
//! and both data channels are open, and must not wait for that in vain.

use crate::error::BenchError;
use crate::session::{ConnectionState, Role};
use vstd::prelude::*;

verus! {

/// A notification that is given once: unresolved, or resolved for good with
/// the outcome it was given.
#[derive(Clone, Copy, Debug, PartialEq, Eq, Structural)]
pub struct OneShot {
    pub outcome: Option<bool>,
}

/// Where a condition on both peers stands.
#[derive(Clone, Copy, Debug, PartialEq, Eq, Structural)]
pub enum Readiness {
    /// Neither peer has failed, and at least one has not reported yet.
    Pending,
    /// Both peers have reported success.
    Ready,
    /// A peer has reported failure.
    Failed,
}

/// What polling a gate yields while nothing has gone wrong.
#[derive(Clone, Copy, Debug, PartialEq, Eq, Structural)]
pub enum Poll {
    Pending,
    Ready,
}

/// One condition, joined over the one-shot notifications of the two peers.
#[derive(Clone, Copy, Debug, PartialEq, Eq, Structural)]
pub struct Join {
    pub offerer: OneShot,
    pub answerer: OneShot,
}

impl OneShot {
    pub open spec fn unresolved() -> OneShot {
        OneShot { outcome: None }
    }

    /// The notification after an attempt to resolve it: the first outcome stands.
    pub open spec fn after_resolve(self, ok: bool) -> OneShot {
        if self.outcome is None {
            OneShot { outcome: Some(ok) }
        } else {
            self
        }
    }

    /// Resolving succeeds once.
    pub open spec fn resolve_result(self) -> Result<(), BenchError> {
        if self.outcome is None {
            Ok(())
        } else {
            Err(BenchError::AlreadyResolved)
        }
    }

    /// A notification that nobody has resolved yet.
    pub fn new() -> (r: OneShot)
        ensures
            r == OneShot::unresolved(),
    {
        OneShot { outcome: None }
    }

    /// Resolves the notification with `ok`. A second resolution fails and
    /// leaves the first outcome in place.
    pub fn resolve(&mut self, ok: bool) -> (r: Result<(), BenchError>)
        ensures
            *final(self) == old(self).after_resolve(ok),
            r == old(self).resolve_result(),
    {
        match self.outcome {
            None => {
                self.outcome = Some(ok);
                Ok(())
            },
            Some(_) => Err(BenchError::AlreadyResolved),
        }
    }
}

impl Join {
    pub open spec fn unresolved() -> Join {
        Join { offerer: OneShot::unresolved(), answerer: OneShot::unresolved() }
    }

    /// The notification of one peer.
    pub open spec fn slot(self, peer: Role) -> OneShot {
        match peer {
            Role::Offerer => self.offerer,
            Role::Answerer => self.answerer,
        }
    }

    /// A failure of either peer decides at once; success needs both.
    pub open spec fn status(self) -> Readiness {
        if self.offerer.outcome == Some(false) || self.answerer.outcome == Some(false) {
            Readiness::Failed
        } else if self.offerer.outcome == Some(true) && self.answerer.outcome == Some(true) {
            Readiness::Ready
        } else {
            Readiness::Pending
        }
    }

    pub open spec fn after_notify(self, peer: Role, ok: bool) -> Join {
        match peer {
            Role::Offerer => Join { offerer: self.offerer.after_resolve(ok), ..self },
            Role::Answerer => Join { answerer: self.answerer.after_resolve(ok), ..self },
        }
    }

    pub fn new() -> (r: Join)
        ensures
            r == Join::unresolved(),
    {
        Join { offerer: OneShot::new(), answerer: OneShot::new() }
    }

    /// Resolves the notification of `peer`. Fails where that peer has
    /// reported before.
    pub fn notify(&mut self, peer: Role, ok: bool) -> (r: Result<(), BenchError>)
        ensures
            *final(self) == old(self).after_notify(peer, ok),
            r == old(self).slot(peer).resolve_result(),
    {
        match peer {
            Role::Offerer => self.offerer.resolve(ok),
            Role::Answerer => self.answerer.resolve(ok),
        }
    }

    /// Where the condition stands now.
    pub fn check(&self) -> (r: Readiness)
        ensures
            r == self.status(),
    {
        let offerer = self.offerer.outcome;
        let answerer = self.answerer.outcome;
        match (offerer, answerer) {
            (Some(false), _) => Readiness::Failed,
            (_, Some(false)) => Readiness::Failed,
            (Some(true), Some(true)) => Readiness::Ready,
            _ => Readiness::Pending,
        }
    }
}

/// A gate as the contracts speak of it.
pub struct GateModel {
    /// Both connection states are `Connected`.
    pub connected: Join,
    /// Both data channels are open.
    pub channels: Join,
    /// Whether the readiness gate has given out its resolution.
    pub resolved: bool,
}

impl GateModel {
    pub open spec fn fresh() -> GateModel {
        GateModel { connected: Join::unresolved(), channels: Join::unresolved(), resolved: false }
    }

    /// How the readiness gate resolves, once it can: in failure as soon as a peer has
    /// failed to connect or to open its channel, in success when both
    /// conditions are met.
    pub open spec fn outcome(self) -> Option<Result<(), BenchError>> {
        if self.connected.status() == Readiness::Failed {
            Some(Err(BenchError::ConnectionFailed))
        } else if self.channels.status() == Readiness::Failed {
            Some(Err(BenchError::ChannelNotOpen))
        } else if self.connected.status() == Readiness::Ready && self.channels.status()
            == Readiness::Ready {
            Some(Ok(()))
        } else {
            None
        }
    }

    /// What a connection state tells the readiness gate: `Connected` and `Failed`
    /// resolve the peer's notification, the other states say nothing.
    pub open spec fn verdict_of(state: ConnectionState) -> Option<bool> {
        match state {
            ConnectionState::Connected => Some(true),
            ConnectionState::Failed => Some(false),
            _ => None,
        }
    }

    pub open spec fn after_connection_changed(self, peer: Role, state: ConnectionState) -> GateModel {
        match GateModel::verdict_of(state) {
            Some(ok) => GateModel { connected: self.connected.after_notify(peer, ok), ..self },
            None => self,
        }
    }

    pub open spec fn connection_changed_result(self, peer: Role, state: ConnectionState) -> Result<
        (),
        BenchError,
    > {
        if GateModel::verdict_of(state) is Some {
            self.connected.slot(peer).resolve_result()
        } else {
            Ok(())
        }
    }

    pub open spec fn after_channel_changed(self, peer: Role, open: bool) -> GateModel {
        GateModel { channels: self.channels.after_notify(peer, open), ..self }
    }

    /// Polling gives the resolution out once.
    pub open spec fn after_poll(self) -> GateModel {
        if !self.resolved && self.outcome() is Some {
            GateModel { resolved: true, ..self }
        } else {
            self
        }
    }

    pub open spec fn poll_result(self) -> Result<Poll, BenchError> {
        if self.resolved {
            Err(BenchError::AlreadyResolved)
        } else {
            match self.outcome() {
                None => Ok(Poll::Pending),
                Some(Ok(())) => Ok(Poll::Ready),
                Some(Err(e)) => Err(e),
            }
        }
    }
}

/// The readiness gate between negotiation and the timed phase.
pub struct ReadinessGate {
    connected: Join,
    channels: Join,
    resolved: bool,
}

impl View for ReadinessGate {
    type V = GateModel;

    closed spec fn view(&self) -> GateModel {
        GateModel { connected: self.connected, channels: self.channels, resolved: self.resolved }
    }
}

impl ReadinessGate {
    /// A gate to which no peer has reported.
    pub fn new() -> (r: ReadinessGate)
        ensures
            r@ == GateModel::fresh(),
    {
        ReadinessGate { connected: Join::new(), channels: Join::new(), resolved: false }
    }

    /// Tells the readiness gate of a peer's connection state. `Connected` and `Failed`
    /// resolve that peer's notification, and fail where it was resolved
    /// before; any other state is passed over.
    pub fn connection_changed(&mut self, peer: Role, state: ConnectionState) -> (r: Result<
        (),
        BenchError,
    >)
        ensures
            final(self)@ == old(self)@.after_connection_changed(peer, state),
            r == old(self)@.connection_changed_result(peer, state),
    {
        match state {
            ConnectionState::Connected => self.connected.notify(peer, true),
            ConnectionState::Failed => self.connected.notify(peer, false),
            _ => Ok(()),
        }
    }

    /// Tells the readiness gate that a peer's data channel has opened, or that it will
    /// not. Fails where that peer's channel has been reported before.
    pub fn channel_changed(&mut self, peer: Role, open: bool) -> (r: Result<(), BenchError>)
        ensures
            final(self)@ == old(self)@.after_channel_changed(peer, open),
            r == old(self)@.channels.slot(peer).resolve_result(),
    {
        self.channels.notify(peer, open)
    }

    /// Asks whether the readiness gate has resolved. It never blocks: while a peer is
    /// outstanding and none has failed it answers `Pending`. The resolution
    /// is given out once, `Ready` or the failure; after that every poll
    /// fails with `AlreadyResolved`.
    pub fn poll(&mut self) -> (r: Result<Poll, BenchError>)
        ensures
            final(self)@ == old(self)@.after_poll(),
            r == old(self)@.poll_result(),
    {
        if self.resolved {
            return Err(BenchError::AlreadyResolved);
        }
        match self.connected.check() {
            Readiness::Failed => {
                self.resolved = true;
                Err(BenchError::ConnectionFailed)
            },
            connected => match self.channels.check() {
                Readiness::Failed => {
                    self.resolved = true;
                    Err(BenchError::ChannelNotOpen)
                },
                Readiness::Ready => {
                    if connected == Readiness::Ready {
                        self.resolved = true;
                        Ok(Poll::Ready)
                    } else {
                        Ok(Poll::Pending)
                    }
                },
                Readiness::Pending => Ok(Poll::Pending),
            },
        }
    }

    /// True once the readiness gate has given out its resolution.
    pub fn is_resolved(&self) -> (r: bool)
        ensures
            r == self@.resolved,
    {
        self.resolved
    }
}

/// One report to a gate.
pub enum GateOp {
    ConnectionChanged(Role, ConnectionState),
    ChannelChanged(Role, bool),
    Poll,
}

impl GateModel {
    pub open spec fn after(self, op: GateOp) -> GateModel {
        match op {
            GateOp::ConnectionChanged(peer, state) => self.after_connection_changed(peer, state),
            GateOp::ChannelChanged(peer, open) => self.after_channel_changed(peer, open),
            GateOp::Poll => self.after_poll(),
        }
    }

    pub open spec fn run(self, ops: Seq<GateOp>) -> GateModel
        decreases ops.len(),
    {
        if ops.len() == 0 {
            self
        } else {
            self.run(ops.drop_last()).after(ops.last())
        }
    }
}

/// A gate never waits on a failed peer: as soon as a peer that has not
/// reported `Connected` reports `Failed`, the readiness gate is resolved in failure,
/// whatever the other peer and the channels have reported or will report,
/// and a poll that has not been answered yet answers with
/// `ConnectionFailed`, not with `Pending`.
pub proof fn lemma_failed_peer_resolves_gate(g: GateModel, peer: Role, later: Seq<GateOp>)
    requires
        g.connected.slot(peer).outcome is None,
    ensures
        g.after_connection_changed(peer, ConnectionState::Failed).outcome() == Some(
            Err::<(), BenchError>(BenchError::ConnectionFailed),
        ),
        g.after_connection_changed(peer, ConnectionState::Failed).run(later).outcome() == Some(
            Err::<(), BenchError>(BenchError::ConnectionFailed),
        ),
        !g.resolved ==> g.after_connection_changed(peer, ConnectionState::Failed).poll_result()
            == Err::<Poll, BenchError>(BenchError::ConnectionFailed),
    decreases later.len(),
{
    if later.len() > 0 {
        lemma_failed_peer_resolves_gate(g, peer, later.drop_last());
    }
}

/// A gate resolves once and for good: once it can resolve, no report takes
/// that back, a success stays a success and a failure stays a failure; and
/// once the resolution has been given out, every further poll fails with
/// `AlreadyResolved`.
pub proof fn lemma_resolution_is_final(g: GateModel, later: Seq<GateOp>)
    ensures
        g.outcome() is Some ==> g.run(later).outcome() is Some,
        g.outcome() == Some(Ok::<(), BenchError>(())) ==> g.run(later).outcome() == g.outcome(),
        (g.outcome() matches Some(Err(_))) ==> (g.run(later).outcome() matches Some(Err(_))),
        g.resolved ==> g.run(later).resolved && g.run(later).poll_result() == Err::<
            Poll,
            BenchError,
        >(BenchError::AlreadyResolved),
    decreases later.len(),
{
    if later.len() > 0 {
        lemma_resolution_is_final(g, later.drop_last());
    }
}

} // verus!
