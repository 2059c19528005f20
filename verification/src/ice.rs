//! The candidate exchange: two mailboxes, one in each direction, and the
//! step that takes the next candidate out of one of them and gives it to the
//! session it is meant for.

use crate::error::BenchError;
use crate::mailbox::{Delivery, Mailbox, MailboxState, Refused, MIN_CANDIDATE_CAPACITY};
use crate::session::{CandidateMessage, PeerSession, Role, SessionModel};
use vstd::prelude::*;

verus! {

/// What one step of the exchange did.
pub enum Relay {
    /// A candidate for the transport of the session `to`.
    Apply { to: Role, candidate: CandidateMessage },
    /// The session `to` keeps the candidate until its remote description is set.
    Buffered { to: Role },
    /// The session `to` refused the candidate. The exchange goes on.
    Refused { to: Role, error: BenchError },
    /// No candidate waits, and more can come.
    Idle,
    /// No candidate waits and both mailboxes are closed: the exchange is over.
    Finished,
}

/// An exchange as the contracts speak of it.
pub struct ExchangeModel {
    /// Candidates on their way to the offering side.
    pub to_offerer: MailboxState<CandidateMessage>,
    /// Candidates on their way to the answering side.
    pub to_answerer: MailboxState<CandidateMessage>,
    /// The side whose mailbox is looked into first at the next step.
    pub turn: Role,
}

impl ExchangeModel {
    pub open spec fn wf(self) -> bool {
        &&& self.to_offerer.wf()
        &&& self.to_answerer.wf()
        &&& self.to_offerer.capacity >= MIN_CANDIDATE_CAPACITY
        &&& self.to_answerer.capacity >= MIN_CANDIDATE_CAPACITY
    }

    pub open spec fn fresh(capacity: nat) -> ExchangeModel {
        ExchangeModel {
            to_offerer: MailboxState::empty(capacity),
            to_answerer: MailboxState::empty(capacity),
            turn: Role::Offerer,
        }
    }

    /// The mailbox that carries candidates to `to`.
    pub open spec fn inbox(self, to: Role) -> MailboxState<CandidateMessage> {
        match to {
            Role::Offerer => self.to_offerer,
            Role::Answerer => self.to_answerer,
        }
    }

    pub open spec fn with_inbox(self, to: Role, inbox: MailboxState<CandidateMessage>) -> ExchangeModel {
        match to {
            Role::Offerer => ExchangeModel { to_offerer: inbox, ..self },
            Role::Answerer => ExchangeModel { to_answerer: inbox, ..self },
        }
    }

    /// The side that the next step serves: the side whose turn it is if a
    /// candidate waits for it, else the other side if one waits for that.
    pub open spec fn served(self) -> Option<Role> {
        if self.inbox(self.turn).queue.len() > 0 {
            Some(self.turn)
        } else if self.inbox(self.turn.peer()).queue.len() > 0 {
            Some(self.turn.peer())
        } else {
            None
        }
    }

    /// The candidate that the next step relays, where it relays one.
    pub open spec fn next_candidate(self) -> CandidateMessage {
        self.inbox(self.served().unwrap()).queue[0]
    }

    /// The exchange is over when nothing waits and nothing can come.
    pub open spec fn finished(self) -> bool {
        self.to_offerer.delivery() is EndOfStream && self.to_answerer.delivery() is EndOfStream
    }

    /// The exchange after a step: the candidate relayed has left its
    /// mailbox, and the other side comes first next time.
    pub open spec fn after_step(self) -> ExchangeModel {
        match self.served() {
            Some(to) => ExchangeModel { turn: to.peer(), ..self.with_inbox(
                to,
                self.inbox(to).after_recv(),
            ) },
            None => self,
        }
    }

    /// A session after a step: the session served has been given the
    /// candidate, the other is as it was.
    pub open spec fn session_after_step(self, session: SessionModel) -> SessionModel {
        if self.served() == Some(session.role) {
            session.after_add_remote_candidate(self.next_candidate())
        } else {
            session
        }
    }

    /// What a step reports.
    pub open spec fn step_result(self, offerer: SessionModel, answerer: SessionModel) -> Relay {
        match self.served() {
            Some(to) => {
                let session = if to == Role::Offerer {
                    offerer
                } else {
                    answerer
                };
                match session.add_remote_candidate_result(self.next_candidate()) {
                    Ok(Some(candidate)) => Relay::Apply { to, candidate },
                    Ok(None) => Relay::Buffered { to },
                    Err(error) => Relay::Refused { to, error },
                }
            },
            None => if self.finished() {
                Relay::Finished
            } else {
                Relay::Idle
            },
        }
    }

    /// The exchange after `from` has handed in a candidate for its peer.
    pub open spec fn after_submit(self, from: Role, candidate: CandidateMessage) -> ExchangeModel {
        self.with_inbox(from.peer(), self.inbox(from.peer()).after_send(candidate))
    }

    /// The exchange after `from` has said that it has no more candidates.
    pub open spec fn after_finish(self, from: Role) -> ExchangeModel {
        self.with_inbox(from.peer(), self.inbox(from.peer()).after_close())
    }

    /// The exchange after it has been given up: both mailboxes are closed.
    pub open spec fn after_abort(self) -> ExchangeModel {
        ExchangeModel {
            to_offerer: self.to_offerer.after_close(),
            to_answerer: self.to_answerer.after_close(),
            ..self
        }
    }
}

/// The relay of candidates between the two sessions of a pair.
pub struct IceExchange {
    to_offerer: Mailbox<CandidateMessage>,
    to_answerer: Mailbox<CandidateMessage>,
    turn: Role,
}

impl View for IceExchange {
    type V = ExchangeModel;

    closed spec fn view(&self) -> ExchangeModel {
        ExchangeModel {
            to_offerer: self.to_offerer@,
            to_answerer: self.to_answerer@,
            turn: self.turn,
        }
    }
}

impl IceExchange {
    /// An exchange with two open, empty mailboxes of the given capacity.
    pub fn new(capacity: usize) -> (r: IceExchange)
        requires
            capacity >= MIN_CANDIDATE_CAPACITY,
        ensures
            r@ == ExchangeModel::fresh(capacity as nat),
            r@.wf(),
    {
        IceExchange {
            to_offerer: Mailbox::for_candidates(capacity),
            to_answerer: Mailbox::for_candidates(capacity),
            turn: Role::Offerer,
        }
    }

    /// Hands in a candidate that `from` has produced, for its peer. A full or
    /// closed mailbox hands the candidate back: the sender has to wait or to
    /// give up, the candidate is not dropped.
    pub fn submit(&mut self, from: Role, candidate: CandidateMessage) -> (r: Result<
        (),
        Refused<CandidateMessage>,
    >)
        requires
            old(self)@.wf(),
        ensures
            final(self)@.wf(),
            final(self)@ == old(self)@.after_submit(from, candidate),
            match r {
                Ok(()) => old(self)@.inbox(from.peer()).send_error() is None,
                Err(refused) => old(self)@.inbox(from.peer()).send_error() == Some(refused.error)
                    && refused.message == candidate,
            },
    {
        match from {
            Role::Offerer => self.to_answerer.send(candidate),
            Role::Answerer => self.to_offerer.send(candidate),
        }
    }

    /// Records that `from` has no more candidates: closes the mailbox to its peer.
    pub fn finish(&mut self, from: Role)
        requires
            old(self)@.wf(),
        ensures
            final(self)@.wf(),
            final(self)@ == old(self)@.after_finish(from),
    {
        match from {
            Role::Offerer => self.to_answerer.close(),
            Role::Answerer => self.to_offerer.close(),
        }
    }

    /// Gives the exchange up: closes both mailboxes, so that neither side
    /// waits for the other any longer.
    pub fn abort(&mut self)
        requires
            old(self)@.wf(),
        ensures
            final(self)@.wf(),
            final(self)@ == old(self)@.after_abort(),
    {
        self.to_offerer.close();
        self.to_answerer.close();
    }

    fn take_for(&mut self, to: Role) -> (r: Delivery<CandidateMessage>)
        requires
            old(self)@.wf(),
        ensures
            final(self)@.wf(),
            r == old(self)@.inbox(to).delivery(),
            final(self)@ == old(self)@.with_inbox(to, old(self)@.inbox(to).after_recv()),
    {
        match to {
            Role::Offerer => self.to_offerer.recv(),
            Role::Answerer => self.to_answerer.recv(),
        }
    }

    /// One step of the exchange. Takes the oldest candidate that waits for
    /// the side whose turn it is, or else for the other side, gives it to
    /// that side's session, and lets the other side come first next time.
    /// A candidate that the session refuses is reported and the exchange
    /// goes on. With nothing waiting, tells whether the exchange is over.
    pub fn step(&mut self, offerer: &mut PeerSession, answerer: &mut PeerSession) -> (r: Relay)
        requires
            old(self)@.wf(),
            old(offerer)@.wf(),
            old(answerer)@.wf(),
            old(offerer)@.role == Role::Offerer,
            old(answerer)@.role == Role::Answerer,
        ensures
            final(self)@.wf(),
            final(offerer)@.wf(),
            final(answerer)@.wf(),
            final(self)@ == old(self)@.after_step(),
            final(offerer)@ == old(self)@.session_after_step(old(offerer)@),
            final(answerer)@ == old(self)@.session_after_step(old(answerer)@),
            r == old(self)@.step_result(old(offerer)@, old(answerer)@),
    {
        let first = self.turn;
        let second = first.other();
        let (to, candidate) = match self.take_for(first) {
            Delivery::Message(candidate) => (first, candidate),
            at_first => match self.take_for(second) {
                Delivery::Message(candidate) => (second, candidate),
                at_second => {
                    assert(self@ == old(self)@);
                    return match (at_first, at_second) {
                        (Delivery::EndOfStream, Delivery::EndOfStream) => Relay::Finished,
                        _ => Relay::Idle,
                    };
                },
            },
        };
        self.turn = to.other();
        let taken = match to {
            Role::Offerer => offerer.add_remote_candidate(candidate),
            Role::Answerer => answerer.add_remote_candidate(candidate),
        };
        match taken {
            Ok(Some(candidate)) => Relay::Apply { to, candidate },
            Ok(None) => Relay::Buffered { to },
            Err(error) => Relay::Refused { to, error },
        }
    }
}

/// Neither direction starves the other: while candidates wait for both
/// sides, one step serves the side whose turn it is and the next step serves
/// the other side; and within one direction a step always takes the oldest
/// candidate.
pub proof fn lemma_directions_alternate(x: ExchangeModel)
    requires
        x.wf(),
        x.to_offerer.queue.len() > 0,
        x.to_answerer.queue.len() > 0,
    ensures
        x.served() == Some(x.turn),
        x.next_candidate() == x.inbox(x.turn).queue[0],
        x.after_step().served() == Some(x.turn.peer()),
        x.after_step().next_candidate() == x.inbox(x.turn.peer()).queue[0],
        x.after_step().after_step().turn == x.turn,
{
}

/// A step loses nothing: it changes only the mailbox of the side it serves,
/// takes exactly the oldest candidate out of that, and keeps both mailboxes
/// within their capacity.
pub proof fn lemma_step_takes_the_oldest(x: ExchangeModel, to: Role)
    requires
        x.wf(),
    ensures
        x.after_step().wf(),
        x.served() == Some(to) ==> x.inbox(to).queue == seq![x.next_candidate()]
            + x.after_step().inbox(to).queue,
        x.served() != Some(to) ==> x.after_step().inbox(to) == x.inbox(to),
{
    if x.served() == Some(to) {
        assert(x.inbox(to).queue =~= seq![x.next_candidate()] + x.inbox(to).queue.drop_first());
    }
}

} // verus!
