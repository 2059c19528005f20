//! The failures a benchmark run can end in.

use vstd::prelude::*;

verus! {

/// Why a negotiation step, a signaling transfer or a whole run did not succeed.
#[derive(Clone, Copy, Debug, PartialEq, Eq, Structural)]
pub enum BenchError {
    /// A description or candidate was handled out of order, or was refused as malformed.
    NegotiationError,
    /// The mailbox was closed before the message could be accepted.
    MailboxClosed,
    /// The mailbox already holds as many messages as its capacity allows.
    MailboxFull,
    /// A peer reported the `Failed` connection state.
    ConnectionFailed,
    /// A message was to be moved over a data channel that is not open.
    ChannelNotOpen,
    /// The negotiation deadline passed before both peers were ready.
    NegotiationTimeout,
    /// The throughput deadline passed before every message was observed.
    ThroughputTimeout,
    /// A one-shot notification or gate was used again after it had resolved.
    AlreadyResolved,
}

impl BenchError {
    /// True for the two failures that come from a deadline.
    pub open spec fn is_timeout(self) -> bool {
        self == BenchError::NegotiationTimeout || self == BenchError::ThroughputTimeout
    }

    /// Tells whether the failure came from a deadline rather than from a peer or a mailbox.
    pub fn timed_out(&self) -> (r: bool)
        ensures
            r == self.is_timeout(),
    {
        match self {
            BenchError::NegotiationTimeout => true,
            BenchError::ThroughputTimeout => true,
            _ => false,
        }
    }
}

} // verus!
