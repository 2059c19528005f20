//! The plain request/reply benchmarks: what they account for and when they
//! report, apart from the sockets they run over.

use vstd::prelude::*;

verus! {

/// The size of the frames that the ping-pong pair exchanges, in bytes.
pub const MESSAGE_SIZE_BYTES: u64 = 32;

/// The bytes that `iterations` messages of `message_size` bytes make when
/// each is counted once on its way out and once on its way back.
pub open spec fn echo_bytes(iterations: nat, message_size: nat) -> nat {
    2 * iterations * message_size
}

/// The bytes moved by `iterations` round trips of a message of
/// `message_size` bytes, or nothing where the count does not fit in 64 bits.
pub fn round_trip_bytes(iterations: u64, message_size: u64) -> (r: Option<u64>)
    ensures
        match r {
            Some(total) => total == echo_bytes(iterations as nat, message_size as nat),
            None => echo_bytes(iterations as nat, message_size as nat) > u64::MAX,
        },
{
    assert(2 * (iterations as nat) * (message_size as nat) == 2 * ((iterations as nat) * (
    message_size as nat))) by (nonlinear_arith);
    match iterations.checked_mul(message_size) {
        Some(one_way) => one_way.checked_mul(2),
        None => None,
    }
}

/// Whether progress is reported after the iteration `index`, where it is
/// reported every `interval` iterations, the first included.
pub fn reports_progress(index: u64, interval: u64) -> (r: bool)
    requires
        interval > 0,
    ensures
        r == (index % interval == 0),
{
    index % interval == 0
}

/// A frame as one end of the ping-pong pair reads it.
#[derive(Clone, Copy, Debug, PartialEq, Eq, Structural)]
pub enum Frame {
    Ping,
    Pong,
    /// Any other frame.
    Other,
    /// The connection gave an error in place of a frame.
    Broken,
}

/// What an end does about a frame.
#[derive(Clone, Copy, Debug, PartialEq, Eq, Structural)]
pub enum Reaction {
    /// Answer with a pong, count the exchange, then send a ping of its own.
    PongThenPing,
    /// Send a ping.
    Ping,
    /// Read on.
    Ignore,
    /// Leave the loop and close the connection.
    Stop,
}

/// The client answers every ping and passes over the rest.
pub open spec fn client_reaction(frame: Frame) -> Reaction {
    match frame {
        Frame::Ping => Reaction::PongThenPing,
        Frame::Pong => Reaction::Ignore,
        Frame::Other => Reaction::Ignore,
        Frame::Broken => Reaction::Stop,
    }
}

/// The server sends a new ping for every pong and passes over the rest.
pub open spec fn server_reaction(frame: Frame) -> Reaction {
    match frame {
        Frame::Pong => Reaction::Ping,
        Frame::Ping => Reaction::Ignore,
        Frame::Other => Reaction::Ignore,
        Frame::Broken => Reaction::Stop,
    }
}

/// What the client does about a frame it has read.
pub fn client_react(frame: Frame) -> (r: Reaction)
    ensures
        r == client_reaction(frame),
{
    match frame {
        Frame::Ping => Reaction::PongThenPing,
        Frame::Broken => Reaction::Stop,
        _ => Reaction::Ignore,
    }
}

/// What the server does about a frame it has read.
pub fn server_react(frame: Frame) -> (r: Reaction)
    ensures
        r == server_reaction(frame),
{
    match frame {
        Frame::Pong => Reaction::Ping,
        Frame::Broken => Reaction::Stop,
        _ => Reaction::Ignore,
    }
}

/// The bits that the client has answered with after `message_count`
/// exchanges, or nothing where the count does not fit in 64 bits.
pub fn bits_answered(message_count: u64) -> (r: Option<u64>)
    ensures
        match r {
            Some(bits) => bits == message_count * MESSAGE_SIZE_BYTES * 8,
            None => message_count * MESSAGE_SIZE_BYTES * 8 > u64::MAX,
        },
{
    message_count.checked_mul(MESSAGE_SIZE_BYTES * 8)
}

} // verus!
