//! Peer session establishment and throughput measurement, as state machines
//! that a host drives with the events of its transport.

pub mod echo;
pub mod error;
pub mod gate;
pub mod harness;
pub mod harness_trace;
pub mod ice;
pub mod loopback;
pub mod mailbox;
pub mod session;
pub mod session_trace;
pub mod zk;
