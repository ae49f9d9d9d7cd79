//! Timer handles of the state machines.

use vstd::prelude::*;
use crate::proto::mac::MacAddress;

verus! {

/// Timer handle that a state machine chose. The runtime uses it to match an
/// expiry with the state machine that asked for it.
#[derive(Clone, Copy, Debug, PartialEq, Eq, Structural, Hash, PartialOrd, Ord)]
pub struct TimerId(pub u32);

impl TimerId {
    pub fn new(v: u32) -> (r: Self)
        ensures
            r == TimerId(v),
    {
        TimerId(v)
    }
}

/// What a timer stands for. Travels with its handle, so that nothing has to be
/// looked up.
#[derive(Clone, Copy, Debug, PartialEq, Eq, Hash)]
pub enum TimerKind {
    /// Periodic heartbeat send timer.
    Heartbeat,
    /// Nothing received for two heartbeat intervals.
    HeartbeatMissed,
    /// Waiting for Session Initialization Response.
    SessionInit,
    /// Waiting for Session Termination Response.
    Termination,
    /// Deadline of a request about one destination.
    Transaction(MacAddress),
    /// Periodic Peer Discovery send timer.
    Discovery,
}

// Timers of a session. Each session has at most one of each kind in flight.
pub const TIMER_SESSION_INIT: u32 = 1;

pub const TIMER_TERMINATION: u32 = 2;

/// Drives outbound heartbeats at the local interval.
pub const TIMER_HEARTBEAT: u32 = 3;

/// Single shot at twice the peer's interval. When it fires, two heartbeats in
/// a row were missed.
pub const TIMER_HEARTBEAT_MISSED: u32 = 4;

} // verus!
