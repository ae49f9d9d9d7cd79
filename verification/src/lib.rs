//! DLEP, the Dynamic Link Exchange Protocol: wire format, state machines,
//! framing, extension registry and the decisions of the daemons, verified.
//!
//! Nothing here performs I/O. The program around this library reads and writes
//! sockets, runs timers and hands what happened to the state machines.

use vstd::prelude::*;

pub mod daemon;
pub mod ext;
pub mod ext_laws;
pub mod fsm;
pub mod net;
pub mod proto;

verus! {

/// IANA-assigned TCP and UDP port.
pub const DEFAULT_PORT: u16 = 854;

/// IANA-assigned IPv4 link-local multicast group for discovery, 224.0.0.117.
pub const DISCOVERY_IPV4_GROUP: [u8; 4] = [224, 0, 0, 117];

/// IANA-assigned IPv6 link-local multicast group for discovery, ff02::1:7.
pub const DISCOVERY_IPV6_GROUP: [u8; 16] = [0xff, 0x02, 0, 0, 0, 0, 0, 0, 0, 0, 0, 0, 0, 1, 0, 7];

} // verus!
