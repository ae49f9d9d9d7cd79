//! How a discovery socket is set up and used.

use vstd::prelude::*;
use crate::proto::addr::{IpAddr, Ipv4Addr, SocketAddr};

verus! {

/// What it takes to bring up a discovery socket.
#[derive(Clone, Debug)]
pub struct DiscoveryParams {
    /// Multicast group.
    pub group_v4: Ipv4Addr,
    /// Local address of the interface on which to join the group.
    pub interface_v4: Ipv4Addr,
    /// UDP port to bind; with 0 the system picks one.
    pub port: u16,
    /// Port of the group that signals are sent to; `None` is the port that was
    /// bound.
    pub group_port: Option<u16>,
    /// Whether the sender hears its own packets.
    pub multicast_loop: bool,
    /// Whether to join the group. A router only sends to it.
    pub join_group: bool,
}

impl DiscoveryParams {
    /// The port that signals to the group go to, from a socket on `bound_port`.
    pub open spec fn sends_to(self, bound_port: u16) -> u16 {
        match self.group_port {
            Some(p) => p,
            None => bound_port,
        }
    }

    /// The port that signals to the group go to, once the socket is bound to
    /// `bound_port`.
    pub fn send_port(&self, bound_port: u16) -> (r: u16)
        ensures
            r == self.sends_to(bound_port),
    {
        self.group_port.unwrap_or(bound_port)
    }
}

/// The IPv4 endpoint that a unicast signal can go to; `None` for an IPv6 one,
/// which the discovery socket cannot reach.
pub fn unicast_v4(dest: SocketAddr) -> (r: Option<(Ipv4Addr, u16)>)
    ensures
        r == match dest.ip {
            IpAddr::V4(addr) => Some((addr, dest.port)),
            IpAddr::V6(_) => None,
        },
{
    match dest.ip {
        IpAddr::V4(addr) => Some((addr, dest.port)),
        IpAddr::V6(_) => None,
    }
}

} // verus!
