//! Interfaces and peers.

use vstd::prelude::*;
use crate::proto::addr::{IpAddr, SocketAddr};

verus! {

/// A network interface, for binding multicast sockets.
#[derive(Clone, Debug)]
pub enum InterfaceSpec {
    ByName(String),
    ByIndex(u32),
    Any,
}

/// Endpoint of a discovered peer.
#[derive(Clone, Copy, Debug)]
pub struct PeerAddr {
    pub addr: IpAddr,
    pub port: u16,
    pub tls: bool,
}

impl PeerAddr {
    pub fn socket_addr(&self) -> (r: SocketAddr)
        ensures
            r == (SocketAddr { ip: self.addr, port: self.port }),
    {
        SocketAddr::new(self.addr, self.port)
    }
}

} // verus!
