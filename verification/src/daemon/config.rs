//! Configuration of the daemons.

use vstd::prelude::*;
use crate::proto::addr::{IpAddr, Ipv4Addr, Ipv6Addr, SocketAddr};
use crate::{DEFAULT_PORT, DISCOVERY_IPV4_GROUP, DISCOVERY_IPV6_GROUP};

verus! {

#[derive(Clone, Debug)]
pub struct NetworkConfig {
    /// Name of the interface to use.
    pub interface: Option<String>,
    pub discovery_v4_group: Ipv4Addr,
    pub discovery_v6_group: Ipv6Addr,
    pub discovery_port: u16,
    pub tcp_port: u16,
    /// Address that the modem listens on.
    pub bind_addr: IpAddr,
    pub use_tls: bool,
    pub gtsm_enforce: bool,
}

/// Where TLS material lies.
#[derive(Clone, Debug)]
pub struct TlsConfig {
    pub cert: Option<String>,
    pub key: Option<String>,
    pub ca_bundle: Option<String>,
    pub require_client_cert: bool,
}

#[derive(Clone, Debug)]
pub struct TimersConfig {
    pub heartbeat_interval_ms: u32,
    pub discovery_interval_ms: u32,
    /// How long to wait for Session Initialization or its response.
    pub session_init_timeout_ms: u32,
    /// How long to wait for Session Termination Response.
    pub termination_timeout_ms: u32,
}

/// What both daemons have in common.
#[derive(Clone, Debug)]
pub struct SharedConfig {
    pub network: NetworkConfig,
    pub tls: TlsConfig,
    pub timers: TimersConfig,
}

/// How a router finds its modems.
#[derive(Clone, Copy, Debug, PartialEq, Eq, Structural)]
pub enum DiscoveryMode {
    Discovery,
    Static,
}

#[derive(Clone, Debug)]
pub struct RouterConfig {
    pub shared: SharedConfig,
    pub mode: DiscoveryMode,
    pub static_peers: Vec<SocketAddr>,
    pub peer_description: String,
}

#[derive(Clone, Debug)]
pub struct ModemConfig {
    pub shared: SharedConfig,
    pub peer_description: String,
}

/// All interfaces.
pub fn default_bind_addr() -> (r: IpAddr)
    ensures
        r matches IpAddr::V4(a) && a.octets@ == seq![0u8, 0, 0, 0],
{
    IpAddr::V4(Ipv4Addr::new(0, 0, 0, 0))
}

pub fn default_gtsm_enforce() -> (r: bool)
    ensures
        r,
{
    true
}

pub fn default_heartbeat_interval_ms() -> (r: u32)
    ensures
        r == 60_000,
{
    60_000
}

pub fn default_discovery_interval_ms() -> (r: u32)
    ensures
        r == 5_000,
{
    5_000
}

pub fn default_session_init_timeout_ms() -> (r: u32)
    ensures
        r == 5_000,
{
    5_000
}

pub fn default_termination_timeout_ms() -> (r: u32)
    ensures
        r == 1_000,
{
    1_000
}

pub fn default_router_peer_description() -> (r: String)
    ensures
        r@ == "dlep-router"@,
{
    "dlep-router".to_owned()
}

pub fn default_modem_peer_description() -> (r: String)
    ensures
        r@ == "dlep-modem"@,
{
    "dlep-modem".to_owned()
}

impl NetworkConfig {
    /// The assigned groups and ports, all interfaces, TLS and GTSM on.
    pub open spec fn is_default(self) -> bool {
        &&& self.interface is None
        &&& self.discovery_v4_group.octets@ == DISCOVERY_IPV4_GROUP@
        &&& self.discovery_v6_group.octets@ == DISCOVERY_IPV6_GROUP@
        &&& self.discovery_port == DEFAULT_PORT
        &&& self.tcp_port == DEFAULT_PORT
        &&& self.bind_addr matches IpAddr::V4(a) && a.octets@ == seq![0u8, 0, 0, 0]
        &&& self.use_tls
        &&& self.gtsm_enforce
    }
}

impl TlsConfig {
    /// Nothing configured.
    pub open spec fn is_default(self) -> bool {
        &&& self.cert is None
        &&& self.key is None
        &&& self.ca_bundle is None
        &&& !self.require_client_cert
    }
}

impl TimersConfig {
    pub open spec fn is_default(self) -> bool {
        &&& self.heartbeat_interval_ms == 60_000
        &&& self.discovery_interval_ms == 5_000
        &&& self.session_init_timeout_ms == 5_000
        &&& self.termination_timeout_ms == 1_000
    }
}

impl SharedConfig {
    pub open spec fn is_default(self) -> bool {
        &&& self.network.is_default()
        &&& self.tls.is_default()
        &&& self.timers.is_default()
    }
}

impl Default for NetworkConfig {
    fn default() -> (r: Self)
        ensures
            r.is_default(),
    {
        NetworkConfig {
            interface: None,
            discovery_v4_group: Ipv4Addr { octets: DISCOVERY_IPV4_GROUP },
            discovery_v6_group: Ipv6Addr { octets: DISCOVERY_IPV6_GROUP },
            discovery_port: DEFAULT_PORT,
            tcp_port: DEFAULT_PORT,
            bind_addr: default_bind_addr(),
            // Plain TCP has to be asked for.
            use_tls: true,
            gtsm_enforce: default_gtsm_enforce(),
        }
    }
}

impl Default for TlsConfig {
    fn default() -> (r: Self)
        ensures
            r.is_default(),
    {
        TlsConfig { cert: None, key: None, ca_bundle: None, require_client_cert: false }
    }
}

impl Default for TimersConfig {
    fn default() -> (r: Self)
        ensures
            r.is_default(),
    {
        TimersConfig {
            heartbeat_interval_ms: default_heartbeat_interval_ms(),
            discovery_interval_ms: default_discovery_interval_ms(),
            session_init_timeout_ms: default_session_init_timeout_ms(),
            termination_timeout_ms: default_termination_timeout_ms(),
        }
    }
}

impl Default for SharedConfig {
    fn default() -> (r: Self)
        ensures
            r.is_default(),
    {
        SharedConfig {
            network: NetworkConfig::default(),
            tls: TlsConfig::default(),
            timers: TimersConfig::default(),
        }
    }
}

impl Default for DiscoveryMode {
    fn default() -> (r: Self)
        ensures
            r == DiscoveryMode::Discovery,
    {
        DiscoveryMode::Discovery
    }
}

impl Default for RouterConfig {
    fn default() -> (r: Self)
        ensures
            r.shared.is_default(),
            r.mode == DiscoveryMode::Discovery,
            r.static_peers@ == Seq::<SocketAddr>::empty(),
            r.peer_description@ == "dlep-router"@,
    {
        RouterConfig {
            shared: SharedConfig::default(),
            mode: DiscoveryMode::default(),
            static_peers: Vec::new(),
            peer_description: default_router_peer_description(),
        }
    }
}

impl Default for ModemConfig {
    fn default() -> (r: Self)
        ensures
            r.shared.is_default(),
            r.peer_description@ == "dlep-modem"@,
    {
        ModemConfig {
            shared: SharedConfig::default(),
            peer_description: default_modem_peer_description(),
        }
    }
}

/// What the command line asks for takes the place of what is configured: an
/// interface that is given, and no TLS where that is asked for. Everything else
/// stays.
pub fn apply_overrides(cfg: &mut ModemConfig, interface: Option<String>, no_tls: bool)
    ensures
        *final(cfg) == (ModemConfig {
            shared: SharedConfig {
                network: NetworkConfig {
                    interface: if interface is Some {
                        interface
                    } else {
                        old(cfg).shared.network.interface
                    },
                    use_tls: old(cfg).shared.network.use_tls && !no_tls,
                    ..old(cfg).shared.network
                },
                ..old(cfg).shared
            },
            ..*old(cfg)
        }),
{
    if let Some(iface) = interface {
        cfg.shared.network.interface = Some(iface);
    }
    if no_tls {
        cfg.shared.network.use_tls = false;
    }
}

} // verus!
