//! What a daemon checks and derives from its configuration before it starts.

use vstd::prelude::*;
use crate::daemon::config::{NetworkConfig, TimersConfig};
use crate::daemon::runtime;
use crate::daemon::runtime::DaemonError;
use crate::ext::Role;
use crate::fsm::discovery_router::RouterDiscoveryConfig;
use crate::fsm::session_common::SessionConfigView;
use crate::net::discovery::DiscoveryParams;
use crate::proto::addr::{IpAddr, Ipv4Addr, SocketAddr};
use crate::proto::duration::Duration;

verus! {

/// The configuration that a builder was given. Without one there is no daemon.
pub fn require_config<C>(config: Option<C>, role: Role) -> (r: Result<C, DaemonError>)
    ensures
        match config {
            Some(c) => r matches Ok(x) && x == c,
            None => match role {
                Role::Router => runtime::is_config_error(r, "RouterConfig required"@),
                Role::Modem => runtime::is_config_error(r, "ModemConfig required"@),
            },
        },
{
    match config {
        Some(c) => Ok(c),
        None => match role {
            Role::Router => Err(DaemonError::Config("RouterConfig required".to_owned())),
            Role::Modem => Err(DaemonError::Config("ModemConfig required".to_owned())),
        },
    }
}

/// Whether connections are to be wrapped in TLS. A daemon that is to use TLS
/// and was not given what TLS needs does not start: it never falls back to
/// plain TCP.
pub fn require_tls(use_tls: bool, tls_given: bool, role: Role) -> (r: Result<bool, DaemonError>)
    ensures
        if use_tls && !tls_given {
            match role {
                Role::Router => runtime::is_config_error(
                    r,
                    "use_tls = true requires RouterBuilder::with_rustls_client(...)"@,
                ),
                Role::Modem => runtime::is_config_error(
                    r,
                    "use_tls = true requires ModemBuilder::with_rustls_server(...)"@,
                ),
            }
        } else {
            r matches Ok(wrapped) && wrapped == use_tls
        },
{
    if use_tls && !tls_given {
        return match role {
            Role::Router => Err(
                DaemonError::Config(
                    "use_tls = true requires RouterBuilder::with_rustls_client(...)".to_owned(),
                ),
            ),
            Role::Modem => Err(
                DaemonError::Config(
                    "use_tls = true requires ModemBuilder::with_rustls_server(...)".to_owned(),
                ),
            ),
        };
    }
    Ok(use_tls)
}

/// Discovery can start when it is not running.
pub fn require_idle_discovery(running: bool) -> (r: Result<(), DaemonError>)
    ensures
        if running {
            runtime::is_config_error(r, "discovery already running"@)
        } else {
            r is Ok
        },
{
    if running {
        Err(DaemonError::Config("discovery already running".to_owned()))
    } else {
        Ok(())
    }
}

/// Address that the modem listens on.
pub fn listen_addr(network: &NetworkConfig) -> (r: SocketAddr)
    ensures
        r == (SocketAddr { ip: network.bind_addr, port: network.tcp_port }),
{
    SocketAddr::new(network.bind_addr, network.tcp_port)
}

/// The IPv4 address to discover on. There is no discovery over IPv6.
fn discovery_interface(network: &NetworkConfig) -> (r: Result<Ipv4Addr, DaemonError>)
    ensures
        match network.bind_addr {
            IpAddr::V4(addr) => r matches Ok(x) && x == addr,
            IpAddr::V6(_) => runtime::is_config_error(
                r,
                "M6 discovery only supports v4 bind_addr"@,
            ),
        },
{
    match network.bind_addr {
        IpAddr::V4(addr) => Ok(addr),
        IpAddr::V6(_) => Err(
            DaemonError::Config("M6 discovery only supports v4 bind_addr".to_owned()),
        ),
    }
}

/// The router's discovery socket: on a port of the system's choice, so that
/// offers come to this socket and no other; it sends to the group and does not
/// join it.
pub open spec fn router_socket(network: NetworkConfig, interface_v4: Ipv4Addr) -> DiscoveryParams {
    DiscoveryParams {
        group_v4: network.discovery_v4_group,
        interface_v4,
        port: 0,
        group_port: Some(network.discovery_port),
        multicast_loop: true,
        join_group: false,
    }
}

/// The modem's discovery socket: on the discovery port, in the group.
pub open spec fn modem_socket(network: NetworkConfig, interface_v4: Ipv4Addr) -> DiscoveryParams {
    DiscoveryParams {
        group_v4: network.discovery_v4_group,
        interface_v4,
        port: network.discovery_port,
        group_port: None,
        multicast_loop: true,
        join_group: true,
    }
}

/// What the router's discovery socket takes.
pub fn router_discovery_params(network: &NetworkConfig) -> (r: Result<DiscoveryParams, DaemonError>)
    ensures
        match network.bind_addr {
            IpAddr::V4(addr) => r matches Ok(params) && params == router_socket(*network, addr),
            IpAddr::V6(_) => runtime::is_config_error(
                r,
                "M6 discovery only supports v4 bind_addr"@,
            ),
        },
{
    match discovery_interface(network) {
        Ok(interface_v4) => Ok(
            DiscoveryParams {
                group_v4: network.discovery_v4_group,
                interface_v4,
                port: 0,
                group_port: Some(network.discovery_port),
                multicast_loop: true,
                join_group: false,
            },
        ),
        Err(e) => Err(e),
    }
}

/// What the modem's discovery socket takes.
pub fn modem_discovery_params(network: &NetworkConfig) -> (r: Result<DiscoveryParams, DaemonError>)
    ensures
        match network.bind_addr {
            IpAddr::V4(addr) => r matches Ok(params) && params == modem_socket(*network, addr),
            IpAddr::V6(_) => runtime::is_config_error(
                r,
                "M6 discovery only supports v4 bind_addr"@,
            ),
        },
{
    match discovery_interface(network) {
        Ok(interface_v4) => Ok(
            DiscoveryParams {
                group_v4: network.discovery_v4_group,
                interface_v4,
                port: network.discovery_port,
                group_port: None,
                multicast_loop: true,
                join_group: true,
            },
        ),
        Err(e) => Err(e),
    }
}

/// Configuration of the router's discovery state machine.
pub fn router_discovery_config(timers: &TimersConfig, peer_description: String) -> (r:
    RouterDiscoveryConfig)
    ensures
        r.peer_description@ == peer_description@,
        r.discovery_interval == SessionConfigView::of_millis(timers.discovery_interval_ms as nat),
{
    RouterDiscoveryConfig {
        peer_description,
        discovery_interval: Duration::from_millis(timers.discovery_interval_ms as u64),
    }
}

/// The two ends of discovery meet: with the same group and the same discovery
/// port configured on both, a router sends where a modem listens, wherever
/// either is bound.
pub proof fn law_discovery_sockets_meet(
    router: NetworkConfig,
    modem: NetworkConfig,
    router_interface: Ipv4Addr,
    modem_interface: Ipv4Addr,
    bound_port: u16,
)
    requires
        router.discovery_v4_group == modem.discovery_v4_group,
        router.discovery_port == modem.discovery_port,
    ensures
        modem_socket(modem, modem_interface).join_group,
        router_socket(router, router_interface).group_v4 == modem_socket(
            modem,
            modem_interface,
        ).group_v4,
        router_socket(router, router_interface).sends_to(bound_port) == modem_socket(
            modem,
            modem_interface,
        ).port,
{
}

} // verus!
