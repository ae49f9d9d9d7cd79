//! What a daemon starts with: the values it has when nothing is configured, and
//! what it makes of those that are.

use vstd::prelude::*;
use crate::daemon::config;
use crate::daemon::config::{
    DiscoveryMode, ModemConfig, NetworkConfig, RouterConfig, SharedConfig, TimersConfig,
};
use crate::daemon::runtime;
use crate::daemon::runtime::DaemonError;
use crate::daemon::session::session_config_from_timers;
use crate::daemon::setup::{
    listen_addr, modem_discovery_params, require_config, require_idle_discovery, require_tls,
    router_discovery_config, router_discovery_params,
};
use crate::ext::Role;
use crate::fsm::discovery_router::RouterDiscoveryConfig;
use crate::fsm::session_common::SessionConfig;
use crate::net::discovery::DiscoveryParams;
use crate::proto::addr::{IpAddr, SocketAddr};

verus! {

/// A network that was not configured: the assigned groups 224.0.0.117 and
/// ff02::1:7, the assigned port 854 for both transports, all interfaces, TLS and
/// the check of the time to live on.
pub proof fn law_default_network(network: NetworkConfig)
    requires
        network.is_default(),
    ensures
        network.interface is None,
        network.discovery_v4_group.octets@ == seq![224u8, 0, 0, 117],
        network.discovery_v6_group.octets@ == seq![
            0xffu8, 0x02, 0, 0, 0, 0, 0, 0, 0, 0, 0, 0, 0, 1, 0, 7,
        ],
        network.discovery_port == 854,
        network.tcp_port == 854,
        network.bind_addr matches IpAddr::V4(addr) && addr.octets@ == seq![0u8, 0, 0, 0],
        network.use_tls,
        network.gtsm_enforce,
{
}

/// Timers that were not configured: a heartbeat a minute, a probe every five
/// seconds, five seconds for the initialization, one for the termination.
pub proof fn law_default_timers(timers: TimersConfig)
    requires
        timers.is_default(),
    ensures
        timers.heartbeat_interval_ms == 60_000,
        timers.discovery_interval_ms == 5_000,
        timers.session_init_timeout_ms == 5_000,
        timers.termination_timeout_ms == 1_000,
{
}

/// No TLS material is assumed, and the parts of a default configuration are
/// defaults.
pub proof fn law_default_parts(shared: SharedConfig)
    requires
        shared.is_default(),
    ensures
        shared.network.is_default(),
        shared.timers.is_default(),
        shared.tls.cert is None,
        shared.tls.key is None,
        shared.tls.ca_bundle is None,
        !shared.tls.require_client_cert,
{
}

/// Daemons that were not configured: the defaults of both, a router that
/// searches and knows no peers, and the name of either side.
pub proof fn law_default_daemons(router: RouterConfig, modem: ModemConfig)
    requires
        call_ensures(<RouterConfig as Default>::default, (), router),
        call_ensures(<ModemConfig as Default>::default, (), modem),
    ensures
        router.shared.network.use_tls,
        router.shared.network.tcp_port == 854,
        router.shared.timers.heartbeat_interval_ms == 60_000,
        router.mode == DiscoveryMode::Discovery,
        router.static_peers@.len() == 0,
        router.peer_description@ == "dlep-router"@,
        modem.shared.network.use_tls,
        modem.shared.network.tcp_port == 854,
        modem.shared.timers.heartbeat_interval_ms == 60_000,
        modem.peer_description@ == "dlep-modem"@,
{
}

/// The values that stand in for single fields.
pub proof fn law_default_fields(
    bind: IpAddr,
    gtsm: bool,
    heartbeat: u32,
    probe: u32,
    init: u32,
    termination: u32,
)
    requires
        call_ensures(config::default_bind_addr, (), bind),
        call_ensures(config::default_gtsm_enforce, (), gtsm),
        call_ensures(config::default_heartbeat_interval_ms, (), heartbeat),
        call_ensures(config::default_discovery_interval_ms, (), probe),
        call_ensures(config::default_session_init_timeout_ms, (), init),
        call_ensures(config::default_termination_timeout_ms, (), termination),
    ensures
        bind matches IpAddr::V4(addr) && addr.octets@ == seq![0u8, 0, 0, 0],
        gtsm,
        heartbeat == 60_000,
        probe == 5_000,
        init == 5_000,
        termination == 1_000,
{
}

/// A session goes by the timers that are configured, each in milliseconds and
/// each for what it is for.
pub proof fn law_sessions_go_by_the_timers(
    timers: TimersConfig,
    description: String,
    session: SessionConfig,
)
    requires
        call_ensures(session_config_from_timers, (&timers, description), session),
    ensures
        session@.heartbeat_interval_ms == timers.heartbeat_interval_ms,
        session@.session_init_timeout.nanos == timers.session_init_timeout_ms * 1_000_000,
        session@.termination_timeout.nanos == timers.termination_timeout_ms * 1_000_000,
        session@.peer_description == description@,
        session@.advertised_extensions.len() == 0,
{
}

/// A search goes by the interval that is configured, in milliseconds.
pub proof fn law_search_goes_by_the_timers(
    timers: TimersConfig,
    description: String,
    search: RouterDiscoveryConfig,
)
    requires
        call_ensures(router_discovery_config, (&timers, description), search),
    ensures
        search.discovery_interval.nanos == timers.discovery_interval_ms * 1_000_000,
        search.peer_description@ == description@,
{
}

/// TLS that is asked for is used, or the daemon does not start: there is no
/// falling back to plain TCP. TLS that is not asked for is not used, whatever
/// was given.
pub proof fn law_tls_is_never_dropped(
    use_tls: bool,
    given: bool,
    role: Role,
    answer: Result<bool, DaemonError>,
)
    requires
        call_ensures(require_tls, (use_tls, given, role), answer),
    ensures
        answer is Err <==> use_tls && !given,
        answer matches Ok(wrapped) ==> wrapped == use_tls,
        answer matches Err(e) ==> e is Config,
{
}

/// A daemon starts with the configuration that it was given and not without
/// one; and one search at a time.
pub proof fn law_required_to_start<C>(
    given: Option<C>,
    role: Role,
    answer: Result<C, DaemonError>,
    running: bool,
    may_search: Result<(), DaemonError>,
)
    requires
        call_ensures(require_config::<C>, (given, role), answer),
        call_ensures(require_idle_discovery, (running,), may_search),
    ensures
        match given {
            Some(config) => answer == Ok::<C, DaemonError>(config),
            None => answer matches Err(e) && e is Config,
        },
        may_search is Ok <==> !running,
{
}

/// A modem listens where it is bound, on the port for sessions.
pub proof fn law_modem_listens(network: NetworkConfig, addr: SocketAddr)
    requires
        call_ensures(listen_addr, (&network,), addr),
    ensures
        addr.ip == network.bind_addr,
        addr.port == network.tcp_port,
{
}

/// A router searches from a port of the system's choice, towards the configured
/// group and port, which it does not join; a modem is in the group, on the
/// configured port. There is no discovery over IPv6.
pub proof fn law_discovery_sockets(
    network: NetworkConfig,
    router: Result<DiscoveryParams, DaemonError>,
    modem: Result<DiscoveryParams, DaemonError>,
    bound: u16,
)
    requires
        call_ensures(router_discovery_params, (&network,), router),
        call_ensures(modem_discovery_params, (&network,), modem),
    ensures
        match network.bind_addr {
            IpAddr::V4(addr) => {
                &&& router matches Ok(p) && p.group_v4 == network.discovery_v4_group
                    && p.interface_v4 == addr && p.port == 0 && p.sends_to(bound)
                    == network.discovery_port && p.multicast_loop && !p.join_group
                &&& modem matches Ok(p) && p.group_v4 == network.discovery_v4_group
                    && p.interface_v4 == addr && p.port == network.discovery_port && p.sends_to(
                    bound,
                ) == bound && p.multicast_loop && p.join_group
            },
            IpAddr::V6(_) => router is Err && modem is Err,
        },
{
}

/// A subscriber may lag 256 events behind, and 64 commands may wait for a
/// session; the assigned port is 854 and the only time to live is 255.
pub proof fn law_fixed_numbers()
    ensures
        runtime::EVENT_CHANNEL_CAPACITY == 256,
        runtime::COMMAND_CHANNEL_CAPACITY == 64,
        crate::DEFAULT_PORT == 854,
        crate::net::gtsm::REQUIRED_TTL == 255,
        crate::net::framed::MAX_MESSAGE_LEN == 4 + 0xffff,
{
}

} // verus!
