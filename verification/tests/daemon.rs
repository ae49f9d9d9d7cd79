//! What the daemons decide: configuration, checks before the start, and how
//! session and discovery tasks react.

use bytes::BytesMut;
use dlep::daemon::config::{
    apply_overrides, DiscoveryMode, ModemConfig, NetworkConfig, RouterConfig, TimersConfig,
};
use dlep::daemon::discovery::{DiscoveryDriver, DiscoveryEffect};
use dlep::daemon::events::{
    translate, translate_emitted, DaemonEvent, DestinationEvent, DestinationId, PeerInfo,
};
use dlep::daemon::runtime::{DaemonError, SessionCommand};
use dlep::daemon::session::{
    session_config_from_timers, Effect, Outcome, Reaction, SessionDriver, SessionFsm,
};
use dlep::daemon::setup::{
    listen_addr, modem_discovery_params, require_config, require_idle_discovery, require_tls,
    router_discovery_config, router_discovery_params,
};
use dlep::ext::Role;
use dlep::fsm::discovery_modem::ModemDiscoveryFsm;
use dlep::fsm::discovery_router::{RouterDiscoveryFsm, RouterDiscoveryState, TIMER_DISCOVERY};
use dlep::fsm::events::{DestinationAddrs, EmittedEvent, FsmEvent, LinkMetrics};
use dlep::fsm::session_common::SessionConfig;
use dlep::fsm::session_modem::{ModemSessionFsm, ModemSessionState};
use dlep::fsm::session_router::{RouterSessionFsm, RouterSessionState};
use dlep::fsm::timers::{TimerId, TimerKind, TIMER_HEARTBEAT, TIMER_HEARTBEAT_MISSED};
use dlep::net::addr::PeerAddr;
use dlep::net::discovery::unicast_v4;
use dlep::net::framed::MessageCodec;
use dlep::proto::addr::{IpAddr, Ipv4Addr, Ipv6Addr, SocketAddr};
use dlep::proto::duration::Duration;
use dlep::proto::error::CodecError;
use dlep::proto::ids::ExtensionId;
use dlep::proto::mac::MacAddress;
use dlep::proto::message::Message;
use dlep::proto::status::StatusCode;
use dlep::proto::subnet::Ipv4Net;
use dlep::{DEFAULT_PORT, DISCOVERY_IPV4_GROUP, DISCOVERY_IPV6_GROUP};

const V6_LOCALHOST: IpAddr = IpAddr::V6(Ipv6Addr {
    octets: [0, 0, 0, 0, 0, 0, 0, 0, 0, 0, 0, 0, 0, 0, 0, 1],
});

fn v4(a: u8, b: u8, c: u8, d: u8, port: u16) -> SocketAddr {
    SocketAddr::new(IpAddr::V4(Ipv4Addr::new(a, b, c, d)), port)
}

fn config_text<T>(r: Result<T, DaemonError>) -> String {
    match r {
        Err(DaemonError::Config(text)) => text,
        Err(other) => panic!("unexpected error: {other:?}"),
        Ok(_) => panic!("expected a configuration error"),
    }
}

// --- Configuration ---------------------------------------------------------

#[test]
fn network_defaults() {
    let network = NetworkConfig::default();
    assert!(network.interface.is_none());
    assert_eq!(network.discovery_v4_group, Ipv4Addr::new(224, 0, 0, 117));
    assert_eq!(network.discovery_v4_group.octets, DISCOVERY_IPV4_GROUP);
    assert_eq!(network.discovery_v6_group.octets, DISCOVERY_IPV6_GROUP);
    assert_eq!(network.discovery_port, 854);
    assert_eq!(network.tcp_port, DEFAULT_PORT);
    assert_eq!(network.bind_addr, IpAddr::V4(Ipv4Addr::new(0, 0, 0, 0)));
    assert!(network.use_tls, "plain TCP has to be asked for");
    assert!(network.gtsm_enforce);
}

#[test]
fn router_and_modem_defaults() {
    let router = RouterConfig::default();
    assert_eq!(router.peer_description, "dlep-router");
    assert_eq!(router.mode, DiscoveryMode::Discovery);
    assert!(router.static_peers.is_empty());
    let modem = ModemConfig::default();
    assert_eq!(modem.peer_description, "dlep-modem");
    assert_eq!(modem.shared.timers.heartbeat_interval_ms, 60_000);
    assert_eq!(modem.shared.timers.discovery_interval_ms, 5_000);
    assert_eq!(modem.shared.timers.session_init_timeout_ms, 5_000);
    assert_eq!(modem.shared.timers.termination_timeout_ms, 1_000);
    assert!(modem.shared.tls.cert.is_none());
    assert!(!modem.shared.tls.require_client_cert);
}

#[test]
fn overrides_change_what_was_asked_for() {
    let mut config = ModemConfig::default();
    apply_overrides(&mut config, None, false);
    assert!(config.shared.network.interface.is_none());
    assert!(config.shared.network.use_tls);

    apply_overrides(&mut config, Some("eth1".to_string()), true);
    assert_eq!(config.shared.network.interface.as_deref(), Some("eth1"));
    assert!(!config.shared.network.use_tls);

    // What is off stays off, and what is given stays given.
    apply_overrides(&mut config, None, false);
    assert_eq!(config.shared.network.interface.as_deref(), Some("eth1"));
    assert!(!config.shared.network.use_tls);
    assert_eq!(config.peer_description, "dlep-modem");
}

// --- Checks before the start -----------------------------------------------

#[test]
fn daemon_needs_a_configuration() {
    assert_eq!(require_config(Some(7u8), Role::Router).unwrap(), 7);
    assert_eq!(
        config_text(require_config::<u8>(None, Role::Router)),
        "RouterConfig required"
    );
    assert_eq!(
        config_text(require_config::<u8>(None, Role::Modem)),
        "ModemConfig required"
    );
}

#[test]
fn tls_is_never_given_up_in_silence() {
    assert!(require_tls(true, true, Role::Router).unwrap());
    assert!(!require_tls(false, true, Role::Modem).unwrap());
    assert!(!require_tls(false, false, Role::Modem).unwrap());
    assert_eq!(
        config_text(require_tls(true, false, Role::Router)),
        "use_tls = true requires RouterBuilder::with_rustls_client(...)"
    );
    assert_eq!(
        config_text(require_tls(true, false, Role::Modem)),
        "use_tls = true requires ModemBuilder::with_rustls_server(...)"
    );
}

#[test]
fn discovery_runs_once_at_a_time() {
    assert!(require_idle_discovery(false).is_ok());
    assert_eq!(
        config_text(require_idle_discovery(true)),
        "discovery already running"
    );
}

#[test]
fn discovery_sockets_meet() {
    let network = NetworkConfig {
        bind_addr: IpAddr::V4(Ipv4Addr::new(127, 0, 0, 1)),
        discovery_port: 49_855,
        tcp_port: 9_000,
        ..NetworkConfig::default()
    };
    let router = router_discovery_params(&network).unwrap();
    let modem = modem_discovery_params(&network).unwrap();
    assert_eq!(router.port, 0);
    assert!(!router.join_group && modem.join_group);
    assert!(router.multicast_loop && modem.multicast_loop);
    assert_eq!(router.interface_v4, Ipv4Addr::new(127, 0, 0, 1));
    assert_eq!(router.group_v4, modem.group_v4);
    assert_eq!(router.send_port(33_333), 49_855);
    assert_eq!(modem.port, 49_855);
    assert_eq!(modem.group_port, None);
    assert_eq!(modem.send_port(49_855), 49_855);
    assert_eq!(listen_addr(&network), v4(127, 0, 0, 1, 9_000));
}

#[test]
fn discovery_refuses_ipv6() {
    let network = NetworkConfig {
        bind_addr: V6_LOCALHOST,
        ..NetworkConfig::default()
    };
    let text = "M6 discovery only supports v4 bind_addr";
    assert_eq!(config_text(router_discovery_params(&network)), text);
    assert_eq!(config_text(modem_discovery_params(&network)), text);
}

#[test]
fn timers_become_session_configuration() {
    let timers = TimersConfig {
        heartbeat_interval_ms: 1_000,
        discovery_interval_ms: 200,
        session_init_timeout_ms: 500,
        termination_timeout_ms: 250,
    };
    let session = session_config_from_timers(&timers, "edge".to_string());
    assert_eq!(session.peer_description, "edge");
    assert_eq!(session.heartbeat_interval_ms, 1_000);
    assert_eq!(session.session_init_timeout, Duration::from_millis(500));
    assert_eq!(session.termination_timeout, Duration::from_millis(250));
    assert!(session.advertised_extensions.is_empty());
    let discovery = router_discovery_config(&timers, "edge".to_string());
    assert_eq!(discovery.discovery_interval, Duration::from_millis(200));
    assert_eq!(discovery.peer_description, "edge");
}

#[test]
fn endpoints() {
    let peer = PeerAddr {
        addr: IpAddr::V4(Ipv4Addr::new(10, 0, 0, 1)),
        port: 854,
        tls: true,
    };
    assert_eq!(peer.socket_addr(), v4(10, 0, 0, 1, 854));
    assert_eq!(
        unicast_v4(v4(10, 0, 0, 2, 5)),
        Some((Ipv4Addr::new(10, 0, 0, 2), 5))
    );
    assert_eq!(unicast_v4(SocketAddr::new(V6_LOCALHOST, 5)), None);
}

// --- Events ----------------------------------------------------------------

fn peer_info() -> PeerInfo {
    PeerInfo {
        addr: v4(10, 0, 0, 1, 854),
        is_tls: true,
        peer_description: Some("peer".to_string()),
    }
}

fn metrics() -> LinkMetrics {
    LinkMetrics {
        max_data_rate_rx_bps: 1_000_000,
        max_data_rate_tx_bps: 2_000_000,
        current_data_rate_rx_bps: 500_000,
        current_data_rate_tx_bps: 600_000,
        latency: Duration::from_micros(2_500),
        resources: 90,
        rlq_rx: 100,
        rlq_tx: 99,
        mtu: 1500,
    }
}

fn mac() -> MacAddress {
    MacAddress::new_eui48([0x02, 0, 0, 0, 0, 1])
}

fn addrs() -> DestinationAddrs {
    DestinationAddrs {
        v4: vec![Ipv4Addr::new(10, 0, 0, 9)],
        v6: vec![],
        v4_subnets: vec![Ipv4Net::new(Ipv4Addr::new(10, 1, 0, 0), 16).unwrap()],
        v6_subnets: vec![],
    }
}

#[test]
fn session_events_reach_subscribers() {
    let up = translate_emitted(
        EmittedEvent::SessionUp {
            peer_extensions: vec![ExtensionId(1), ExtensionId(2)],
        },
        &peer_info(),
        vec![ExtensionId(2)],
    );
    match up {
        Some(DaemonEvent::SessionUp {
            peer,
            negotiated_extensions,
        }) => {
            assert_eq!(peer.addr, v4(10, 0, 0, 1, 854));
            assert!(peer.is_tls);
            assert_eq!(peer.peer_description.as_deref(), Some("peer"));
            assert_eq!(negotiated_extensions, vec![ExtensionId(2)]);
        }
        other => panic!("expected SessionUp, got {other:?}"),
    }
    let down = translate_emitted(
        EmittedEvent::SessionDown(StatusCode(StatusCode::TIMED_OUT)),
        &peer_info(),
        vec![],
    );
    assert!(matches!(
        down,
        Some(DaemonEvent::SessionDown {
            reason: StatusCode(StatusCode::TIMED_OUT)
        })
    ));
    let dest = translate_emitted(
        EmittedEvent::DestinationUp {
            mac: mac(),
            metrics: metrics(),
            addrs: addrs(),
        },
        &peer_info(),
        vec![],
    );
    match dest {
        Some(DaemonEvent::Destination(DestinationEvent::Up {
            id,
            metrics: got,
            v4_addrs,
            v4_subnets,
            ..
        })) => {
            assert_eq!(id, DestinationId::from(mac()));
            assert_eq!(got, metrics());
            assert_eq!(v4_addrs, vec![Ipv4Addr::new(10, 0, 0, 9)]);
            assert_eq!(v4_subnets[0].prefix_len(), 16);
        }
        other => panic!("expected Up, got {other:?}"),
    }
    let update = translate_emitted(
        EmittedEvent::DestinationUpdate {
            mac: mac(),
            metrics: metrics(),
        },
        &peer_info(),
        vec![],
    );
    assert!(matches!(
        update,
        Some(DaemonEvent::Destination(DestinationEvent::Update { id, .. })) if id == DestinationId(mac())
    ));
    let gone = translate_emitted(
        EmittedEvent::DestinationDown {
            mac: mac(),
            reason: StatusCode(2),
        },
        &peer_info(),
        vec![],
    );
    assert!(matches!(
        gone,
        Some(DaemonEvent::Destination(DestinationEvent::Down {
            reason: StatusCode(2),
            ..
        }))
    ));
}

#[test]
fn peers_are_discovered_outside_sessions() {
    let found = || EmittedEvent::PeerDiscovered {
        addr: v4(10, 0, 0, 3, 7),
        peer_description: None,
        use_tls: false,
    };
    assert!(translate_emitted(found(), &peer_info(), vec![]).is_none());
    match translate(found()) {
        Some(DaemonEvent::PeerDiscovered(peer)) => {
            assert_eq!(peer.addr, v4(10, 0, 0, 3, 7));
            assert!(!peer.is_tls);
            assert!(peer.peer_description.is_none());
        }
        other => panic!("expected PeerDiscovered, got {other:?}"),
    }
    assert!(translate(EmittedEvent::SessionDown(StatusCode(0))).is_none());
}

// --- Sessions --------------------------------------------------------------

fn written(reaction: &Reaction) -> BytesMut {
    let mut stream = BytesMut::new();
    for effect in &reaction.effects {
        if let Effect::Write(octets) = effect {
            stream.extend_from_slice(octets);
        }
    }
    stream
}

fn messages_in(mut stream: BytesMut) -> Vec<Message> {
    let mut messages = Vec::new();
    while let Some(message) = MessageCodec.decode(&mut stream).unwrap() {
        messages.push(message);
    }
    assert!(stream.is_empty(), "only whole messages are written");
    messages
}

fn emitted(reaction: &Reaction) -> Vec<&EmittedEvent> {
    reaction
        .effects
        .iter()
        .filter_map(|e| match e {
            Effect::Emit(event) => Some(event),
            _ => None,
        })
        .collect()
}

/// Everything that `from` wrote goes to `to`.
fn deliver<F: SessionFsm>(from: &Reaction, to: &mut SessionDriver<F>) -> Vec<Reaction> {
    messages_in(written(from))
        .into_iter()
        .map(|m| to.on_message(m))
        .collect()
}

fn config(description: &str, extensions: &[u16]) -> SessionConfig {
    SessionConfig {
        peer_description: description.to_string(),
        heartbeat_interval_ms: 1_000,
        session_init_timeout: Duration::from_millis(500),
        termination_timeout: Duration::from_millis(200),
        advertised_extensions: extensions.iter().map(|id| ExtensionId(*id)).collect(),
    }
}

/// A router and a modem in session, which exchanged nothing but octets, and
/// what they reported.
fn session() -> (
    SessionDriver<RouterSessionFsm>,
    SessionDriver<ModemSessionFsm>,
    Reaction,
    Reaction,
) {
    let mut router = SessionDriver::new(RouterSessionFsm::with_config(config("r", &[0xF000])));
    let mut modem = SessionDriver::new(ModemSessionFsm::with_config(config("m", &[1, 2])));
    let hello = router.react(FsmEvent::TcpConnected);
    let waits = modem.react(FsmEvent::TcpAccepted);
    assert!(written(&waits).is_empty());
    let mut answers = deliver(&hello, &mut modem);
    assert_eq!(answers.len(), 1);
    let modem_up = answers.pop().unwrap();
    let mut finishes = deliver(&modem_up, &mut router);
    assert_eq!(finishes.len(), 1);
    let router_up = finishes.pop().unwrap();
    (router, modem, router_up, modem_up)
}

#[test]
fn session_comes_up_over_octets() {
    let (router, modem, router_up, modem_up) = session();
    assert_eq!(router.fsm().state(), RouterSessionState::InSession);
    assert_eq!(modem.fsm().state(), ModemSessionState::InSession);
    assert!(matches!(router_up.outcome, Outcome::Continue));
    match emitted(&router_up)[..] {
        [EmittedEvent::SessionUp { peer_extensions }] => {
            assert_eq!(*peer_extensions, vec![ExtensionId(1), ExtensionId(2)]);
        }
        _ => panic!("router must report the session up, once"),
    }
    match emitted(&modem_up)[..] {
        [EmittedEvent::SessionUp { peer_extensions }] => {
            assert_eq!(*peer_extensions, vec![ExtensionId(0xF000)]);
        }
        _ => panic!("modem must report the session up, once"),
    }
    // Deadline at twice the peer's interval.
    assert!(router_up.effects.iter().any(|e| matches!(
        e,
        Effect::StartTimer {
            id: TimerId(TIMER_HEARTBEAT_MISSED),
            kind: TimerKind::HeartbeatMissed,
            duration,
            periodic: false,
            generation: 1,
        } if *duration == Duration::from_millis(2_000)
    )));
}

#[test]
fn destination_lives_and_dies_over_octets() {
    let (mut router, mut modem, _, _) = session();
    let up = modem.on_command(Some(SessionCommand::AddDestination {
        mac: mac(),
        metrics: metrics(),
        addrs: addrs(),
    }));
    assert_eq!(up.effects.len(), 1);
    let heard = deliver(&up, &mut router);
    match emitted(&heard[0])[..] {
        [EmittedEvent::DestinationUp {
            mac: got,
            metrics: reported,
            addrs: listed,
        }] => {
            assert_eq!(*got, mac());
            assert_eq!(*reported, metrics());
            assert_eq!(listed.v4, addrs().v4);
            assert_eq!(listed.v4_subnets, addrs().v4_subnets);
        }
        _ => panic!("expected one DestinationUp"),
    }
    // A second request about it waits for nothing and does nothing.
    let again = modem.on_command(Some(SessionCommand::DropDestination {
        mac: mac(),
        reason: StatusCode(StatusCode::SUCCESS),
    }));
    assert!(again.effects.is_empty());
    deliver(&heard[0], &mut modem);
    assert!(modem.fsm().destinations.get(&mac()).unwrap().announced);

    let changed = LinkMetrics {
        current_data_rate_rx_bps: 1,
        ..metrics()
    };
    let update = modem.on_command(Some(SessionCommand::UpdateDestination {
        mac: mac(),
        metrics: changed,
    }));
    let heard = deliver(&update, &mut router);
    assert!(matches!(
        emitted(&heard[0])[..],
        [EmittedEvent::DestinationUpdate { metrics, .. }] if *metrics == changed
    ));

    let down = modem.on_command(Some(SessionCommand::DropDestination {
        mac: mac(),
        reason: StatusCode(StatusCode::SHUTTING_DOWN),
    }));
    let heard = deliver(&down, &mut router);
    assert!(matches!(
        emitted(&heard[0])[..],
        [EmittedEvent::DestinationDown {
            reason: StatusCode(StatusCode::SHUTTING_DOWN),
            ..
        }]
    ));
    deliver(&heard[0], &mut modem);
    assert!(!modem.fsm().destinations.contains_key(&mac()));
}

#[test]
fn shutdown_ends_both_sides() {
    let (mut router, mut modem, _, _) = session();
    let asks = router.on_command(Some(SessionCommand::Shutdown {
        reason: StatusCode(StatusCode::SHUTTING_DOWN),
    }));
    assert!(matches!(asks.outcome, Outcome::Continue));
    assert!(router.commands_open());
    let answers = deliver(&asks, &mut modem);
    assert!(matches!(answers[0].outcome, Outcome::Close));
    assert!(matches!(
        emitted(&answers[0])[..],
        [EmittedEvent::SessionDown(StatusCode(
            StatusCode::SHUTTING_DOWN
        ))]
    ));
    let last = deliver(&answers[0], &mut router);
    assert!(matches!(last[0].outcome, Outcome::Close));
    assert_eq!(router.fsm().state(), RouterSessionState::Terminated);
    assert_eq!(modem.fsm().state(), ModemSessionState::Terminated);
}

#[test]
fn dropped_handle_terminates_the_session() {
    let (mut router, mut modem, _, _) = session();
    let asks = router.on_command(None);
    assert!(!router.commands_open(), "no more commands to wait for");
    assert_eq!(router.fsm().state(), RouterSessionState::Terminating);
    let answers = deliver(&asks, &mut modem);
    assert_eq!(modem.fsm().state(), ModemSessionState::Terminated);
    assert!(matches!(answers[0].outcome, Outcome::Close));
}

#[test]
fn end_of_stream_ends_the_session() {
    let (mut router, _, _, _) = session();
    let over = router.on_eof();
    assert!(matches!(over.outcome, Outcome::Ended));
    assert!(matches!(
        emitted(&over)[..],
        [EmittedEvent::SessionDown(StatusCode(StatusCode::TIMED_OUT))]
    ));
    assert!(over
        .effects
        .iter()
        .any(|e| matches!(e, Effect::StopTimer(TimerId(TIMER_HEARTBEAT)))));
}

#[test]
fn heartbeats_are_sent_again_and_again() {
    let (mut router, mut modem, _, _) = session();
    for _ in 0..3 {
        let tick = router.on_timer(TimerId(TIMER_HEARTBEAT), TimerKind::Heartbeat, 1);
        assert_eq!(&written(&tick)[..], &[0x00, 0x10, 0x00, 0x00]);
        let heard = deliver(&tick, &mut modem);
        assert!(emitted(&heard[0]).is_empty());
        assert_eq!(heard[0].effects.len(), 1);
    }
    assert_eq!(modem.fsm().state(), ModemSessionState::InSession);
}

#[test]
fn message_outruns_the_deadline() {
    let (mut router, mut modem, _, _) = session();
    let tick = modem.on_timer(TimerId(TIMER_HEARTBEAT), TimerKind::Heartbeat, 1);
    let heard = deliver(&tick, &mut router);
    assert!(matches!(
        heard[0].effects[..],
        [Effect::StartTimer { generation: 2, .. }]
    ));
    // The expiry of the first deadline was already on its way.
    let missed = TimerId(TIMER_HEARTBEAT_MISSED);
    let stale = router.on_timer(missed, TimerKind::HeartbeatMissed, 1);
    assert!(stale.effects.is_empty());
    assert_eq!(router.fsm().state(), RouterSessionState::InSession);
    // That of the second one counts, and once.
    let due = router.on_timer(missed, TimerKind::HeartbeatMissed, 2);
    assert_eq!(router.fsm().state(), RouterSessionState::Terminating);
    assert_eq!(messages_in(written(&due)).len(), 1);
    let twice = router.on_timer(missed, TimerKind::HeartbeatMissed, 2);
    assert!(twice.effects.is_empty());
}

#[test]
fn message_without_wire_form_fails_the_session() {
    let (_, mut modem, _, _) = session();
    let bad = LinkMetrics {
        resources: 101,
        ..metrics()
    };
    let reaction = modem.on_command(Some(SessionCommand::AddDestination {
        mac: mac(),
        metrics: bad,
        addrs: DestinationAddrs::default(),
    }));
    assert!(reaction.effects.is_empty());
    assert!(matches!(
        reaction.outcome,
        Outcome::Failed(CodecError::OutOfRange { value: 101, .. })
    ));
}

#[test]
fn destinations_of_one_address_family_are_kept_apart() {
    let (_, mut modem, _, _) = session();
    let short = MacAddress::new_eui48([0, 0, 0, 0, 0, 5]);
    let long = MacAddress::new_eui64([0, 0, 0, 0, 0, 0, 0, 5]);
    for mac in [short, long] {
        let up = modem.on_command(Some(SessionCommand::AddDestination {
            mac,
            metrics: metrics(),
            addrs: DestinationAddrs::default(),
        }));
        assert_eq!(up.effects.len(), 1);
    }
    assert!(modem.fsm().destinations.contains_key(&short));
    assert!(modem.fsm().destinations.contains_key(&long));
}

// --- Discovery -------------------------------------------------------------

fn router_discovery() -> DiscoveryDriver<RouterDiscoveryFsm> {
    let timers = TimersConfig::default();
    DiscoveryDriver::new(RouterDiscoveryFsm::with_config(router_discovery_config(
        &timers,
        "probe".to_string(),
    )))
}

#[test]
fn discovery_finds_the_modem_over_octets() {
    let mut router = router_discovery();
    let mut modem = DiscoveryDriver::new(ModemDiscoveryFsm::new(
        v4(10, 0, 0, 7, 4321),
        "the-modem".to_string(),
        true,
    ));
    let mut started = router.react(FsmEvent::AppStartDiscovery);
    assert!(matches!(
        started[1],
        DiscoveryEffect::StartTimer {
            id: TimerId(TIMER_DISCOVERY),
            periodic: true,
            generation: 1,
            ..
        }
    ));
    let DiscoveryEffect::SendToGroup(probe) = started.remove(0) else {
        panic!("expected a probe to the group")
    };
    let from = v4(10, 0, 0, 1, 50_000);

    // Forwarded on its way: dropped.
    assert!(modem
        .on_datagram(probe.clone(), from, 254)
        .unwrap()
        .is_empty());

    let mut answers = modem.on_datagram(probe, from, 255).unwrap();
    assert_eq!(answers.len(), 1);
    let DiscoveryEffect::SendTo { octets, dest } = answers.remove(0) else {
        panic!("expected an offer to the router alone")
    };
    assert_eq!(dest, from);

    let found = router
        .on_datagram(octets.clone(), v4(10, 0, 0, 7, 854), 255)
        .unwrap();
    assert_eq!(router.fsm().state, RouterDiscoveryState::OfferReceived);
    assert!(matches!(
        found[0],
        DiscoveryEffect::StopTimer(TimerId(TIMER_DISCOVERY))
    ));
    match &found[1] {
        DiscoveryEffect::Publish(DaemonEvent::PeerDiscovered(peer)) => {
            assert_eq!(peer.addr, v4(10, 0, 0, 7, 4321));
            assert!(peer.is_tls);
            assert_eq!(peer.peer_description.as_deref(), Some("the-modem"));
        }
        other => panic!("expected PeerDiscovered, got {other:?}"),
    }
    assert_eq!(found.len(), 2);

    // An expiry that was on its way, and a second offer, change nothing.
    assert!(router
        .on_timer(TimerId(TIMER_DISCOVERY), TimerKind::Discovery, 1)
        .is_empty());
    assert!(router
        .on_datagram(octets, v4(10, 0, 0, 7, 854), 255)
        .unwrap()
        .is_empty());
}

#[test]
fn probing_goes_on_until_it_is_shut_down() {
    let mut router = router_discovery();
    router.react(FsmEvent::AppStartDiscovery);
    for _ in 0..3 {
        let again = router.on_timer(TimerId(TIMER_DISCOVERY), TimerKind::Discovery, 1);
        assert!(matches!(again[..], [DiscoveryEffect::SendToGroup(_)]));
    }
    let stopped = router.on_shutdown();
    assert!(matches!(stopped[..], [DiscoveryEffect::StopTimer(_)]));
    assert_eq!(router.fsm().state, RouterDiscoveryState::Idle);
    assert!(router
        .on_timer(TimerId(TIMER_DISCOVERY), TimerKind::Discovery, 1)
        .is_empty());
}

#[test]
fn datagram_that_is_no_signal_is_an_error() {
    let mut router = router_discovery();
    router.react(FsmEvent::AppStartDiscovery);
    let err = router
        .on_datagram(BytesMut::from(&b"noise"[..]), v4(1, 2, 3, 4, 5), 255)
        .unwrap_err();
    assert!(matches!(err, CodecError::Truncated { needed: 8, have: 5 }));
    assert_eq!(router.fsm().state, RouterDiscoveryState::Probing);
}

#[test]
fn signal_that_is_too_long_is_not_sent() {
    let timers = TimersConfig::default();
    let mut router = DiscoveryDriver::new(RouterDiscoveryFsm::with_config(
        router_discovery_config(&timers, "x".repeat(70_000)),
    ));
    let started = router.react(FsmEvent::AppStartDiscovery);
    assert!(matches!(
        &started[0],
        DiscoveryEffect::Unsendable(CodecError::OutOfRange { .. })
    ));
    assert!(matches!(started[1], DiscoveryEffect::StartTimer { .. }));
}
