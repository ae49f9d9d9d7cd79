//! What subscribers hear.

use vstd::prelude::*;
use crate::daemon::events::{
    discovery_event, event_view, session_event, DaemonEvent, DaemonEventView, DestinationEvent,
    DestinationEventView, PeerInfo, PeerInfoView,
};
use crate::daemon::session::{reacts, EffectView, SessionDriverView};
use crate::daemon::wire_laws;
use crate::daemon::wire_laws::carries;
use crate::fsm::events::{DestinationAddrsView, EmittedEventView, FsmEventView};
use crate::fsm::session_modem::{ModemSessionFsm, ModemSessionState, ModemSessionView};
use crate::fsm::session_router::{RouterSessionFsm, RouterSessionState, RouterSessionView};
use crate::proto::ids::ExtensionId;
use crate::proto::mac::MacAddress;
use crate::proto::message::MessageView;
use crate::proto::metrics::LinkMetrics;
use crate::proto::status::StatusCode;

verus! {

/// Subscribers hear of a session that comes up with its peer and the extensions
/// in use, of one that goes down with the reason, of a destination with its
/// address and every metric, address and reason that was reported; and of no
/// discovery in a session.
pub proof fn law_subscribers_hear_what_was_reported(
    emitted: EmittedEventView,
    peer: PeerInfoView,
    negotiated: Seq<ExtensionId>,
)
    ensures
        ({
            let heard = session_event(emitted, peer, negotiated);
            match emitted {
                EmittedEventView::SessionUp { .. } => heard matches Some(event) && event matches
                    DaemonEventView::SessionUp { peer: p, negotiated_extensions: ids } && p == peer
                    && ids == negotiated,
                EmittedEventView::SessionDown(reason) => heard matches Some(event) && event matches
                    DaemonEventView::SessionDown { reason: r } && r == reason,
                EmittedEventView::DestinationUp { mac, metrics, addrs } => heard matches Some(event)
                    && event matches DaemonEventView::Destination(about) && about matches
                    DestinationEventView::Up { id, metrics: m, addrs: a } && id.0 == mac
                    && same_metrics(m, metrics) && a == addrs,
                EmittedEventView::DestinationUpdate { mac, metrics } => heard matches Some(event)
                    && event matches DaemonEventView::Destination(about) && about matches
                    DestinationEventView::Update { id, metrics: m } && id.0 == mac && same_metrics(
                    m,
                    metrics,
                ),
                EmittedEventView::DestinationDown { mac, reason } => heard matches Some(event)
                    && event matches DaemonEventView::Destination(about) && about matches
                    DestinationEventView::Down { id, reason: r } && id.0 == mac && r == reason,
                EmittedEventView::PeerDiscovered { .. } => heard is None,
            }
        }),
{
}

/// Two reports agree in every metric.
pub open spec fn same_metrics(a: LinkMetrics, b: LinkMetrics) -> bool {
    &&& a.max_data_rate_rx_bps == b.max_data_rate_rx_bps
    &&& a.max_data_rate_tx_bps == b.max_data_rate_tx_bps
    &&& a.current_data_rate_rx_bps == b.current_data_rate_rx_bps
    &&& a.current_data_rate_tx_bps == b.current_data_rate_tx_bps
    &&& a.latency.nanos == b.latency.nanos
    &&& a.resources == b.resources
    &&& a.rlq_rx == b.rlq_rx
    &&& a.rlq_tx == b.rlq_tx
    &&& a.mtu == b.mtu
}

/// Subscribers hear of a peer that was found with its endpoint, its transport
/// and its description; and of nothing else from discovery.
pub proof fn law_subscribers_hear_of_peers(emitted: EmittedEventView)
    ensures
        ({
            let heard = discovery_event(emitted);
            match emitted {
                EmittedEventView::PeerDiscovered { addr, peer_description, use_tls } => heard matches
                    Some(event) && event matches DaemonEventView::PeerDiscovered(peer) && peer.addr
                    == addr && peer.is_tls == use_tls && peer.peer_description == peer_description,
                _ => heard is None,
            }
        }),
{
}

/// What subscribers hear is what an event holds.
pub proof fn law_daemon_events_say_what_they_hold(event: DaemonEvent, peer: PeerInfo)
    ensures
        peer@.addr == peer.addr,
        peer@.is_tls == peer.is_tls,
        peer@.peer_description == match peer.peer_description {
            Some(text) => Some(text@),
            None => None,
        },
        event_view(Some(event)) == Some(event@),
        event_view(None) is None,
        match event {
            DaemonEvent::PeerDiscovered(p) => event@ == DaemonEventView::PeerDiscovered(p@),
            DaemonEvent::SessionUp { peer: p, negotiated_extensions } => event@ == (
            DaemonEventView::SessionUp {
                peer: p@,
                negotiated_extensions: negotiated_extensions@,
            }),
            DaemonEvent::SessionDown { reason } => event@ == (DaemonEventView::SessionDown {
                reason,
            }),
            DaemonEvent::Destination(about) => event@ == DaemonEventView::Destination(about@),
            DaemonEvent::Metrics(about) => event@ == (DaemonEventView::Metrics {
                session_wide: about.session_wide,
            }),
        },
{
}

/// What subscribers hear of a destination is what the event holds.
pub proof fn law_destination_events_say_what_they_hold(event: DestinationEvent)
    ensures
        match event {
            DestinationEvent::Up { id, metrics, v4_addrs, v6_addrs, v4_subnets, v6_subnets } => {
                &&& event@ matches DestinationEventView::Up { id: i, metrics: m, addrs } && i == id
                    && m == metrics && addrs.v4 == v4_addrs@ && addrs.v6 == v6_addrs@
                    && addrs.v4_subnets.len() == v4_subnets@.len() && addrs.v6_subnets.len()
                    == v6_subnets@.len() && (forall|k: int|
                    0 <= k < v4_subnets@.len() ==> (#[trigger] addrs.v4_subnets[k])
                        == v4_subnets@[k]@) && (forall|k: int|
                    0 <= k < v6_subnets@.len() ==> (#[trigger] addrs.v6_subnets[k])
                        == v6_subnets@[k]@)
            },
            DestinationEvent::Update { id, metrics } => event@ == (DestinationEventView::Update {
                id,
                metrics,
            }),
            DestinationEvent::Announced { id } => event@ == (DestinationEventView::Announced {
                id,
            }),
            DestinationEvent::Down { id, reason } => event@ == (DestinationEventView::Down {
                id,
                reason,
            }),
        },
{
}

/// End to end: the metrics that a modem is given for a destination that it knows
/// go over the wire, and are those that the router's subscribers hear, metric by
/// metric, under the address of the destination. It takes metrics whose message
/// the wire can carry.
pub proof fn law_metrics_reach_subscribers(
    modem: SessionDriverView<ModemSessionView>,
    router: SessionDriverView<RouterSessionView>,
    mac: MacAddress,
    metrics: LinkMetrics,
    octets: Seq<u8>,
    peer: PeerInfoView,
    negotiated: Seq<ExtensionId>,
)
    requires
        modem.fsm.state == ModemSessionState::InSession,
        modem.fsm.destinations.contains_key(mac),
        router.fsm.state == RouterSessionState::InSession,
        carries(octets, MessageView::destination_update(mac, metrics)),
    ensures
        reacts::<ModemSessionFsm>(
            modem,
            FsmEventView::AppUpdateMetrics { mac, metrics },
        ).1.effects == seq![EffectView::Write(octets)],
        MessageView::read(octets) is Ok,
        ({
            let read = MessageView::read(octets)->Ok_0;
            let effects = reacts::<RouterSessionFsm>(
                router,
                FsmEventView::RecvMessage(read),
            ).1.effects;
            &&& effects.len() >= 1
            &&& effects[0] is Emit
            &&& session_event(effects[0]->Emit_0, peer, negotiated) matches Some(event)
                && event matches DaemonEventView::Destination(about) && about matches
                DestinationEventView::Update { id, metrics: heard } && id.0 == mac && same_metrics(
                heard,
                metrics,
            )
        }),
{
    reveal(carries);
    wire_laws::law_modem_writes_what_it_is_told(
        modem,
        FsmEventView::AppUpdateMetrics { mac, metrics },
        MessageView::destination_update(mac, metrics),
        octets,
    );
    wire_laws::law_router_hears_metrics(router, mac, metrics);
}

/// End to end: a destination that a modem is given goes over the wire, and the
/// router's subscribers hear of it with the metrics and addresses that were
/// given. It takes a message and an answer that the wire can carry.
pub proof fn law_destinations_reach_subscribers(
    modem: SessionDriverView<ModemSessionView>,
    router: SessionDriverView<RouterSessionView>,
    mac: MacAddress,
    metrics: LinkMetrics,
    addrs: DestinationAddrsView,
    octets: Seq<u8>,
    answer: Seq<u8>,
    peer: PeerInfoView,
    negotiated: Seq<ExtensionId>,
)
    requires
        modem.fsm.state == ModemSessionState::InSession,
        !modem.fsm.tx.per_destination.contains_key(mac),
        router.fsm.state == RouterSessionState::InSession,
        carries(octets, MessageView::destination_up(mac, metrics, addrs)),
        carries(answer, MessageView::destination_up_response(mac, StatusCode(0))),
    ensures
        reacts::<ModemSessionFsm>(
            modem,
            FsmEventView::AppAddDestination { mac, metrics, addrs },
        ).1.effects == seq![EffectView::Write(octets)],
        MessageView::read(octets) is Ok,
        ({
            let read = MessageView::read(octets)->Ok_0;
            let effects = reacts::<RouterSessionFsm>(
                router,
                FsmEventView::RecvMessage(read),
            ).1.effects;
            &&& effects.len() >= 2
            &&& effects[0] == EffectView::Write(answer)
            &&& effects[1] is Emit
            &&& session_event(effects[1]->Emit_0, peer, negotiated) matches Some(event)
                && event matches DaemonEventView::Destination(about) && about matches
                DestinationEventView::Up { id, metrics: heard, addrs: at } && id.0 == mac
                && same_metrics(heard, metrics) && at == addrs
        }),
{
    reveal(carries);
    wire_laws::law_modem_writes_what_it_is_told(
        modem,
        FsmEventView::AppAddDestination { mac, metrics, addrs },
        MessageView::destination_up(mac, metrics, addrs),
        octets,
    );
    wire_laws::law_router_hears_destination_up(router, mac, metrics, addrs, answer);
}

} // verus!
