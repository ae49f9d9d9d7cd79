//! The functions that take a step, open and close requests, or build and read
//! messages do what is said of them, whatever they are called with.

use vstd::prelude::*;
use crate::fsm::discovery_common::{
    build_peer_discovery, build_peer_offer, extract_offer_endpoint, extract_peer_description,
    OfferEndpoint,
};
use crate::fsm::discovery_modem::ModemDiscoveryFsm;
use crate::fsm::discovery_router::RouterDiscoveryFsm;
use crate::fsm::events::{
    action_views, DestinationAddrs, EmittedEventView, FsmAction, FsmActionView, FsmEvent,
    LinkMetrics,
};
use crate::fsm::mac_map::MacMap;
use crate::fsm::modem_laws;
use crate::fsm::router_laws;
use crate::fsm::session_common;
use crate::fsm::session_common::{
    build_destination_down, build_destination_down_response, build_destination_up,
    build_destination_up_response, build_destination_update, build_heartbeat,
    build_session_termination, build_session_termination_response, extract_destination_addrs,
    extract_destination_mac, extract_extensions_supported, extract_heartbeat_interval,
    extract_link_metrics, extract_status, heartbeat_reset_action, local_heartbeat_interval,
    SessionConfig,
};
use crate::fsm::session_modem::{ModemSessionFsm, ModemSessionState};
use crate::fsm::session_router::{RouterSessionFsm, RouterSessionState};
use crate::fsm::timers::{TimerId, TIMER_HEARTBEAT, TIMER_HEARTBEAT_MISSED};
use crate::fsm::transaction::{PendingRequest, RequestKind, TransactionTracker};
use crate::proto::addr::SocketAddr;
use crate::proto::duration::Duration;
use crate::proto::ids::ExtensionId;
use crate::proto::mac::MacAddress;
use crate::proto::message::{Message, MessageView};
use crate::proto::signal::{Signal, SignalView};
use crate::proto::status::StatusCode;

verus! {

/// Each state machine takes the step that is its next.
pub proof fn law_steps_are_taken(event: FsmEvent)
    ensures
        forall|fsm: &mut RouterSessionFsm, r: Vec<FsmAction>| #[trigger]
            call_ensures(RouterSessionFsm::step, (fsm, event), r) ==> (
                (*final(fsm))@,
                action_views(r@),
            ) == (*fsm)@.next(event@),
        forall|fsm: &mut ModemSessionFsm, r: Vec<FsmAction>| #[trigger]
            call_ensures(ModemSessionFsm::step, (fsm, event), r) ==> (
                (*final(fsm))@,
                action_views(r@),
            ) == (*fsm)@.next(event@),
        forall|fsm: &mut RouterDiscoveryFsm, r: Vec<FsmAction>| #[trigger]
            call_ensures(RouterDiscoveryFsm::step, (fsm, event), r) ==> (
                (*final(fsm))@,
                action_views(r@),
            ) == (*fsm)@.next(event@),
        forall|fsm: &mut ModemDiscoveryFsm, r: Vec<FsmAction>| #[trigger]
            call_ensures(ModemDiscoveryFsm::step, (fsm, event), r) ==> (
                (*final(fsm))@,
                action_views(r@),
            ) == (*fsm)@.next(event@),
{
}

/// Whoever steps a session that is up when its connection is closed finds it
/// over, with both heartbeat timers to be cancelled and status 132 to report.
pub proof fn law_closed_connections_are_stepped()
    ensures
        ({
            let told = seq![
                FsmActionView::CancelTimer(TimerId(TIMER_HEARTBEAT)),
                FsmActionView::CancelTimer(TimerId(TIMER_HEARTBEAT_MISSED)),
                FsmActionView::Emit(EmittedEventView::SessionDown(StatusCode(132))),
            ];
            &&& forall|fsm: &mut RouterSessionFsm, r: Vec<FsmAction>| #[trigger]
                call_ensures(RouterSessionFsm::step, (fsm, FsmEvent::TcpClosed), r)
                    && fsm.state == RouterSessionState::InSession ==> final(fsm).state
                    == RouterSessionState::Terminated && action_views(r@) == told
            &&& forall|fsm: &mut ModemSessionFsm, r: Vec<FsmAction>| #[trigger]
                call_ensures(ModemSessionFsm::step, (fsm, FsmEvent::TcpClosed), r) && fsm.state
                    == ModemSessionState::InSession ==> final(fsm).state
                    == ModemSessionState::Terminated && action_views(r@) == told
        }),
{
    let told = seq![
        FsmActionView::CancelTimer(TimerId(TIMER_HEARTBEAT)),
        FsmActionView::CancelTimer(TimerId(TIMER_HEARTBEAT_MISSED)),
        FsmActionView::Emit(EmittedEventView::SessionDown(StatusCode(132))),
    ];
    assert forall|fsm: &mut RouterSessionFsm, r: Vec<FsmAction>| #[trigger]
        call_ensures(RouterSessionFsm::step, (fsm, FsmEvent::TcpClosed), r) && fsm.state
            == RouterSessionState::InSession implies final(fsm).state
        == RouterSessionState::Terminated && action_views(r@) == told by {
        router_laws::law_router_loses_the_connection((*fsm)@);
        assert((*final(fsm))@.state == final(fsm).state);
    }
    assert forall|fsm: &mut ModemSessionFsm, r: Vec<FsmAction>| #[trigger]
        call_ensures(ModemSessionFsm::step, (fsm, FsmEvent::TcpClosed), r) && fsm.state
            == ModemSessionState::InSession implies final(fsm).state
        == ModemSessionState::Terminated && action_views(r@) == told by {
        modem_laws::law_modem_loses_the_connection((*fsm)@);
        assert((*final(fsm))@.state == final(fsm).state);
    }
}

/// At most one request is open at a time: of the session, and of each
/// destination. Opening a second one is refused with the one that is open and
/// changes nothing; closing gives back what was open.
pub proof fn law_one_request_at_a_time(mac: MacAddress, kind: RequestKind)
    ensures
        forall|tx: &mut TransactionTracker, r: Result<(), PendingRequest>| #[trigger]
            call_ensures(TransactionTracker::open_session, (tx, kind), r) ==> match (
            *tx)@.session_pending {
                Some(open) => r == Err::<(), PendingRequest>(open) && (*final(tx))@ == (*tx)@,
                None => r is Ok && (*final(tx))@.session_pending == Some(PendingRequest { kind })
                    && (*final(tx))@.per_destination == (*tx)@.per_destination,
            },
        forall|tx: &mut TransactionTracker, r: Option<PendingRequest>| #[trigger]
            call_ensures(TransactionTracker::close_session, (tx,), r) ==> r == (
            *tx)@.session_pending && (*final(tx))@.session_pending is None && (
            *final(tx))@.per_destination == (*tx)@.per_destination,
        forall|tx: &mut TransactionTracker, r: Result<(), PendingRequest>| #[trigger]
            call_ensures(TransactionTracker::open_destination, (tx, mac, kind), r) ==> if (
            *tx)@.per_destination.contains_key(mac) {
                r == Err::<(), PendingRequest>((*tx)@.per_destination[mac]) && (*final(tx))@ == (
                *tx)@
            } else {
                r is Ok && (*final(tx))@.session_pending == (*tx)@.session_pending && (
                *final(tx))@.per_destination == (*tx)@.per_destination.insert(
                    mac,
                    PendingRequest { kind },
                )
            },
        forall|tx: &mut TransactionTracker, r: Option<PendingRequest>| #[trigger]
            call_ensures(TransactionTracker::close_destination, (tx, &mac), r) ==> (r is Some <==> (
            *tx)@.per_destination.contains_key(mac)) && (r matches Some(open) ==> open == (
            *tx)@.per_destination[mac]) && (*final(tx))@.session_pending == (*tx)@.session_pending
                && (*final(tx))@.per_destination == (*tx)@.per_destination.remove(mac),
{
}

/// A request is seen to be open exactly if it is.
pub proof fn law_busy_is_seen(tx: TransactionTracker, mac: MacAddress, session: bool, about: bool)
    requires
        call_ensures(TransactionTracker::session_busy, (&tx,), session),
        call_ensures(TransactionTracker::destination_busy, (&tx, &mac), about),
    ensures
        session <==> tx@.session_pending is Some,
        about <==> tx@.per_destination.contains_key(mac),
{
}

/// A map from addresses holds what was put in under each address, and nothing
/// once it was taken out.
pub proof fn law_maps_keep_addresses_apart<V>(mac: MacAddress, value: V)
    ensures
        forall|map: &mut MacMap<V>, r: Option<V>| #[trigger]
            call_ensures(MacMap::<V>::insert, (map, mac, value), r) ==> (*final(map))@ == (
            *map)@.insert(mac, value) && (r is Some <==> (*map)@.contains_key(mac)),
        forall|map: &mut MacMap<V>, r: Option<V>| #[trigger]
            call_ensures(MacMap::<V>::remove, (map, &mac), r) ==> (*final(map))@ == (*map)@.remove(
                mac,
            ) && (r is Some <==> (*map)@.contains_key(mac)) && (r matches Some(v) ==> v == (
            *map)@[mac]),
{
}

/// Messages about the session are built as what they are to say.
pub proof fn law_session_messages_are_built(
    reason: StatusCode,
    heartbeat: Message,
    termination: Message,
    response: Message,
)
    requires
        call_ensures(build_heartbeat, (), heartbeat),
        call_ensures(build_session_termination, (reason,), termination),
        call_ensures(build_session_termination_response, (), response),
    ensures
        heartbeat@ == MessageView::heartbeat(),
        termination@ == MessageView::session_termination(reason),
        response@ == MessageView::session_termination_response(),
{
}

/// Messages about destinations are built as what they are to say.
pub proof fn law_destination_messages_are_built(
    mac: MacAddress,
    metrics: LinkMetrics,
    addrs: DestinationAddrs,
    status: StatusCode,
    up: Message,
    update: Message,
    down: Message,
    up_response: Message,
    down_response: Message,
)
    requires
        call_ensures(build_destination_up, (mac, &metrics, &addrs), up),
        call_ensures(build_destination_update, (mac, &metrics), update),
        call_ensures(build_destination_down, (mac, status), down),
        call_ensures(build_destination_up_response, (mac, status), up_response),
        call_ensures(build_destination_down_response, (mac, status), down_response),
    ensures
        up@ == MessageView::destination_up(mac, metrics, addrs@),
        update@ == MessageView::destination_update(mac, metrics),
        down@ == MessageView::destination_down(mac, status),
        up_response@ == MessageView::destination_up_response(mac, status),
        down_response@ == MessageView::destination_down_response(mac, status),
{
}

/// What is read out of a message is what it says.
pub proof fn law_messages_are_read(
    message: Message,
    status: Option<StatusCode>,
    interval: Option<Duration>,
    extensions: Option<Vec<ExtensionId>>,
    mac: Option<MacAddress>,
    metrics: Option<LinkMetrics>,
    addrs: DestinationAddrs,
)
    requires
        call_ensures(extract_status, (&message,), status),
        call_ensures(extract_heartbeat_interval, (&message,), interval),
        call_ensures(extract_extensions_supported, (&message,), extensions),
        call_ensures(extract_destination_mac, (&message,), mac),
        call_ensures(extract_link_metrics, (&message,), metrics),
        call_ensures(extract_destination_addrs, (&message,), addrs),
    ensures
        status == message@.status(),
        interval == message@.heartbeat_interval(),
        extensions is Some <==> message@.extensions() is Some,
        extensions matches Some(ids) ==> message@.extensions() == Some(ids@),
        mac == message@.mac(),
        metrics == message@.link_metrics(),
        addrs@ == session_common::addrs_of(message@.data_items),
{
}

/// Signals are built as what they are to say, and what is read out of one is
/// what it says.
pub proof fn law_signals_are_built_and_read(
    description: &str,
    endpoint: SocketAddr,
    use_tls: bool,
    signal: Signal,
    probe: Signal,
    offer: Signal,
    said: Option<String>,
    found: Option<OfferEndpoint>,
)
    requires
        call_ensures(build_peer_discovery, (description,), probe),
        call_ensures(build_peer_offer, (description, endpoint, use_tls), offer),
        call_ensures(extract_peer_description, (&signal,), said),
        call_ensures(extract_offer_endpoint, (&signal,), found),
    ensures
        probe@ == SignalView::peer_discovery(description@),
        offer@ == SignalView::peer_offer(description@, endpoint, use_tls),
        said is Some <==> signal@.peer_description() is Some,
        said matches Some(text) ==> signal@.peer_description() == Some(text@),
        found == signal@.offer_endpoint(),
{
}

/// The deadline is twice the peer's interval, where there is one of at least a
/// second and timers can hold twice of it; the interval announced is never less
/// than a second.
pub proof fn law_heartbeat_spans(
    config: SessionConfig,
    id: TimerId,
    peer: Option<Duration>,
    announced: Duration,
    action: Option<FsmAction>,
)
    requires
        call_ensures(local_heartbeat_interval, (&config,), announced),
        call_ensures(heartbeat_reset_action, (id, peer), action),
    ensures
        announced.nanos == if config.heartbeat_interval_ms >= 1_000 {
            config.heartbeat_interval_ms * 1_000_000
        } else {
            1_000_000_000
        },
        action is Some <==> (peer matches Some(d) && 1_000_000_000 <= d.nanos && d.nanos * 2
            <= 18_446_744_073_709_551_615_999_999_999),
        action matches Some(a) ==> (a matches FsmAction::ResetHeartbeat {
            timer_id,
            missed_deadline,
        } && timer_id == id && missed_deadline.nanos == peer->Some_0.nanos * 2),
{
}

} // verus!
