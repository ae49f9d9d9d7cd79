//! What discovery does, event by event, on either side.

use vstd::prelude::*;
use crate::fsm::discovery_modem::{ModemDiscoveryFsm, ModemDiscoveryState, ModemDiscoveryView};
use crate::fsm::discovery_router::{
    RouterDiscoveryConfig, RouterDiscoveryFsm, RouterDiscoveryState, RouterDiscoveryView,
    TIMER_DISCOVERY,
};
use crate::fsm::events::{
    EmittedEventView, FsmActionView, FsmEventView, SendTarget,
};
use crate::fsm::timers::{TimerId, TimerKind};
use crate::proto::addr::SocketAddr;
use crate::proto::duration::Duration;
use crate::proto::signal::SignalView;
use crate::proto::status::StatusCode;

verus! {

/// What is seen of either discovery is what it holds.
pub proof fn law_discovery_is_what_it_holds(router: RouterDiscoveryFsm, modem: ModemDiscoveryFsm)
    ensures
        router@.state == router.state,
        router@.peer_description == router.config.peer_description@,
        router@.discovery_interval == router.config.discovery_interval,
        modem@.state == modem.state,
        modem@.tcp_endpoint == modem.tcp_endpoint,
        modem@.peer_description == modem.peer_description@,
        modem@.use_tls == modem.use_tls,
{
}

/// A search that was not configured probes every five seconds.
pub proof fn law_standard_search(config: RouterDiscoveryConfig, fsm: RouterDiscoveryFsm)
    requires
        call_ensures(<RouterDiscoveryConfig as Default>::default, (), config),
        call_ensures(RouterDiscoveryFsm::new, (), fsm),
    ensures
        config.discovery_interval.nanos == 5_000_000_000,
        config.peer_description@ == "dlep-router"@,
        fsm@.discovery_interval.nanos == 5_000_000_000,
        fsm@.peer_description == "dlep-router"@,
        fsm@.state == RouterDiscoveryState::Idle,
{
}

/// A router's discovery begins idle, with the description and the interval that
/// it was given.
pub proof fn law_fresh_search(description: Seq<char>, interval: Duration)
    ensures
        ({
            let fresh = RouterDiscoveryView::fresh(description, interval);
            &&& fresh.state == RouterDiscoveryState::Idle
            &&& fresh.peer_description == description
            &&& fresh.discovery_interval == interval
        }),
{
}

/// An idle router that is to search does exactly two things: it sends its probe
/// to the group, and starts a periodic timer at the configured interval.
pub proof fn law_search_begins(router: RouterDiscoveryView)
    requires
        router.state == RouterDiscoveryState::Idle,
    ensures
        router.next(FsmEventView::AppStartDiscovery) == (
            RouterDiscoveryView { state: RouterDiscoveryState::Probing, ..router },
            seq![
                FsmActionView::SendSignal {
                    signal: SignalView::peer_discovery(router.peer_description),
                    target: SendTarget::DiscoveryGroup,
                },
                FsmActionView::StartTimer {
                    id: TimerId(TIMER_DISCOVERY),
                    kind: TimerKind::Discovery,
                    duration: router.discovery_interval,
                    periodic: true,
                },
            ],
        ),
{
}

/// Every interval of a search sends the probe to the group once more.
pub proof fn law_search_goes_on(router: RouterDiscoveryView, id: TimerId)
    requires
        router.state == RouterDiscoveryState::Probing,
    ensures
        router.next(FsmEventView::TimerExpired(id, TimerKind::Discovery)) == (
            router,
            seq![
                FsmActionView::SendSignal {
                    signal: SignalView::peer_discovery(router.peer_description),
                    target: SendTarget::DiscoveryGroup,
                },
            ],
        ),
{
}

/// A search ends with the first offer that names an endpoint: the timer is
/// stopped, and the application hears the endpoint, the description and whether
/// to use TLS. No other signal ends it.
pub proof fn law_search_ends(router: RouterDiscoveryView, signal: SignalView, from: SocketAddr)
    requires
        router.state == RouterDiscoveryState::Probing,
    ensures
        router.next(FsmEventView::RecvSignal { signal, from }) == match signal.offer_endpoint() {
            Some(endpoint) => if signal.signal_type.0 == 2 {
                (
                    RouterDiscoveryView { state: RouterDiscoveryState::OfferReceived, ..router },
                    seq![
                        FsmActionView::CancelTimer(TimerId(TIMER_DISCOVERY)),
                        FsmActionView::Emit(
                            EmittedEventView::PeerDiscovered {
                                addr: endpoint.addr,
                                peer_description: signal.peer_description(),
                                use_tls: endpoint.use_tls,
                            },
                        ),
                    ],
                )
            } else {
                (router, Seq::<FsmActionView>::empty())
            },
            None => (router, Seq::<FsmActionView>::empty()),
        },
{
}

/// Shutting down makes a router's discovery idle; a search that is under way
/// stops its timer.
pub proof fn law_search_is_called_off(router: RouterDiscoveryView, reason: StatusCode)
    ensures
        router.next(FsmEventView::AppShutdown { reason }) == (
            RouterDiscoveryView { state: RouterDiscoveryState::Idle, ..router },
            if router.state == RouterDiscoveryState::Probing {
                seq![FsmActionView::CancelTimer(TimerId(TIMER_DISCOVERY))]
            } else {
                Seq::<FsmActionView>::empty()
            },
        ),
{
}

/// Nothing else moves a router's discovery.
pub proof fn law_search_ignores(router: RouterDiscoveryView, event: FsmEventView)
    requires
        match event {
            FsmEventView::AppStartDiscovery => router.state != RouterDiscoveryState::Idle,
            FsmEventView::TimerExpired(_, kind) => router.state != RouterDiscoveryState::Probing
                || !(kind is Discovery),
            FsmEventView::RecvSignal { .. } => router.state != RouterDiscoveryState::Probing,
            FsmEventView::AppShutdown { .. } => false,
            _ => true,
        },
    ensures
        router.next(event) == (router, Seq::<FsmActionView>::empty()),
{
}

/// A modem answers every probe, in whatever state, with an offer of its own
/// endpoint, to the sender alone. It answers no other signal; shutting down
/// makes it listen again; and nothing else moves it.
pub proof fn law_modem_offers(modem: ModemDiscoveryView, event: FsmEventView)
    ensures
        modem.next(event) == match event {
            FsmEventView::RecvSignal { signal, from } => if signal.signal_type.0 == 1 {
                (
                    ModemDiscoveryView { state: ModemDiscoveryState::OfferBurst, ..modem },
                    seq![
                        FsmActionView::SendSignal {
                            signal: SignalView::peer_offer(
                                modem.peer_description,
                                modem.tcp_endpoint,
                                modem.use_tls,
                            ),
                            target: SendTarget::Unicast(from),
                        },
                    ],
                )
            } else {
                (modem, Seq::<FsmActionView>::empty())
            },
            FsmEventView::AppShutdown { .. } => (
                ModemDiscoveryView { state: ModemDiscoveryState::Listening, ..modem },
                Seq::<FsmActionView>::empty(),
            ),
            _ => (modem, Seq::<FsmActionView>::empty()),
        },
{
}

} // verus!
