//! What holds of discovery, on each side and between the two.

use vstd::prelude::*;
use crate::daemon::discovery::{
    reacts_to_expiry, reacts_to_signal, worked_off, DiscoveryDriverView, DiscoveryEffectView,
};
use crate::daemon::events::{DaemonEventView, PeerInfoView};
use crate::fsm::discovery_common;
use crate::fsm::discovery_modem::{ModemDiscoveryFsm, ModemDiscoveryView};
use crate::fsm::discovery_router::{
    RouterDiscoveryFsm, RouterDiscoveryState, RouterDiscoveryView, TIMER_DISCOVERY,
};
use crate::fsm::events::{
    EmittedEventView, FsmActionView, FsmEventView, SendTarget,
};
use crate::fsm::session_common;
use crate::fsm::timers::{TimerId, TimerKind};
use crate::net::gtsm;
use crate::proto::addr::SocketAddr;
use crate::proto::error::CodecErrorView;
use crate::proto::laws;
use crate::proto::signal::SignalView;

verus! {

/// Discovery as a whole: what a router in search of a modem sends is answered
/// by the modem, to the router alone; and with the answer the router has found
/// the modem's endpoint, transport and description, and stops searching.
pub proof fn law_discovery_finds_the_modem(
    router: RouterDiscoveryView,
    modem: ModemDiscoveryView,
    router_addr: SocketAddr,
    modem_addr: SocketAddr,
)
    requires
        router.state == RouterDiscoveryState::Idle,
    ensures
        ({
            let probe = SignalView::peer_discovery(router.peer_description);
            let offer = SignalView::peer_offer(
                modem.peer_description,
                modem.tcp_endpoint,
                modem.use_tls,
            );
            let (searching, first) = router.next(FsmEventView::AppStartDiscovery);
            let (_, answers) = modem.next(
                FsmEventView::RecvSignal { signal: probe, from: router_addr },
            );
            let (found, last) = searching.next(
                FsmEventView::RecvSignal { signal: offer, from: modem_addr },
            );
            &&& first[0] == (FsmActionView::SendSignal {
                signal: probe,
                target: SendTarget::DiscoveryGroup,
            })
            &&& answers == seq![
                FsmActionView::SendSignal {
                    signal: offer,
                    target: SendTarget::Unicast(router_addr),
                },
            ]
            &&& found.state == RouterDiscoveryState::OfferReceived
            &&& last == seq![
                session_common::cancels(TIMER_DISCOVERY),
                FsmActionView::Emit(
                    EmittedEventView::PeerDiscovered {
                        addr: modem.tcp_endpoint,
                        peer_description: Some(modem.peer_description),
                        use_tls: modem.use_tls,
                    },
                ),
            ]
        }),
{
    discovery_common::law_offer_is_found(
        modem.peer_description,
        modem.tcp_endpoint,
        modem.use_tls,
    );
}

/// Both signals arrive as they were sent, wherever they have a wire form.
pub proof fn law_signals_survive_the_wire(
    description: Seq<char>,
    endpoint: SocketAddr,
    use_tls: bool,
)
    ensures
        SignalView::peer_discovery(description).wire_form() matches Ok(octets) ==> SignalView::read(
            octets,
        ) == Ok::<SignalView, CodecErrorView>(SignalView::peer_discovery(description)),
        SignalView::peer_offer(description, endpoint, use_tls).wire_form() matches Ok(octets)
            ==> SignalView::read(octets) == Ok::<SignalView, CodecErrorView>(
            SignalView::peer_offer(description, endpoint, use_tls),
        ),
{
    let probe = SignalView::peer_discovery(description);
    if let Ok(octets) = probe.wire_form() {
        laws::law_signal_roundtrip(probe, Seq::empty());
        assert(octets + Seq::<u8>::empty() =~= octets);
    }
    let offer = SignalView::peer_offer(description, endpoint, use_tls);
    if let Ok(octets) = offer.wire_form() {
        laws::law_signal_roundtrip(offer, Seq::empty());
        assert(octets + Seq::<u8>::empty() =~= octets);
    }
}

/// A signal that was forwarded on its way has no effect, whatever it says.
pub proof fn law_forwarded_signals_are_dropped(
    router: DiscoveryDriverView<RouterDiscoveryView>,
    modem: DiscoveryDriverView<ModemDiscoveryView>,
    signal: SignalView,
    from: SocketAddr,
    ttl: u8,
)
    requires
        ttl < gtsm::REQUIRED_TTL,
    ensures
        reacts_to_signal::<RouterDiscoveryFsm>(router, signal, from, ttl) == (
            router,
            Seq::<DiscoveryEffectView>::empty(),
        ),
        reacts_to_signal::<ModemDiscoveryFsm>(modem, signal, from, ttl) == (
            modem,
            Seq::<DiscoveryEffectView>::empty(),
        ),
{
}

/// Once a router has found a modem it probes no more, even if the expiry of the
/// probe timer is already on its way: no signal and no expiry has an effect
/// until discovery is shut down.
pub proof fn law_found_is_found(
    router: DiscoveryDriverView<RouterDiscoveryView>,
    signal: SignalView,
    from: SocketAddr,
    ttl: u8,
    id: TimerId,
    kind: TimerKind,
    generation: u64,
)
    requires
        router.fsm.state == RouterDiscoveryState::OfferReceived,
    ensures
        reacts_to_signal::<RouterDiscoveryFsm>(router, signal, from, ttl).1.len() == 0,
        reacts_to_expiry::<RouterDiscoveryFsm>(router, id, kind, generation).1.len() == 0,
        reacts_to_signal::<RouterDiscoveryFsm>(router, signal, from, ttl).0.fsm == router.fsm,
        reacts_to_expiry::<RouterDiscoveryFsm>(router, id, kind, generation).0.fsm == router.fsm,
{
}

/// A usable offer that a router hears while it searches stops the probe timer
/// and is published, and nothing else happens.
pub proof fn law_offer_is_published(
    router: DiscoveryDriverView<RouterDiscoveryView>,
    description: Seq<char>,
    endpoint: SocketAddr,
    use_tls: bool,
    from: SocketAddr,
)
    requires
        router.fsm.state == RouterDiscoveryState::Probing,
    ensures
        ({
            let offer = SignalView::peer_offer(description, endpoint, use_tls);
            let (after, effects) = reacts_to_signal::<RouterDiscoveryFsm>(
                router,
                offer,
                from,
                gtsm::REQUIRED_TTL,
            );
            &&& after.fsm.state == RouterDiscoveryState::OfferReceived
            &&& !after.timers.armed.contains_key(TIMER_DISCOVERY)
            &&& effects == seq![
                DiscoveryEffectView::StopTimer(TimerId(TIMER_DISCOVERY)),
                DiscoveryEffectView::Publish(
                    DaemonEventView::PeerDiscovered(
                        PeerInfoView {
                            addr: endpoint,
                            is_tls: use_tls,
                            peer_description: Some(description),
                        },
                    ),
                ),
            ]
        }),
{
    discovery_common::law_offer_is_found(description, endpoint, use_tls);
    let offer = SignalView::peer_offer(description, endpoint, use_tls);
    let actions = router.fsm.next(FsmEventView::RecvSignal { signal: offer, from }).1;
    reveal_with_fuel(worked_off, 3);
    assert(actions.drop_last().drop_last() =~= Seq::<FsmActionView>::empty());
    assert(actions.drop_last().last() == actions[0]);
    let effects = worked_off(router.timers, actions).effects;
    assert(effects =~= seq![
        DiscoveryEffectView::StopTimer(TimerId(TIMER_DISCOVERY)),
        DiscoveryEffectView::Publish(
            DaemonEventView::PeerDiscovered(
                PeerInfoView {
                    addr: endpoint,
                    is_tls: use_tls,
                    peer_description: Some(description),
                },
            ),
        ),
    ]);
}

/// A search goes on until it succeeds: each expiry of the probe timer sends the
/// probe once more, and the timer stays armed.
pub proof fn law_probing_goes_on(
    router: DiscoveryDriverView<RouterDiscoveryView>,
    generation: u64,
    octets: Seq<u8>,
)
    requires
        router.fsm.state == RouterDiscoveryState::Probing,
        router.timers.is_current(TimerId(TIMER_DISCOVERY), generation),
        router.timers.armed[TIMER_DISCOVERY].periodic,
        SignalView::peer_discovery(router.fsm.peer_description).wire_form() == Ok::<
            Seq<u8>,
            CodecErrorView,
        >(octets),
    ensures
        reacts_to_expiry::<RouterDiscoveryFsm>(
            router,
            TimerId(TIMER_DISCOVERY),
            TimerKind::Discovery,
            generation,
        ) == (router, seq![DiscoveryEffectView::SendToGroup(octets)]),
{
    let event = FsmEventView::TimerExpired(TimerId(TIMER_DISCOVERY), TimerKind::Discovery);
    let actions = router.fsm.next(event).1;
    reveal_with_fuel(worked_off, 2);
    assert(actions.drop_last() =~= Seq::<FsmActionView>::empty());
    assert(worked_off(router.timers, actions).effects =~= seq![
        DiscoveryEffectView::SendToGroup(octets),
    ]);
}

} // verus!
