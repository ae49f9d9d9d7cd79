//! Discovery state machine of the router.

use vstd::prelude::*;
use crate::fsm::discovery_common::{
    build_peer_discovery, extract_offer_endpoint, extract_peer_description,
};
use crate::fsm::events;
use crate::fsm::events::{
    EmittedEvent, EmittedEventView, FsmAction, FsmActionView, FsmEvent, FsmEventView, SendTarget,
};
use crate::fsm::session_common;
use crate::fsm::session_common::{no_actions, push_action, push_cancel};
use crate::fsm::timers::{TimerId, TimerKind};
use crate::proto::duration::Duration;
use crate::proto::ids::SignalType;
use crate::proto::signal::SignalView;

verus! {

/// Timer that repeats Peer Discovery.
pub const TIMER_DISCOVERY: u32 = 10;

/// States of discovery on the router.
#[derive(Clone, Copy, Debug, PartialEq, Eq, Structural)]
pub enum RouterDiscoveryState {
    Idle,
    Probing,
    OfferReceived,
}

impl Default for RouterDiscoveryState {
    fn default() -> (r: Self)
        ensures
            r == RouterDiscoveryState::Idle,
    {
        RouterDiscoveryState::Idle
    }
}

#[derive(Clone, Debug)]
pub struct RouterDiscoveryConfig {
    pub peer_description: String,
    pub discovery_interval: Duration,
}

impl Default for RouterDiscoveryConfig {
    fn default() -> (r: Self)
        ensures
            r.peer_description@ == "dlep-router"@,
            r.discovery_interval == session_common::SessionConfigView::of_millis(5_000),
    {
        RouterDiscoveryConfig {
            peer_description: "dlep-router".to_owned(),
            discovery_interval: Duration::from_millis(5_000),
        }
    }
}

#[derive(Debug)]
pub struct RouterDiscoveryFsm {
    pub state: RouterDiscoveryState,
    pub config: RouterDiscoveryConfig,
}

#[verifier::ext_equal]
pub struct RouterDiscoveryView {
    pub state: RouterDiscoveryState,
    pub peer_description: Seq<char>,
    pub discovery_interval: Duration,
}

impl View for RouterDiscoveryFsm {
    type V = RouterDiscoveryView;

    open spec fn view(&self) -> RouterDiscoveryView {
        RouterDiscoveryView {
            state: self.state,
            peer_description: self.config.peer_description@,
            discovery_interval: self.config.discovery_interval,
        }
    }
}

impl RouterDiscoveryView {
    /// Discovery that has not begun.
    pub open spec fn fresh(peer_description: Seq<char>, discovery_interval: Duration) -> Self {
        RouterDiscoveryView {
            state: RouterDiscoveryState::Idle,
            peer_description,
            discovery_interval,
        }
    }

    pub open spec fn at(self, state: RouterDiscoveryState) -> Self {
        RouterDiscoveryView { state, ..self }
    }

    /// Peer Discovery to the multicast group.
    pub open spec fn probe(self) -> FsmActionView {
        FsmActionView::SendSignal {
            signal: SignalView::peer_discovery(self.peer_description),
            target: SendTarget::DiscoveryGroup,
        }
    }

    /// What an event does while probing: the timer repeats the probe, the first
    /// usable offer ends the search, and everything else is ignored, notably
    /// the probes of other routers.
    pub open spec fn next_probing(self, event: FsmEventView) -> (Self, Seq<FsmActionView>) {
        match event {
            FsmEventView::TimerExpired(_, TimerKind::Discovery) => (self, seq![self.probe()]),
            FsmEventView::RecvSignal { signal, .. } => if signal.signal_type == SignalType(
                SignalType::PEER_OFFER,
            ) && signal.offer_endpoint() is Some {
                let endpoint = signal.offer_endpoint()->Some_0;
                (
                    self.at(RouterDiscoveryState::OfferReceived),
                    seq![
                        session_common::cancels(TIMER_DISCOVERY),
                        FsmActionView::Emit(
                            EmittedEventView::PeerDiscovered {
                                addr: endpoint.addr,
                                peer_description: signal.peer_description(),
                                use_tls: endpoint.use_tls,
                            },
                        ),
                    ],
                )
            } else {
                (self, Seq::empty())
            },
            FsmEventView::AppShutdown { .. } => (
                self.at(RouterDiscoveryState::Idle),
                seq![session_common::cancels(TIMER_DISCOVERY)],
            ),
            _ => (self, Seq::empty()),
        }
    }

    /// What an event does: discovery afterwards, and the actions in order.
    pub open spec fn next(self, event: FsmEventView) -> (Self, Seq<FsmActionView>) {
        match self.state {
            RouterDiscoveryState::Idle => match event {
                FsmEventView::AppStartDiscovery => (
                    self.at(RouterDiscoveryState::Probing),
                    seq![
                        self.probe(),
                        FsmActionView::StartTimer {
                            id: TimerId(TIMER_DISCOVERY),
                            kind: TimerKind::Discovery,
                            duration: self.discovery_interval,
                            periodic: true,
                        },
                    ],
                ),
                _ => (self, Seq::empty()),
            },
            RouterDiscoveryState::Probing => self.next_probing(event),
            RouterDiscoveryState::OfferReceived => match event {
                FsmEventView::AppShutdown { .. } => (
                    self.at(RouterDiscoveryState::Idle),
                    Seq::empty(),
                ),
                _ => (self, Seq::empty()),
            },
        }
    }
}

impl Default for RouterDiscoveryFsm {
    fn default() -> (r: Self)
        ensures
            r@ == RouterDiscoveryView::fresh(
                "dlep-router"@,
                session_common::SessionConfigView::of_millis(5_000),
            ),
    {
        RouterDiscoveryFsm::with_config(RouterDiscoveryConfig::default())
    }
}

impl RouterDiscoveryFsm {
    pub fn new() -> (r: Self)
        ensures
            r@ == RouterDiscoveryView::fresh(
                "dlep-router"@,
                session_common::SessionConfigView::of_millis(5_000),
            ),
    {
        RouterDiscoveryFsm::default()
    }

    pub fn with_config(config: RouterDiscoveryConfig) -> (r: Self)
        ensures
            r@ == RouterDiscoveryView::fresh(config.peer_description@, config.discovery_interval),
    {
        RouterDiscoveryFsm { state: RouterDiscoveryState::Idle, config }
    }

    fn push_probe(&self, actions: &mut Vec<FsmAction>)
        ensures
            events::action_views(final(actions)@) == events::action_views(old(actions)@).push(
                self@.probe(),
            ),
    {
        push_action(
            actions,
            FsmAction::SendSignal {
                signal: build_peer_discovery(self.config.peer_description.as_str()),
                target: SendTarget::DiscoveryGroup,
            },
        );
    }

    /// Take one event and return the actions that it calls for, in order.
    pub fn step(&mut self, event: FsmEvent) -> (r: Vec<FsmAction>)
        ensures
            (final(self)@, events::action_views(r@)) == old(self)@.next(event@),
    {
        let ghost expected = self@.next(event@);
        let mut actions = no_actions();
        match (self.state, event) {
            (RouterDiscoveryState::Idle, FsmEvent::AppStartDiscovery) => {
                self.state = RouterDiscoveryState::Probing;
                self.push_probe(&mut actions);
                push_action(
                    &mut actions,
                    FsmAction::StartTimer {
                        id: TimerId(TIMER_DISCOVERY),
                        kind: TimerKind::Discovery,
                        duration: self.config.discovery_interval,
                        periodic: true,
                    },
                );
            },
            (RouterDiscoveryState::Probing, FsmEvent::TimerExpired(_, TimerKind::Discovery)) => {
                self.push_probe(&mut actions);
            },
            (RouterDiscoveryState::Probing, FsmEvent::RecvSignal { signal, .. }) => {
                if signal.signal_type == SignalType(SignalType::PEER_OFFER) {
                    // An offer without an endpoint is of no use: keep probing.
                    if let Some(endpoint) = extract_offer_endpoint(&signal) {
                        let peer_description = extract_peer_description(&signal);
                        self.state = RouterDiscoveryState::OfferReceived;
                        push_cancel(&mut actions, TIMER_DISCOVERY);
                        push_action(
                            &mut actions,
                            FsmAction::Emit(
                                EmittedEvent::PeerDiscovered {
                                    addr: endpoint.addr,
                                    peer_description,
                                    use_tls: endpoint.use_tls,
                                },
                            ),
                        );
                    }
                }
            },
            (_, FsmEvent::AppShutdown { .. }) => {
                let was_probing = self.state == RouterDiscoveryState::Probing;
                self.state = RouterDiscoveryState::Idle;
                if was_probing {
                    push_cancel(&mut actions, TIMER_DISCOVERY);
                }
            },
            _ => {},
        }
        assert(events::action_views(actions@) =~= expected.1);
        actions
    }
}

} // verus!
