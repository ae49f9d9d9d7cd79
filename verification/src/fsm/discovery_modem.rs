//! Discovery state machine of the modem.

use vstd::prelude::*;
use crate::fsm::discovery_common::build_peer_offer;
use crate::fsm::events;
use crate::fsm::events::{FsmAction, FsmActionView, FsmEvent, FsmEventView, SendTarget};
use crate::fsm::session_common::{no_actions, push_action};
use crate::proto::addr::SocketAddr;
use crate::proto::ids::SignalType;
use crate::proto::signal::SignalView;

verus! {

/// States of discovery on the modem.
#[derive(Clone, Copy, Debug, PartialEq, Eq, Structural)]
pub enum ModemDiscoveryState {
    Listening,
    OfferBurst,
}

impl Default for ModemDiscoveryState {
    fn default() -> (r: Self)
        ensures
            r == ModemDiscoveryState::Listening,
    {
        ModemDiscoveryState::Listening
    }
}

#[derive(Debug)]
pub struct ModemDiscoveryFsm {
    pub state: ModemDiscoveryState,
    pub tcp_endpoint: SocketAddr,
    pub peer_description: String,
    pub use_tls: bool,
}

#[verifier::ext_equal]
pub struct ModemDiscoveryView {
    pub state: ModemDiscoveryState,
    pub tcp_endpoint: SocketAddr,
    pub peer_description: Seq<char>,
    pub use_tls: bool,
}

impl View for ModemDiscoveryFsm {
    type V = ModemDiscoveryView;

    open spec fn view(&self) -> ModemDiscoveryView {
        ModemDiscoveryView {
            state: self.state,
            tcp_endpoint: self.tcp_endpoint,
            peer_description: self.peer_description@,
            use_tls: self.use_tls,
        }
    }
}

impl ModemDiscoveryView {
    pub open spec fn at(self, state: ModemDiscoveryState) -> Self {
        ModemDiscoveryView { state, ..self }
    }

    /// What an event does: each Peer Discovery is answered with an offer to
    /// its sender, shutdown goes back to listening, all else is ignored.
    pub open spec fn next(self, event: FsmEventView) -> (Self, Seq<FsmActionView>) {
        match event {
            FsmEventView::RecvSignal { signal, from } => if signal.signal_type == SignalType(
                SignalType::PEER_DISCOVERY,
            ) {
                (
                    self.at(ModemDiscoveryState::OfferBurst),
                    seq![
                        FsmActionView::SendSignal {
                            signal: SignalView::peer_offer(
                                self.peer_description,
                                self.tcp_endpoint,
                                self.use_tls,
                            ),
                            target: SendTarget::Unicast(from),
                        },
                    ],
                )
            } else {
                (self, Seq::empty())
            },
            FsmEventView::AppShutdown { .. } => (
                self.at(ModemDiscoveryState::Listening),
                Seq::empty(),
            ),
            _ => (self, Seq::empty()),
        }
    }
}

impl ModemDiscoveryFsm {
    pub fn new(tcp_endpoint: SocketAddr, peer_description: String, use_tls: bool) -> (r: Self)
        ensures
            r@ == (ModemDiscoveryView {
                state: ModemDiscoveryState::Listening,
                tcp_endpoint,
                peer_description: peer_description@,
                use_tls,
            }),
    {
        ModemDiscoveryFsm {
            state: ModemDiscoveryState::Listening,
            tcp_endpoint,
            peer_description,
            use_tls,
        }
    }

    /// Take one event and return the actions that it calls for, in order.
    pub fn step(&mut self, event: FsmEvent) -> (r: Vec<FsmAction>)
        ensures
            (final(self)@, events::action_views(r@)) == old(self)@.next(event@),
    {
        let ghost expected = self@.next(event@);
        let mut actions = no_actions();
        match event {
            FsmEvent::RecvSignal { signal, from } => {
                if signal.signal_type == SignalType(SignalType::PEER_DISCOVERY) {
                    self.state = ModemDiscoveryState::OfferBurst;
                    push_action(
                        &mut actions,
                        FsmAction::SendSignal {
                            signal: build_peer_offer(
                                self.peer_description.as_str(),
                                self.tcp_endpoint,
                                self.use_tls,
                            ),
                            target: SendTarget::Unicast(from),
                        },
                    );
                }
            },
            FsmEvent::AppShutdown { .. } => {
                self.state = ModemDiscoveryState::Listening;
            },
            _ => {},
        }
        assert(events::action_views(actions@) =~= expected.1);
        actions
    }
}

} // verus!
