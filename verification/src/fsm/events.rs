//! What goes into the state machines and what comes out of them.

use vstd::prelude::*;
use crate::fsm::timers::{TimerId, TimerKind};
use crate::proto::addr::{Ipv4Addr, Ipv6Addr, SocketAddr};
use crate::proto::duration::Duration;
use crate::proto::ids::ExtensionId;
use crate::proto::mac::MacAddress;
use crate::proto::message::{Message, MessageView};
use crate::proto::signal::{Signal, SignalView};
use crate::proto::status::StatusCode;
use crate::proto::subnet::{Ipv4Net, Ipv4NetView, Ipv6Net, Ipv6NetView};

pub use crate::proto::metrics::LinkMetrics;

verus! {

/// Where a signal goes.
#[derive(Clone, Copy, Debug)]
pub enum SendTarget {
    /// Multicast discovery.
    DiscoveryGroup,
    /// Unicast reply to a discovered peer.
    Unicast(SocketAddr),
}

/// Addresses and subnets of a destination. All four lists may be empty: the
/// modem reports what it knows.
#[derive(Clone, Debug)]
pub struct DestinationAddrs {
    pub v4: Vec<Ipv4Addr>,
    pub v6: Vec<Ipv6Addr>,
    pub v4_subnets: Vec<Ipv4Net>,
    pub v6_subnets: Vec<Ipv6Net>,
}

/// The addresses and subnets themselves.
#[verifier::ext_equal]
pub struct DestinationAddrsView {
    pub v4: Seq<Ipv4Addr>,
    pub v6: Seq<Ipv6Addr>,
    pub v4_subnets: Seq<Ipv4NetView>,
    pub v6_subnets: Seq<Ipv6NetView>,
}

/// What a list of IPv4 subnets says.
pub open spec fn v4_net_views(nets: Seq<Ipv4Net>) -> Seq<Ipv4NetView> {
    Seq::new(nets.len(), |i: int| nets[i]@)
}

/// What a list of IPv6 subnets says.
pub open spec fn v6_net_views(nets: Seq<Ipv6Net>) -> Seq<Ipv6NetView> {
    Seq::new(nets.len(), |i: int| nets[i]@)
}

impl View for DestinationAddrs {
    type V = DestinationAddrsView;

    open spec fn view(&self) -> DestinationAddrsView {
        DestinationAddrsView {
            v4: self.v4@,
            v6: self.v6@,
            v4_subnets: v4_net_views(self.v4_subnets@),
            v6_subnets: v6_net_views(self.v6_subnets@),
        }
    }
}

impl DestinationAddrsView {
    /// No address at all.
    pub open spec fn none() -> Self {
        DestinationAddrsView {
            v4: Seq::empty(),
            v6: Seq::empty(),
            v4_subnets: Seq::empty(),
            v6_subnets: Seq::empty(),
        }
    }
}

impl Default for DestinationAddrs {
    fn default() -> (r: Self)
        ensures
            r@ == DestinationAddrsView::none(),
    {
        let r = DestinationAddrs {
            v4: Vec::new(),
            v6: Vec::new(),
            v4_subnets: Vec::new(),
            v6_subnets: Vec::new(),
        };
        assert(r@ =~= DestinationAddrsView::none());
        r
    }
}

/// What a state machine is told.
#[derive(Debug)]
pub enum FsmEvent {
    // From the wire.
    RecvMessage(Message),
    RecvSignal { signal: Signal, from: SocketAddr },
    // From the transport.
    TcpConnected,
    TcpAccepted,
    TcpClosed,
    // From timers.
    TimerExpired(TimerId, TimerKind),
    // From the application.
    AppAddDestination { mac: MacAddress, metrics: LinkMetrics, addrs: DestinationAddrs },
    AppDropDestination { mac: MacAddress, reason: StatusCode },
    AppUpdateMetrics { mac: MacAddress, metrics: LinkMetrics },
    AppAnnounceDestination { mac: MacAddress },
    AppRequestLinkCharacteristics { mac: MacAddress },
    AppStartDiscovery,
    AppShutdown { reason: StatusCode },
}

#[verifier::ext_equal]
pub enum FsmEventView {
    RecvMessage(MessageView),
    RecvSignal { signal: SignalView, from: SocketAddr },
    TcpConnected,
    TcpAccepted,
    TcpClosed,
    TimerExpired(TimerId, TimerKind),
    AppAddDestination { mac: MacAddress, metrics: LinkMetrics, addrs: DestinationAddrsView },
    AppDropDestination { mac: MacAddress, reason: StatusCode },
    AppUpdateMetrics { mac: MacAddress, metrics: LinkMetrics },
    AppAnnounceDestination { mac: MacAddress },
    AppRequestLinkCharacteristics { mac: MacAddress },
    AppStartDiscovery,
    AppShutdown { reason: StatusCode },
}

impl View for FsmEvent {
    type V = FsmEventView;

    open spec fn view(&self) -> FsmEventView {
        match *self {
            FsmEvent::RecvMessage(message) => FsmEventView::RecvMessage(message@),
            FsmEvent::RecvSignal { signal, from } => FsmEventView::RecvSignal {
                signal: signal@,
                from,
            },
            FsmEvent::TcpConnected => FsmEventView::TcpConnected,
            FsmEvent::TcpAccepted => FsmEventView::TcpAccepted,
            FsmEvent::TcpClosed => FsmEventView::TcpClosed,
            FsmEvent::TimerExpired(id, kind) => FsmEventView::TimerExpired(id, kind),
            FsmEvent::AppAddDestination { mac, metrics, addrs } => {
                FsmEventView::AppAddDestination { mac, metrics, addrs: addrs@ }
            },
            FsmEvent::AppDropDestination { mac, reason } => FsmEventView::AppDropDestination {
                mac,
                reason,
            },
            FsmEvent::AppUpdateMetrics { mac, metrics } => FsmEventView::AppUpdateMetrics {
                mac,
                metrics,
            },
            FsmEvent::AppAnnounceDestination { mac } => FsmEventView::AppAnnounceDestination {
                mac,
            },
            FsmEvent::AppRequestLinkCharacteristics { mac } => {
                FsmEventView::AppRequestLinkCharacteristics { mac }
            },
            FsmEvent::AppStartDiscovery => FsmEventView::AppStartDiscovery,
            FsmEvent::AppShutdown { reason } => FsmEventView::AppShutdown { reason },
        }
    }
}

/// What a state machine asks the runtime to do. A step returns a list, to be
/// worked off in order.
#[derive(Debug)]
pub enum FsmAction {
    SendMessage(Message),
    SendSignal { signal: Signal, target: SendTarget },
    StartTimer { id: TimerId, kind: TimerKind, duration: Duration, periodic: bool },
    CancelTimer(TimerId),
    /// Cancel the timer at `timer_id`, if it is armed, and start it afresh as a
    /// single shot at `missed_deadline`. The periodic heartbeat send timer is
    /// another one and is not affected.
    ResetHeartbeat { timer_id: TimerId, missed_deadline: Duration },
    CloseTcp,
    /// Hand an event to the application.
    Emit(EmittedEvent),
}

#[verifier::ext_equal]
pub enum FsmActionView {
    SendMessage(MessageView),
    SendSignal { signal: SignalView, target: SendTarget },
    StartTimer { id: TimerId, kind: TimerKind, duration: Duration, periodic: bool },
    CancelTimer(TimerId),
    ResetHeartbeat { timer_id: TimerId, missed_deadline: Duration },
    CloseTcp,
    Emit(EmittedEventView),
}

impl View for FsmAction {
    type V = FsmActionView;

    open spec fn view(&self) -> FsmActionView {
        match *self {
            FsmAction::SendMessage(message) => FsmActionView::SendMessage(message@),
            FsmAction::SendSignal { signal, target } => FsmActionView::SendSignal {
                signal: signal@,
                target,
            },
            FsmAction::StartTimer { id, kind, duration, periodic } => FsmActionView::StartTimer {
                id,
                kind,
                duration,
                periodic,
            },
            FsmAction::CancelTimer(id) => FsmActionView::CancelTimer(id),
            FsmAction::ResetHeartbeat { timer_id, missed_deadline } => {
                FsmActionView::ResetHeartbeat { timer_id, missed_deadline }
            },
            FsmAction::CloseTcp => FsmActionView::CloseTcp,
            FsmAction::Emit(event) => FsmActionView::Emit(event@),
        }
    }
}

/// What a list of actions says.
pub open spec fn action_views(actions: Seq<FsmAction>) -> Seq<FsmActionView> {
    Seq::new(actions.len(), |i: int| actions[i]@)
}

/// What a state machine tells the application.
#[derive(Debug)]
pub enum EmittedEvent {
    /// The session is up; the peer supports these extensions.
    SessionUp { peer_extensions: Vec<ExtensionId> },
    SessionDown(StatusCode),
    PeerDiscovered { addr: SocketAddr, peer_description: Option<String>, use_tls: bool },
    DestinationUp { mac: MacAddress, metrics: LinkMetrics, addrs: DestinationAddrs },
    DestinationDown { mac: MacAddress, reason: StatusCode },
    DestinationUpdate { mac: MacAddress, metrics: LinkMetrics },
}

#[verifier::ext_equal]
pub enum EmittedEventView {
    SessionUp { peer_extensions: Seq<ExtensionId> },
    SessionDown(StatusCode),
    PeerDiscovered { addr: SocketAddr, peer_description: Option<Seq<char>>, use_tls: bool },
    DestinationUp { mac: MacAddress, metrics: LinkMetrics, addrs: DestinationAddrsView },
    DestinationDown { mac: MacAddress, reason: StatusCode },
    DestinationUpdate { mac: MacAddress, metrics: LinkMetrics },
}

/// An optional text.
pub open spec fn text_view(text: Option<String>) -> Option<Seq<char>> {
    match text {
        Some(t) => Some(t@),
        None => None,
    }
}

impl View for EmittedEvent {
    type V = EmittedEventView;

    open spec fn view(&self) -> EmittedEventView {
        match *self {
            EmittedEvent::SessionUp { peer_extensions } => EmittedEventView::SessionUp {
                peer_extensions: peer_extensions@,
            },
            EmittedEvent::SessionDown(reason) => EmittedEventView::SessionDown(reason),
            EmittedEvent::PeerDiscovered { addr, peer_description, use_tls } => {
                EmittedEventView::PeerDiscovered {
                    addr,
                    peer_description: text_view(peer_description),
                    use_tls,
                }
            },
            EmittedEvent::DestinationUp { mac, metrics, addrs } => EmittedEventView::DestinationUp {
                mac,
                metrics,
                addrs: addrs@,
            },
            EmittedEvent::DestinationDown { mac, reason } => EmittedEventView::DestinationDown {
                mac,
                reason,
            },
            EmittedEvent::DestinationUpdate { mac, metrics } => {
                EmittedEventView::DestinationUpdate { mac, metrics }
            },
        }
    }
}

} // verus!
