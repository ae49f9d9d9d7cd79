//! What the daemons tell the application.

use vstd::prelude::*;
use vstd::std_specs::cmp::PartialEqSpecImpl;
use vstd::std_specs::convert::FromSpecImpl;
use crate::fsm::events;
use crate::fsm::events::{DestinationAddrsView, EmittedEvent, EmittedEventView};
use crate::proto::addr::{Ipv4Addr, Ipv6Addr, SocketAddr};
use crate::proto::ids::ExtensionId;
use crate::proto::mac::MacAddress;
use crate::proto::status::StatusCode;
use crate::proto::subnet::{Ipv4Net, Ipv6Net};

pub use crate::fsm::events::LinkMetrics;

verus! {

/// Handle of a destination: its link-layer address.
#[derive(Clone, Copy, Debug, Eq, Hash)]
pub struct DestinationId(pub MacAddress);

impl PartialEq for DestinationId {
    fn eq(&self, other: &Self) -> (r: bool) {
        self.0 == other.0
    }
}

impl PartialEqSpecImpl for DestinationId {
    open spec fn obeys_eq_spec() -> bool {
        true
    }

    open spec fn eq_spec(&self, other: &Self) -> bool {
        *self == *other
    }
}

impl From<MacAddress> for DestinationId {
    fn from(m: MacAddress) -> (r: Self) {
        DestinationId(m)
    }
}

impl FromSpecImpl<MacAddress> for DestinationId {
    open spec fn obeys_from_spec() -> bool {
        true
    }

    open spec fn from_spec(m: MacAddress) -> Self {
        DestinationId(m)
    }
}

/// The other end of a session.
#[derive(Debug)]
pub struct PeerInfo {
    pub addr: SocketAddr,
    pub is_tls: bool,
    pub peer_description: Option<String>,
}

#[verifier::ext_equal]
pub struct PeerInfoView {
    pub addr: SocketAddr,
    pub is_tls: bool,
    pub peer_description: Option<Seq<char>>,
}

impl View for PeerInfo {
    type V = PeerInfoView;

    open spec fn view(&self) -> PeerInfoView {
        PeerInfoView {
            addr: self.addr,
            is_tls: self.is_tls,
            peer_description: events::text_view(self.peer_description),
        }
    }
}

impl Clone for PeerInfo {
    fn clone(&self) -> (r: Self)
        ensures
            r@ == self@,
    {
        PeerInfo {
            addr: self.addr,
            is_tls: self.is_tls,
            peer_description: match &self.peer_description {
                Some(text) => Some(text.clone()),
                None => None,
            },
        }
    }
}

#[derive(Clone, Debug)]
pub enum DestinationEvent {
    Up {
        id: DestinationId,
        metrics: LinkMetrics,
        v4_addrs: Vec<Ipv4Addr>,
        v6_addrs: Vec<Ipv6Addr>,
        v4_subnets: Vec<Ipv4Net>,
        v6_subnets: Vec<Ipv6Net>,
    },
    Update { id: DestinationId, metrics: LinkMetrics },
    Announced { id: DestinationId },
    Down { id: DestinationId, reason: StatusCode },
}

#[verifier::ext_equal]
pub enum DestinationEventView {
    Up { id: DestinationId, metrics: LinkMetrics, addrs: DestinationAddrsView },
    Update { id: DestinationId, metrics: LinkMetrics },
    Announced { id: DestinationId },
    Down { id: DestinationId, reason: StatusCode },
}

impl View for DestinationEvent {
    type V = DestinationEventView;

    open spec fn view(&self) -> DestinationEventView {
        match *self {
            DestinationEvent::Up { id, metrics, v4_addrs, v6_addrs, v4_subnets, v6_subnets } => {
                DestinationEventView::Up {
                    id,
                    metrics,
                    addrs: DestinationAddrsView {
                        v4: v4_addrs@,
                        v6: v6_addrs@,
                        v4_subnets: events::v4_net_views(v4_subnets@),
                        v6_subnets: events::v6_net_views(v6_subnets@),
                    },
                }
            },
            DestinationEvent::Update { id, metrics } => DestinationEventView::Update {
                id,
                metrics,
            },
            DestinationEvent::Announced { id } => DestinationEventView::Announced { id },
            DestinationEvent::Down { id, reason } => DestinationEventView::Down { id, reason },
        }
    }
}

#[derive(Clone, Debug)]
pub struct MetricsEvent {
    pub session_wide: LinkMetrics,
}

/// What subscribers of a daemon hear.
#[derive(Clone, Debug)]
pub enum DaemonEvent {
    PeerDiscovered(PeerInfo),
    SessionUp { peer: PeerInfo, negotiated_extensions: Vec<ExtensionId> },
    SessionDown { reason: StatusCode },
    Destination(DestinationEvent),
    Metrics(MetricsEvent),
}

#[verifier::ext_equal]
pub enum DaemonEventView {
    PeerDiscovered(PeerInfoView),
    SessionUp { peer: PeerInfoView, negotiated_extensions: Seq<ExtensionId> },
    SessionDown { reason: StatusCode },
    Destination(DestinationEventView),
    Metrics { session_wide: LinkMetrics },
}

impl View for DaemonEvent {
    type V = DaemonEventView;

    open spec fn view(&self) -> DaemonEventView {
        match *self {
            DaemonEvent::PeerDiscovered(peer) => DaemonEventView::PeerDiscovered(peer@),
            DaemonEvent::SessionUp { peer, negotiated_extensions } => DaemonEventView::SessionUp {
                peer: peer@,
                negotiated_extensions: negotiated_extensions@,
            },
            DaemonEvent::SessionDown { reason } => DaemonEventView::SessionDown { reason },
            DaemonEvent::Destination(event) => DaemonEventView::Destination(event@),
            DaemonEvent::Metrics(event) => DaemonEventView::Metrics {
                session_wide: event.session_wide,
            },
        }
    }
}

/// An optional event.
pub open spec fn event_view(event: Option<DaemonEvent>) -> Option<DaemonEventView> {
    match event {
        Some(e) => Some(e@),
        None => None,
    }
}

/// What a session's event is to subscribers. Peers are not discovered in a
/// session.
pub open spec fn session_event(
    emitted: EmittedEventView,
    peer: PeerInfoView,
    negotiated: Seq<ExtensionId>,
) -> Option<DaemonEventView> {
    match emitted {
        EmittedEventView::SessionUp { .. } => Some(
            DaemonEventView::SessionUp { peer, negotiated_extensions: negotiated },
        ),
        EmittedEventView::SessionDown(reason) => Some(DaemonEventView::SessionDown { reason }),
        EmittedEventView::DestinationUp { mac, metrics, addrs } => Some(
            DaemonEventView::Destination(
                DestinationEventView::Up { id: DestinationId(mac), metrics, addrs },
            ),
        ),
        EmittedEventView::DestinationUpdate { mac, metrics } => Some(
            DaemonEventView::Destination(
                DestinationEventView::Update { id: DestinationId(mac), metrics },
            ),
        ),
        EmittedEventView::DestinationDown { mac, reason } => Some(
            DaemonEventView::Destination(
                DestinationEventView::Down { id: DestinationId(mac), reason },
            ),
        ),
        EmittedEventView::PeerDiscovered { .. } => None,
    }
}

/// What an event of discovery is to subscribers: a peer that was found, and
/// nothing else.
pub open spec fn discovery_event(emitted: EmittedEventView) -> Option<DaemonEventView> {
    match emitted {
        EmittedEventView::PeerDiscovered { addr, peer_description, use_tls } => Some(
            DaemonEventView::PeerDiscovered(
                PeerInfoView { addr, is_tls: use_tls, peer_description },
            ),
        ),
        _ => None,
    }
}

/// Turn what a session state machine emitted into what subscribers hear.
/// `negotiated` are the extensions in use, which only a session that comes up
/// reports.
pub fn translate_emitted(
    emitted: EmittedEvent,
    peer: &PeerInfo,
    negotiated: Vec<ExtensionId>,
) -> (r: Option<DaemonEvent>)
    ensures
        event_view(r) == session_event(emitted@, peer@, negotiated@),
{
    match emitted {
        EmittedEvent::SessionUp { .. } => Some(
            DaemonEvent::SessionUp { peer: peer.clone(), negotiated_extensions: negotiated },
        ),
        EmittedEvent::SessionDown(reason) => Some(DaemonEvent::SessionDown { reason }),
        EmittedEvent::DestinationUp { mac, metrics, addrs } => Some(
            DaemonEvent::Destination(
                DestinationEvent::Up {
                    id: DestinationId(mac),
                    metrics,
                    v4_addrs: addrs.v4,
                    v6_addrs: addrs.v6,
                    v4_subnets: addrs.v4_subnets,
                    v6_subnets: addrs.v6_subnets,
                },
            ),
        ),
        EmittedEvent::DestinationUpdate { mac, metrics } => Some(
            DaemonEvent::Destination(DestinationEvent::Update { id: DestinationId(mac), metrics }),
        ),
        EmittedEvent::DestinationDown { mac, reason } => Some(
            DaemonEvent::Destination(DestinationEvent::Down { id: DestinationId(mac), reason }),
        ),
        EmittedEvent::PeerDiscovered { .. } => None,
    }
}

/// Turn what a discovery state machine emitted into what subscribers hear.
pub fn translate(emitted: EmittedEvent) -> (r: Option<DaemonEvent>)
    ensures
        event_view(r) == discovery_event(emitted@),
{
    match emitted {
        EmittedEvent::PeerDiscovered { addr, peer_description, use_tls } => Some(
            DaemonEvent::PeerDiscovered(PeerInfo { addr, is_tls: use_tls, peer_description }),
        ),
        _ => None,
    }
}

} // verus!
