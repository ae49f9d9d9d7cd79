//! What both discovery state machines share.
//!
//! Peer Discovery is what a router in search of a modem sends. Peer Offer is
//! what a modem answers: its description and the endpoint to connect to.

use vstd::prelude::*;
use crate::fsm::session_common;
use crate::proto::addr::{IpAddr, SocketAddr};
use crate::proto::data_item;
use crate::proto::data_item::{ConnectionPointFlags, DataItem, DataItemView, PeerFlags};
use crate::proto::ids::SignalType;
use crate::proto::signal::{Signal, SignalView};
use crate::DEFAULT_PORT;

verus! {

/// Endpoint that a Peer Offer names.
#[derive(Clone, Copy, Debug, PartialEq, Eq)]
pub struct OfferEndpoint {
    pub addr: SocketAddr,
    pub use_tls: bool,
}

/// A peer type data item with nothing but a description.
pub open spec fn description_item(peer_description: Seq<char>) -> DataItemView {
    DataItemView::PeerType { flags: PeerFlags { smi: false }, description: peer_description }
}

/// The connection point data item of an endpoint, of the address's family.
pub open spec fn connection_point(endpoint: SocketAddr, use_tls: bool) -> DataItemView {
    let flags = ConnectionPointFlags { use_tls };
    match endpoint.ip {
        IpAddr::V4(addr) => DataItemView::Ipv4ConnectionPoint {
            flags,
            addr,
            port: Some(endpoint.port),
        },
        IpAddr::V6(addr) => DataItemView::Ipv6ConnectionPoint {
            flags,
            addr,
            port: Some(endpoint.port),
        },
    }
}

/// A port that is not given is the assigned one.
pub open spec fn port_or_default(port: Option<u16>) -> u16 {
    match port {
        Some(p) => p,
        None => DEFAULT_PORT,
    }
}

/// A peer type data item carries a description.
pub open spec fn pick_description() -> spec_fn(DataItemView) -> Option<Seq<char>> {
    |item: DataItemView|
        match item {
            DataItemView::PeerType { description, .. } => Some(description),
            _ => None::<Seq<char>>,
        }
}

/// A connection point data item of either family carries an endpoint.
pub open spec fn pick_endpoint() -> spec_fn(DataItemView) -> Option<OfferEndpoint> {
    |item: DataItemView|
        match item {
            DataItemView::Ipv4ConnectionPoint { flags, addr, port } => Some(
                OfferEndpoint {
                    addr: SocketAddr { ip: IpAddr::V4(addr), port: port_or_default(port) },
                    use_tls: flags.use_tls,
                },
            ),
            DataItemView::Ipv6ConnectionPoint { flags, addr, port } => Some(
                OfferEndpoint {
                    addr: SocketAddr { ip: IpAddr::V6(addr), port: port_or_default(port) },
                    use_tls: flags.use_tls,
                },
            ),
            _ => None::<OfferEndpoint>,
        }
}

impl SignalView {
    pub open spec fn peer_discovery(peer_description: Seq<char>) -> Self {
        SignalView::of(SignalType::PEER_DISCOVERY, seq![description_item(peer_description)])
    }

    pub open spec fn peer_offer(
        peer_description: Seq<char>,
        endpoint: SocketAddr,
        use_tls: bool,
    ) -> Self {
        SignalView::of(
            SignalType::PEER_OFFER,
            seq![description_item(peer_description), connection_point(endpoint, use_tls)],
        )
    }

    /// Description of the first peer type data item.
    pub open spec fn peer_description(self) -> Option<Seq<char>> {
        session_common::first_picked(self.data_items, pick_description())
    }

    /// Endpoint of the first connection point data item.
    pub open spec fn offer_endpoint(self) -> Option<OfferEndpoint> {
        session_common::first_picked(self.data_items, pick_endpoint())
    }
}

/// A Peer Discovery signal.
pub fn build_peer_discovery(peer_description: &str) -> (r: Signal)
    ensures
        r@ == SignalView::peer_discovery(peer_description@),
{
    let r = Signal::new(SignalType(SignalType::PEER_DISCOVERY)).with_item(
        DataItem::PeerType {
            flags: PeerFlags::default(),
            description: peer_description.to_owned(),
        },
    );
    assert(r@ =~= SignalView::peer_discovery(peer_description@));
    r
}

/// A Peer Offer signal with the modem's TCP endpoint, as the connection point
/// of the endpoint's address family.
pub fn build_peer_offer(peer_description: &str, tcp_endpoint: SocketAddr, use_tls: bool) -> (r:
    Signal)
    ensures
        r@ == SignalView::peer_offer(peer_description@, tcp_endpoint, use_tls),
{
    let flags = ConnectionPointFlags { use_tls };
    let described = Signal::new(SignalType(SignalType::PEER_OFFER)).with_item(
        DataItem::PeerType {
            flags: PeerFlags::default(),
            description: peer_description.to_owned(),
        },
    );
    let port = Some(tcp_endpoint.port);
    let r = match tcp_endpoint.ip {
        IpAddr::V4(addr) => described.with_item(
            DataItem::Ipv4ConnectionPoint { flags, addr, port },
        ),
        IpAddr::V6(addr) => described.with_item(
            DataItem::Ipv6ConnectionPoint { flags, addr, port },
        ),
    };
    assert(r@ =~= SignalView::peer_offer(peer_description@, tcp_endpoint, use_tls));
    r
}

/// Description of the first peer type data item, if there is one.
pub fn extract_peer_description(sig: &Signal) -> (r: Option<String>)
    ensures
        crate::fsm::events::text_view(r) == sig@.peer_description(),
{
    let ghost views = sig@.data_items;
    assert(views.skip(0) =~= views);
    let mut i: usize = 0;
    while i < sig.data_items.len()
        invariant
            i <= sig.data_items@.len(),
            views == data_item::item_views(sig.data_items@),
            session_common::first_picked(views, pick_description()) == session_common::first_picked(
                views.skip(i as int),
                pick_description(),
            ),
        decreases sig.data_items.len() - i,
    {
        proof {
            session_common::lemma_first_picked_step(views, pick_description(), i as int);
        }
        if let DataItem::PeerType { description, .. } = &sig.data_items[i] {
            return Some(description.clone());
        }
        i = i + 1;
    }
    None
}

/// Endpoint of the first connection point of a Peer Offer, if there is one. A
/// port that is not given is the assigned one.
pub fn extract_offer_endpoint(sig: &Signal) -> (r: Option<OfferEndpoint>)
    ensures
        r == sig@.offer_endpoint(),
{
    let ghost views = sig@.data_items;
    assert(views.skip(0) =~= views);
    let mut i: usize = 0;
    while i < sig.data_items.len()
        invariant
            i <= sig.data_items@.len(),
            views == data_item::item_views(sig.data_items@),
            session_common::first_picked(views, pick_endpoint()) == session_common::first_picked(
                views.skip(i as int),
                pick_endpoint(),
            ),
        decreases sig.data_items.len() - i,
    {
        proof {
            session_common::lemma_first_picked_step(views, pick_endpoint(), i as int);
        }
        match &sig.data_items[i] {
            DataItem::Ipv4ConnectionPoint { flags, addr, port } => {
                return Some(
                    OfferEndpoint {
                        addr: SocketAddr {
                            ip: IpAddr::V4(*addr),
                            port: port.unwrap_or(DEFAULT_PORT),
                        },
                        use_tls: flags.use_tls,
                    },
                );
            },
            DataItem::Ipv6ConnectionPoint { flags, addr, port } => {
                return Some(
                    OfferEndpoint {
                        addr: SocketAddr {
                            ip: IpAddr::V6(*addr),
                            port: port.unwrap_or(DEFAULT_PORT),
                        },
                        use_tls: flags.use_tls,
                    },
                );
            },
            _ => {},
        }
        i = i + 1;
    }
    None
}

/// What a modem offers, a router finds: endpoint, transport and description.
pub proof fn law_offer_is_found(description: Seq<char>, endpoint: SocketAddr, use_tls: bool)
    ensures
        SignalView::peer_offer(description, endpoint, use_tls).offer_endpoint() == Some(
            OfferEndpoint { addr: endpoint, use_tls },
        ),
        SignalView::peer_offer(description, endpoint, use_tls).peer_description() == Some(
            description,
        ),
        SignalView::peer_discovery(description).peer_description() == Some(description),
{
    let items = SignalView::peer_offer(description, endpoint, use_tls).data_items;
    assert(items.drop_first() =~= seq![connection_point(endpoint, use_tls)]);
    assert(items.drop_first()[0] == connection_point(endpoint, use_tls));
    reveal_with_fuel(session_common::first_picked, 3);
}

} // verus!
