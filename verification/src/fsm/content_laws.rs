//! What messages and signals say: which data items each is made of, and what
//! is read out of data items.

use vstd::prelude::*;
use crate::fsm::discovery_common::OfferEndpoint;
use crate::fsm::events::DestinationAddrsView;
use crate::fsm::session_common;
use crate::fsm::session_common::{first_picked, is_metric, metrics_of, SessionConfigView};
use crate::fsm::session_modem::session_initialization_response;
use crate::fsm::session_router::session_initialization;
use crate::proto::addr::{IpAddr, SocketAddr};
use crate::proto::data_item::{ConnectionPointFlags, DataItemView, PeerFlags};
use crate::proto::duration::Duration;
use crate::proto::ids::{MessageType, SignalType};
use crate::proto::mac::MacAddress;
use crate::proto::message::MessageView;
use crate::proto::metrics::LinkMetrics;
use crate::proto::signal::SignalView;
use crate::proto::status::StatusCode;

verus! {

/// Heartbeats and Session Termination Responses are empty; Session Termination
/// carries the reason and no text.
pub proof fn law_session_messages(reason: StatusCode)
    ensures
        MessageView::heartbeat().message_type.0 == 16,
        MessageView::heartbeat().data_items.len() == 0,
        MessageView::session_termination_response().message_type.0 == 6,
        MessageView::session_termination_response().data_items.len() == 0,
        MessageView::session_termination(reason).message_type.0 == 5,
        MessageView::session_termination(reason).data_items == seq![
            DataItemView::Status { code: reason, text: Seq::empty() },
        ],
{
}

/// The interval that a side announces: the configured milliseconds, and one
/// second where less is configured.
pub proof fn law_announced_interval(config: SessionConfigView)
    ensures
        config.heartbeat_interval().nanos == if config.heartbeat_interval_ms >= 1_000 {
            config.heartbeat_interval_ms * 1_000_000
        } else {
            1_000_000_000
        },
{
}

/// Session Initialization announces the heartbeat interval, who speaks, and the
/// extensions.
pub proof fn law_initialization_says(config: SessionConfigView)
    ensures
        session_initialization(config).message_type.0 == 1,
        session_initialization(config).data_items == seq![
            DataItemView::HeartbeatInterval(config.heartbeat_interval()),
            DataItemView::PeerType {
                flags: PeerFlags { smi: false },
                description: config.peer_description,
            },
            DataItemView::ExtensionsSupported(config.advertised_extensions),
        ],
{
}

/// Session Initialization Response says success, announces what the
/// initialization announces, and carries every session-wide metric.
pub proof fn law_initialization_response_says(config: SessionConfigView)
    ensures
        session_initialization_response(config).message_type.0 == 2,
        session_initialization_response(config).data_items == seq![
            DataItemView::Status { code: StatusCode(0), text: Seq::empty() },
            DataItemView::HeartbeatInterval(config.heartbeat_interval()),
            DataItemView::PeerType {
                flags: PeerFlags { smi: false },
                description: config.peer_description,
            },
            DataItemView::ExtensionsSupported(config.advertised_extensions),
            DataItemView::Mtu(1_500),
            DataItemView::MaxDataRateReceive(1_000_000_000),
            DataItemView::MaxDataRateTransmit(1_000_000_000),
            DataItemView::CurrentDataRateReceive(1_000_000_000),
            DataItemView::CurrentDataRateTransmit(1_000_000_000),
            DataItemView::Latency(Duration { nanos: 0 }),
            DataItemView::Resources(100),
            DataItemView::RelativeLinkQualityReceive(100),
            DataItemView::RelativeLinkQualityTransmit(100),
        ],
{
}

/// Each metric of a destination goes into the data item that is made for it.
pub proof fn law_metric_items(m: LinkMetrics)
    ensures
        session_common::metric_items(m) == seq![
            DataItemView::MaxDataRateReceive(m.max_data_rate_rx_bps),
            DataItemView::MaxDataRateTransmit(m.max_data_rate_tx_bps),
            DataItemView::CurrentDataRateReceive(m.current_data_rate_rx_bps),
            DataItemView::CurrentDataRateTransmit(m.current_data_rate_tx_bps),
            DataItemView::Latency(m.latency),
            DataItemView::Resources(m.resources),
            DataItemView::RelativeLinkQualityReceive(m.rlq_rx),
            DataItemView::RelativeLinkQualityTransmit(m.rlq_tx),
            DataItemView::Mtu(m.mtu),
        ],
{
}

/// `Destination_Up` names the destination first, then adds its addresses and
/// subnets in order, IPv4 before IPv6, and ends with the metrics;
/// `Destination_Update` has no addresses.
pub proof fn law_destination_up_and_update_say(
    mac: MacAddress,
    metrics: LinkMetrics,
    addrs: DestinationAddrsView,
)
    ensures
        MessageView::destination_up(mac, metrics, addrs).message_type.0 == 7,
        MessageView::destination_up(mac, metrics, addrs).data_items == seq![
            DataItemView::MacAddress(mac),
        ] + Seq::new(
            addrs.v4.len(),
            |i: int| DataItemView::Ipv4Address { add: true, addr: addrs.v4[i] },
        ) + Seq::new(
            addrs.v6.len(),
            |i: int| DataItemView::Ipv6Address { add: true, addr: addrs.v6[i] },
        ) + Seq::new(
            addrs.v4_subnets.len(),
            |i: int| DataItemView::Ipv4AttachedSubnet { add: true, subnet: addrs.v4_subnets[i] },
        ) + Seq::new(
            addrs.v6_subnets.len(),
            |i: int| DataItemView::Ipv6AttachedSubnet { add: true, subnet: addrs.v6_subnets[i] },
        ) + session_common::metric_items(metrics),
        MessageView::destination_update(mac, metrics).message_type.0 == 13,
        MessageView::destination_update(mac, metrics).data_items == seq![
            DataItemView::MacAddress(mac),
        ] + session_common::metric_items(metrics),
{
    assert(MessageView::destination_up(mac, metrics, addrs).data_items =~= seq![
        DataItemView::MacAddress(mac),
    ] + Seq::new(
        addrs.v4.len(),
        |i: int| DataItemView::Ipv4Address { add: true, addr: addrs.v4[i] },
    ) + Seq::new(
        addrs.v6.len(),
        |i: int| DataItemView::Ipv6Address { add: true, addr: addrs.v6[i] },
    ) + Seq::new(
        addrs.v4_subnets.len(),
        |i: int| DataItemView::Ipv4AttachedSubnet { add: true, subnet: addrs.v4_subnets[i] },
    ) + Seq::new(
        addrs.v6_subnets.len(),
        |i: int| DataItemView::Ipv6AttachedSubnet { add: true, subnet: addrs.v6_subnets[i] },
    ) + session_common::metric_items(metrics));
}

/// `Destination_Down` and the responses about destinations name the destination
/// and say a status without text.
pub proof fn law_destination_answers_say(mac: MacAddress, status: StatusCode)
    ensures
        ({
            let items = seq![
                DataItemView::MacAddress(mac),
                DataItemView::Status { code: status, text: Seq::empty() },
            ];
            &&& MessageView::destination_up_response(mac, status).message_type.0 == 8
            &&& MessageView::destination_up_response(mac, status).data_items == items
            &&& MessageView::destination_down(mac, status).message_type.0 == 11
            &&& MessageView::destination_down(mac, status).data_items == items
            &&& MessageView::destination_down_response(mac, status).message_type.0 == 12
            &&& MessageView::destination_down_response(mac, status).data_items == items
        }),
{
}

/// Peer Discovery says who is searching; Peer Offer says who answers and where
/// to connect, over TLS or not.
pub proof fn law_signals_say(description: Seq<char>, endpoint: SocketAddr, use_tls: bool)
    ensures
        ({
            let who = DataItemView::PeerType { flags: PeerFlags { smi: false }, description };
            let flags = ConnectionPointFlags { use_tls };
            let place = match endpoint.ip {
                IpAddr::V4(addr) => DataItemView::Ipv4ConnectionPoint {
                    flags,
                    addr,
                    port: Some(endpoint.port),
                },
                IpAddr::V6(addr) => DataItemView::Ipv6ConnectionPoint {
                    flags,
                    addr,
                    port: Some(endpoint.port),
                },
            };
            let probe = SignalView::peer_discovery(description);
            let offer = SignalView::peer_offer(description, endpoint, use_tls);
            &&& probe.signal_type.0 == 1
            &&& probe.data_items == seq![who]
            &&& offer.signal_type.0 == 2
            &&& offer.data_items == seq![who, place]
        }),
{
}

/// One data item more is picked only if none before it was.
proof fn lemma_first_picked_push<T>(
    items: Seq<DataItemView>,
    item: DataItemView,
    pick: spec_fn(DataItemView) -> Option<T>,
)
    ensures
        first_picked(Seq::empty(), pick) is None,
        first_picked(items.push(item), pick) == if first_picked(items, pick) is Some {
            first_picked(items, pick)
        } else {
            pick(item)
        },
    decreases items.len(),
{
    let all = items.push(item);
    if items.len() == 0 {
        assert(all.drop_first() =~= Seq::<DataItemView>::empty());
        assert(all[0] == item);
    } else {
        lemma_first_picked_push(items.drop_first(), item, pick);
        assert(all.drop_first() =~= items.drop_first().push(item));
        assert(all[0] == items[0]);
    }
}

/// Of several data items of a kind the first counts: one data item more is read
/// as status, heartbeat interval, extensions or address exactly if it is one
/// and none stood before it. A message without data items says none of them.
pub proof fn law_first_of_a_kind_counts(code: MessageType, items: Seq<DataItemView>, item: DataItemView)
    ensures
        ({
            let before = MessageView { message_type: code, data_items: items };
            let after = MessageView { message_type: code, data_items: items.push(item) };
            &&& after.status() == if before.status() is Some {
                before.status()
            } else if let DataItemView::Status { code: said, .. } = item {
                Some(said)
            } else {
                None
            }
            &&& after.heartbeat_interval() == if before.heartbeat_interval() is Some {
                before.heartbeat_interval()
            } else if let DataItemView::HeartbeatInterval(d) = item {
                Some(d)
            } else {
                None
            }
            &&& after.extensions() == if before.extensions() is Some {
                before.extensions()
            } else if let DataItemView::ExtensionsSupported(ids) = item {
                Some(ids)
            } else {
                None
            }
            &&& after.mac() == if before.mac() is Some {
                before.mac()
            } else if let DataItemView::MacAddress(mac) = item {
                Some(mac)
            } else {
                None
            }
        }),
        ({
            let empty = MessageView { message_type: code, data_items: Seq::empty() };
            &&& empty.status() is None
            &&& empty.heartbeat_interval() is None
            &&& empty.extensions() is None
            &&& empty.mac() is None
        }),
{
    lemma_first_picked_push(items, item, session_common::pick_status());
    lemma_first_picked_push(items, item, session_common::pick_heartbeat());
    lemma_first_picked_push(items, item, session_common::pick_extensions());
    lemma_first_picked_push(items, item, session_common::pick_mac());
}

/// A status that is not there is what it is taken to be.
pub proof fn law_missing_status(message: MessageView, default: u8)
    ensures
        message.status_or(default) == if message.status() is Some {
            message.status()->Some_0
        } else {
            StatusCode(default)
        },
{
}

/// Of several data items about one metric the last counts: one data item more
/// sets its own metric and leaves the others. Where there is none at all there
/// are no metrics, and they are taken as zero.
pub proof fn law_last_metric_counts(code: MessageType, items: Seq<DataItemView>, item: DataItemView)
    ensures
        ({
            let before = MessageView { message_type: code, data_items: items };
            let after = MessageView { message_type: code, data_items: items.push(item) };
            let m = before.link_metrics_or_zero();
            match item {
                DataItemView::MaxDataRateReceive(v) => after.link_metrics() == Some(
                    LinkMetrics { max_data_rate_rx_bps: v, ..m },
                ),
                DataItemView::MaxDataRateTransmit(v) => after.link_metrics() == Some(
                    LinkMetrics { max_data_rate_tx_bps: v, ..m },
                ),
                DataItemView::CurrentDataRateReceive(v) => after.link_metrics() == Some(
                    LinkMetrics { current_data_rate_rx_bps: v, ..m },
                ),
                DataItemView::CurrentDataRateTransmit(v) => after.link_metrics() == Some(
                    LinkMetrics { current_data_rate_tx_bps: v, ..m },
                ),
                DataItemView::Latency(v) => after.link_metrics() == Some(
                    LinkMetrics { latency: v, ..m },
                ),
                DataItemView::Resources(v) => after.link_metrics() == Some(
                    LinkMetrics { resources: v, ..m },
                ),
                DataItemView::RelativeLinkQualityReceive(v) => after.link_metrics() == Some(
                    LinkMetrics { rlq_rx: v, ..m },
                ),
                DataItemView::RelativeLinkQualityTransmit(v) => after.link_metrics() == Some(
                    LinkMetrics { rlq_tx: v, ..m },
                ),
                DataItemView::Mtu(v) => after.link_metrics() == Some(LinkMetrics { mtu: v, ..m }),
                _ => after.link_metrics() == before.link_metrics(),
            }
        }),
        ({
            let empty = MessageView { message_type: code, data_items: Seq::empty() };
            empty.link_metrics() is None
        }),
        ({
            let message = MessageView { message_type: code, data_items: items };
            message.link_metrics_or_zero() == match message.link_metrics() {
                Some(m) => m,
                None => LinkMetrics {
                    max_data_rate_rx_bps: 0,
                    max_data_rate_tx_bps: 0,
                    current_data_rate_rx_bps: 0,
                    current_data_rate_tx_bps: 0,
                    latency: Duration { nanos: 0 },
                    resources: 0,
                    rlq_rx: 0,
                    rlq_tx: 0,
                    mtu: 0,
                },
            }
        }),
{
    let before = MessageView { message_type: code, data_items: items };
    let after = MessageView { message_type: code, data_items: items.push(item) };
    assert(items.push(item).drop_last() =~= items);
    lemma_no_metric_is_zero(items);
    if before.link_metrics() is None {
        assert forall|i: int| 0 <= i < items.len() implies !is_metric(#[trigger] items[i]) by {
            assert(before.data_items[i] == items[i]);
        }
    }
    assert(before.link_metrics_or_zero() == metrics_of(items));
    if is_metric(item) {
        assert(is_metric(after.data_items[items.len() as int]));
    }
    if before.link_metrics() is Some {
        let i = choose|i: int| 0 <= i < items.len() && is_metric(#[trigger] items[i]);
        assert(is_metric(after.data_items[i]));
    }
    if after.link_metrics() is Some && !is_metric(item) {
        let i = choose|i: int|
            0 <= i < after.data_items.len() && is_metric(#[trigger] after.data_items[i]);
        assert(is_metric(items[i]));
    }
}

/// Data items among which there is no metric report zero.
proof fn lemma_no_metric_is_zero(items: Seq<DataItemView>)
    ensures
        (forall|i: int| 0 <= i < items.len() ==> !is_metric(#[trigger] items[i])) ==> metrics_of(
            items,
        ) == LinkMetrics::zero(),
    decreases items.len(),
{
    if items.len() > 0 {
        let front = items.drop_last();
        lemma_no_metric_is_zero(front);
        if forall|i: int| 0 <= i < items.len() ==> !is_metric(#[trigger] items[i]) {
            assert forall|i: int| 0 <= i < front.len() implies !is_metric(#[trigger] front[i]) by {
                assert(front[i] == items[i]);
            }
            assert(!is_metric(items[items.len() - 1]));
        }
    }
}

/// All addresses and subnets that are added count, in order, each in the list of
/// its kind; those that are taken away are ignored, and so is everything else.
pub proof fn law_added_addresses_count(items: Seq<DataItemView>, item: DataItemView)
    ensures
        ({
            let before = session_common::addrs_of(items);
            let after = session_common::addrs_of(items.push(item));
            match item {
                DataItemView::Ipv4Address { add: true, addr } => after == (DestinationAddrsView {
                    v4: before.v4.push(addr),
                    ..before
                }),
                DataItemView::Ipv6Address { add: true, addr } => after == (DestinationAddrsView {
                    v6: before.v6.push(addr),
                    ..before
                }),
                DataItemView::Ipv4AttachedSubnet { add: true, subnet } => after == (
                DestinationAddrsView { v4_subnets: before.v4_subnets.push(subnet), ..before }),
                DataItemView::Ipv6AttachedSubnet { add: true, subnet } => after == (
                DestinationAddrsView { v6_subnets: before.v6_subnets.push(subnet), ..before }),
                _ => after == before,
            }
        }),
        ({
            let none = session_common::addrs_of(Seq::empty());
            none.v4.len() == 0 && none.v6.len() == 0 && none.v4_subnets.len() == 0
                && none.v6_subnets.len() == 0
        }),
{
    assert(items.push(item).drop_last() =~= items);
}

/// Of several descriptions or connection points the first counts. A connection
/// point without a port means the assigned one, 854.
pub proof fn law_first_offer_counts(code: SignalType, items: Seq<DataItemView>, item: DataItemView)
    ensures
        ({
            let before = SignalView { signal_type: code, data_items: items };
            let after = SignalView { signal_type: code, data_items: items.push(item) };
            &&& after.peer_description() == if before.peer_description() is Some {
                before.peer_description()
            } else if let DataItemView::PeerType { description, .. } = item {
                Some(description)
            } else {
                None
            }
            &&& after.offer_endpoint() == if before.offer_endpoint() is Some {
                before.offer_endpoint()
            } else {
                match item {
                    DataItemView::Ipv4ConnectionPoint { flags, addr, port } => Some(
                        OfferEndpoint {
                            addr: SocketAddr {
                                ip: IpAddr::V4(addr),
                                port: match port {
                                    Some(p) => p,
                                    None => 854,
                                },
                            },
                            use_tls: flags.use_tls,
                        },
                    ),
                    DataItemView::Ipv6ConnectionPoint { flags, addr, port } => Some(
                        OfferEndpoint {
                            addr: SocketAddr {
                                ip: IpAddr::V6(addr),
                                port: match port {
                                    Some(p) => p,
                                    None => 854,
                                },
                            },
                            use_tls: flags.use_tls,
                        },
                    ),
                    _ => None,
                }
            }
        }),
        ({
            let empty = SignalView { signal_type: code, data_items: Seq::empty() };
            empty.peer_description() is None && empty.offer_endpoint() is None
        }),
{
    lemma_first_picked_push(items, item, crate::fsm::discovery_common::pick_description());
    lemma_first_picked_push(items, item, crate::fsm::discovery_common::pick_endpoint());
}

} // verus!
