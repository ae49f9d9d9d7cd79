//! What both session state machines share: configuration, the messages they
//! build and what they read out of messages.

use vstd::prelude::*;
use crate::fsm::events::{
    DestinationAddrs, DestinationAddrsView, EmittedEvent, EmittedEventView, FsmAction,
    FsmActionView, LinkMetrics,
};
use crate::fsm::events;
use crate::fsm::timers::{
    TimerId, TimerKind, TIMER_HEARTBEAT, TIMER_HEARTBEAT_MISSED, TIMER_SESSION_INIT,
    TIMER_TERMINATION,
};
use crate::proto::addr::{Ipv4Addr, Ipv6Addr};
use crate::proto::data_item;
use crate::proto::data_item::{DataItem, DataItemView};
use crate::proto::duration::Duration;
use crate::proto::ids::{ExtensionId, MessageType};
use crate::proto::layout::MIN_HEARTBEAT_INTERVAL_MS;
use crate::proto::mac::MacAddress;
use crate::proto::message::{Message, MessageView};
use crate::proto::status::StatusCode;
use crate::proto::subnet::{Ipv4NetView, Ipv6NetView};

verus! {

/// Configuration of a session state machine. The runtime fills it in before it
/// makes the state machine, which never looks at files or the environment.
#[derive(Debug)]
pub struct SessionConfig {
    pub peer_description: String,
    pub heartbeat_interval_ms: u32,
    pub session_init_timeout: Duration,
    pub termination_timeout: Duration,
    /// Extensions announced to the peer.
    pub advertised_extensions: Vec<ExtensionId>,
}

#[verifier::ext_equal]
pub struct SessionConfigView {
    pub peer_description: Seq<char>,
    pub heartbeat_interval_ms: u32,
    pub session_init_timeout: Duration,
    pub termination_timeout: Duration,
    pub advertised_extensions: Seq<ExtensionId>,
}

impl View for SessionConfig {
    type V = SessionConfigView;

    open spec fn view(&self) -> SessionConfigView {
        SessionConfigView {
            peer_description: self.peer_description@,
            heartbeat_interval_ms: self.heartbeat_interval_ms,
            session_init_timeout: self.session_init_timeout,
            termination_timeout: self.termination_timeout,
            advertised_extensions: self.advertised_extensions@,
        }
    }
}

impl SessionConfigView {
    /// A duration of `ms` milliseconds.
    pub open spec fn of_millis(ms: nat) -> Duration {
        Duration { nanos: (ms * Duration::NANOS_PER_MILLI) as u128 }
    }

    /// The configuration that a session has when nothing else is asked for.
    pub open spec fn standard(peer_description: Seq<char>) -> Self {
        SessionConfigView {
            peer_description,
            heartbeat_interval_ms: 60_000,
            session_init_timeout: Self::of_millis(5_000),
            termination_timeout: Self::of_millis(1_000),
            advertised_extensions: Seq::empty(),
        }
    }

    /// The interval at which this side sends heartbeats and which it announces:
    /// the configured one, but never less than a second.
    pub open spec fn heartbeat_interval(self) -> Duration {
        Self::of_millis(
            if self.heartbeat_interval_ms >= MIN_HEARTBEAT_INTERVAL_MS {
                self.heartbeat_interval_ms as nat
            } else {
                MIN_HEARTBEAT_INTERVAL_MS as nat
            },
        )
    }
}

impl Clone for SessionConfig {
    fn clone(&self) -> (r: Self)
        ensures
            r@ == self@,
    {
        SessionConfig {
            peer_description: self.peer_description.clone(),
            heartbeat_interval_ms: self.heartbeat_interval_ms,
            session_init_timeout: self.session_init_timeout,
            termination_timeout: self.termination_timeout,
            advertised_extensions: data_item::clone_ids(&self.advertised_extensions),
        }
    }
}

impl Default for SessionConfig {
    fn default() -> (r: Self)
        ensures
            r@ == SessionConfigView::standard("dlep-router"@),
    {
        let r = SessionConfig {
            peer_description: "dlep-router".to_owned(),
            heartbeat_interval_ms: 60_000,
            session_init_timeout: Duration::from_millis(5_000),
            termination_timeout: Duration::from_millis(1_000),
            advertised_extensions: Vec::new(),
        };
        assert(r@ =~= SessionConfigView::standard("dlep-router"@));
        r
    }
}

/// The heartbeat interval to announce and to send at. Never less than one
/// second, whatever is configured.
pub fn local_heartbeat_interval(config: &SessionConfig) -> (r: Duration)
    ensures
        r == config@.heartbeat_interval(),
        r.nanos >= Duration::NANOS_PER_SEC,
{
    let ms: u32 = if config.heartbeat_interval_ms >= MIN_HEARTBEAT_INTERVAL_MS {
        config.heartbeat_interval_ms
    } else {
        MIN_HEARTBEAT_INTERVAL_MS
    };
    Duration::from_millis(ms as u64)
}

/// What the first data item that `pick` accepts is picked as.
pub open spec fn first_picked<T>(
    items: Seq<DataItemView>,
    pick: spec_fn(DataItemView) -> Option<T>,
) -> Option<T>
    decreases items.len(),
{
    if items.len() == 0 {
        None
    } else {
        match pick(items[0]) {
            Some(t) => Some(t),
            None => first_picked(items.drop_first(), pick),
        }
    }
}

/// A status data item carries its code.
pub open spec fn pick_status() -> spec_fn(DataItemView) -> Option<StatusCode> {
    |item: DataItemView|
        match item {
            DataItemView::Status { code, .. } => Some(code),
            _ => None::<StatusCode>,
        }
}

/// A heartbeat interval data item carries the interval.
pub open spec fn pick_heartbeat() -> spec_fn(DataItemView) -> Option<Duration> {
    |item: DataItemView|
        match item {
            DataItemView::HeartbeatInterval(d) => Some(d),
            _ => None::<Duration>,
        }
}

/// An extensions supported data item carries extension ids.
pub open spec fn pick_extensions() -> spec_fn(DataItemView) -> Option<Seq<ExtensionId>> {
    |item: DataItemView|
        match item {
            DataItemView::ExtensionsSupported(ids) => Some(ids),
            _ => None::<Seq<ExtensionId>>,
        }
}

/// A MAC address data item carries the address.
pub open spec fn pick_mac() -> spec_fn(DataItemView) -> Option<MacAddress> {
    |item: DataItemView|
        match item {
            DataItemView::MacAddress(mac) => Some(mac),
            _ => None::<MacAddress>,
        }
}

/// Whether a data item is one of the metrics.
pub open spec fn is_metric(item: DataItemView) -> bool {
    match item {
        DataItemView::MaxDataRateReceive(_) => true,
        DataItemView::MaxDataRateTransmit(_) => true,
        DataItemView::CurrentDataRateReceive(_) => true,
        DataItemView::CurrentDataRateTransmit(_) => true,
        DataItemView::Latency(_) => true,
        DataItemView::Resources(_) => true,
        DataItemView::RelativeLinkQualityReceive(_) => true,
        DataItemView::RelativeLinkQualityTransmit(_) => true,
        DataItemView::Mtu(_) => true,
        _ => false,
    }
}

/// The metrics once `item` is noted in them: a metric data item sets its
/// field, any other changes nothing.
pub open spec fn noted(m: LinkMetrics, item: DataItemView) -> LinkMetrics {
    match item {
        DataItemView::MaxDataRateReceive(v) => LinkMetrics { max_data_rate_rx_bps: v, ..m },
        DataItemView::MaxDataRateTransmit(v) => LinkMetrics { max_data_rate_tx_bps: v, ..m },
        DataItemView::CurrentDataRateReceive(v) => LinkMetrics { current_data_rate_rx_bps: v, ..m },
        DataItemView::CurrentDataRateTransmit(v) => LinkMetrics {
            current_data_rate_tx_bps: v,
            ..m
        },
        DataItemView::Latency(v) => LinkMetrics { latency: v, ..m },
        DataItemView::Resources(v) => LinkMetrics { resources: v, ..m },
        DataItemView::RelativeLinkQualityReceive(v) => LinkMetrics { rlq_rx: v, ..m },
        DataItemView::RelativeLinkQualityTransmit(v) => LinkMetrics { rlq_tx: v, ..m },
        DataItemView::Mtu(v) => LinkMetrics { mtu: v, ..m },
        _ => m,
    }
}

/// The metrics that a list of data items reports; of two for one field the
/// later counts, and a field that none reports is zero.
pub open spec fn metrics_of(items: Seq<DataItemView>) -> LinkMetrics
    decreases items.len(),
{
    if items.len() == 0 {
        LinkMetrics::zero()
    } else {
        noted(metrics_of(items.drop_last()), items.last())
    }
}

/// The addresses once `item` is added to them. Only entries that are added
/// count; removals are ignored.
pub open spec fn collected(addrs: DestinationAddrsView, item: DataItemView) -> DestinationAddrsView {
    match item {
        DataItemView::Ipv4Address { add: true, addr } => DestinationAddrsView {
            v4: addrs.v4.push(addr),
            ..addrs
        },
        DataItemView::Ipv6Address { add: true, addr } => DestinationAddrsView {
            v6: addrs.v6.push(addr),
            ..addrs
        },
        DataItemView::Ipv4AttachedSubnet { add: true, subnet } => DestinationAddrsView {
            v4_subnets: addrs.v4_subnets.push(subnet),
            ..addrs
        },
        DataItemView::Ipv6AttachedSubnet { add: true, subnet } => DestinationAddrsView {
            v6_subnets: addrs.v6_subnets.push(subnet),
            ..addrs
        },
        _ => addrs,
    }
}

/// The addresses and subnets that a list of data items adds, in order.
pub open spec fn addrs_of(items: Seq<DataItemView>) -> DestinationAddrsView
    decreases items.len(),
{
    if items.len() == 0 {
        DestinationAddrsView::none()
    } else {
        collected(addrs_of(items.drop_last()), items.last())
    }
}

/// A status data item without text.
pub open spec fn status_item(code: StatusCode) -> DataItemView {
    DataItemView::Status { code, text: Seq::empty() }
}

/// The data items that report metrics.
pub open spec fn metric_items(m: LinkMetrics) -> Seq<DataItemView> {
    seq![
        DataItemView::MaxDataRateReceive(m.max_data_rate_rx_bps),
        DataItemView::MaxDataRateTransmit(m.max_data_rate_tx_bps),
        DataItemView::CurrentDataRateReceive(m.current_data_rate_rx_bps),
        DataItemView::CurrentDataRateTransmit(m.current_data_rate_tx_bps),
        DataItemView::Latency(m.latency),
        DataItemView::Resources(m.resources),
        DataItemView::RelativeLinkQualityReceive(m.rlq_rx),
        DataItemView::RelativeLinkQualityTransmit(m.rlq_tx),
        DataItemView::Mtu(m.mtu),
    ]
}

pub open spec fn v4_items(addrs: Seq<Ipv4Addr>) -> Seq<DataItemView> {
    Seq::new(addrs.len(), |i: int| DataItemView::Ipv4Address { add: true, addr: addrs[i] })
}

pub open spec fn v6_items(addrs: Seq<Ipv6Addr>) -> Seq<DataItemView> {
    Seq::new(addrs.len(), |i: int| DataItemView::Ipv6Address { add: true, addr: addrs[i] })
}

pub open spec fn v4_subnet_items(nets: Seq<Ipv4NetView>) -> Seq<DataItemView> {
    Seq::new(nets.len(), |i: int| DataItemView::Ipv4AttachedSubnet { add: true, subnet: nets[i] })
}

pub open spec fn v6_subnet_items(nets: Seq<Ipv6NetView>) -> Seq<DataItemView> {
    Seq::new(nets.len(), |i: int| DataItemView::Ipv6AttachedSubnet { add: true, subnet: nets[i] })
}

/// The data items that report addresses and subnets.
pub open spec fn addr_items(addrs: DestinationAddrsView) -> Seq<DataItemView> {
    v4_items(addrs.v4) + v6_items(addrs.v6) + v4_subnet_items(addrs.v4_subnets) + v6_subnet_items(
        addrs.v6_subnets,
    )
}

impl MessageView {
    /// Status of the first status data item.
    pub open spec fn status(self) -> Option<StatusCode> {
        first_picked(self.data_items, pick_status())
    }

    /// Status, or `default` when the message carries none.
    pub open spec fn status_or(self, default: u8) -> StatusCode {
        match self.status() {
            Some(code) => code,
            None => StatusCode(default),
        }
    }

    /// Interval of the first heartbeat interval data item.
    pub open spec fn heartbeat_interval(self) -> Option<Duration> {
        first_picked(self.data_items, pick_heartbeat())
    }

    /// Ids of the first extensions supported data item.
    pub open spec fn extensions(self) -> Option<Seq<ExtensionId>> {
        first_picked(self.data_items, pick_extensions())
    }

    /// Address of the first MAC address data item.
    pub open spec fn mac(self) -> Option<MacAddress> {
        first_picked(self.data_items, pick_mac())
    }

    /// The metrics reported, if there is any metric data item at all.
    pub open spec fn link_metrics(self) -> Option<LinkMetrics> {
        if exists|i: int| 0 <= i < self.data_items.len() && is_metric(#[trigger] self.data_items[i]) {
            Some(metrics_of(self.data_items))
        } else {
            None
        }
    }

    /// The metrics reported, all zero when there are none.
    pub open spec fn link_metrics_or_zero(self) -> LinkMetrics {
        match self.link_metrics() {
            Some(m) => m,
            None => LinkMetrics::zero(),
        }
    }

    pub open spec fn session_termination(reason: StatusCode) -> Self {
        MessageView::of(MessageType::SESSION_TERMINATION, seq![status_item(reason)])
    }

    pub open spec fn session_termination_response() -> Self {
        MessageView::of(MessageType::SESSION_TERMINATION_RESPONSE, Seq::empty())
    }

    pub open spec fn heartbeat() -> Self {
        MessageView::of(MessageType::HEARTBEAT, Seq::empty())
    }

    pub open spec fn destination_up(
        mac: MacAddress,
        metrics: LinkMetrics,
        addrs: DestinationAddrsView,
    ) -> Self {
        MessageView::of(
            MessageType::DESTINATION_UP,
            seq![DataItemView::MacAddress(mac)] + addr_items(addrs) + metric_items(metrics),
        )
    }

    pub open spec fn destination_up_response(mac: MacAddress, status: StatusCode) -> Self {
        MessageView::of(
            MessageType::DESTINATION_UP_RESPONSE,
            seq![DataItemView::MacAddress(mac), status_item(status)],
        )
    }

    pub open spec fn destination_update(mac: MacAddress, metrics: LinkMetrics) -> Self {
        MessageView::of(
            MessageType::DESTINATION_UPDATE,
            seq![DataItemView::MacAddress(mac)] + metric_items(metrics),
        )
    }

    pub open spec fn destination_down(mac: MacAddress, reason: StatusCode) -> Self {
        MessageView::of(
            MessageType::DESTINATION_DOWN,
            seq![DataItemView::MacAddress(mac), status_item(reason)],
        )
    }

    pub open spec fn destination_down_response(mac: MacAddress, status: StatusCode) -> Self {
        MessageView::of(
            MessageType::DESTINATION_DOWN_RESPONSE,
            seq![DataItemView::MacAddress(mac), status_item(status)],
        )
    }
}

fn message_of(code: u16) -> (r: Message)
    ensures
        r@ == MessageView::of(code, Seq::empty()),
{
    Message::new(MessageType(code))
}

fn status_data_item(code: StatusCode) -> (r: DataItem)
    ensures
        r@ == status_item(code),
{
    let r = DataItem::Status { code, text: String::new() };
    assert(r@ =~= status_item(code));
    r
}

pub fn build_session_termination(reason: StatusCode) -> (r: Message)
    ensures
        r@ == MessageView::session_termination(reason),
{
    let r = message_of(MessageType::SESSION_TERMINATION).with_item(status_data_item(reason));
    assert(r@ =~= MessageView::session_termination(reason));
    r
}

/// A Session Termination Response has no data items.
pub fn build_session_termination_response() -> (r: Message)
    ensures
        r@ == MessageView::session_termination_response(),
{
    message_of(MessageType::SESSION_TERMINATION_RESPONSE)
}

/// A Heartbeat has no data items.
pub fn build_heartbeat() -> (r: Message)
    ensures
        r@ == MessageView::heartbeat(),
{
    message_of(MessageType::HEARTBEAT)
}

/// A `Destination_Up` message. The MAC address comes first: peers read no
/// further to know which destination is meant.
pub fn build_destination_up(mac: MacAddress, metrics: &LinkMetrics, addrs: &DestinationAddrs) -> (r:
    Message)
    ensures
        r@ == MessageView::destination_up(mac, *metrics, addrs@),
{
    let mut msg = message_of(MessageType::DESTINATION_UP).with_item(DataItem::MacAddress(mac));
    let ghost head = seq![DataItemView::MacAddress(mac)];
    assert(msg@.data_items =~= head + v4_items(addrs.v4@.take(0)));
    let mut i: usize = 0;
    while i < addrs.v4.len()
        invariant
            i <= addrs.v4@.len(),
            msg@ == MessageView::of(
                MessageType::DESTINATION_UP,
                head + v4_items(addrs.v4@.take(i as int)),
            ),
        decreases addrs.v4.len() - i,
    {
        msg = msg.with_item(DataItem::Ipv4Address { add: true, addr: addrs.v4[i] });
        i = i + 1;
        assert(msg@.data_items =~= head + v4_items(addrs.v4@.take(i as int)));
    }
    assert(addrs.v4@.take(i as int) =~= addrs.v4@);
    let ghost head = head + v4_items(addrs.v4@);
    assert(msg@.data_items =~= head + v6_items(addrs.v6@.take(0)));
    let mut i: usize = 0;
    while i < addrs.v6.len()
        invariant
            i <= addrs.v6@.len(),
            msg@ == MessageView::of(
                MessageType::DESTINATION_UP,
                head + v6_items(addrs.v6@.take(i as int)),
            ),
        decreases addrs.v6.len() - i,
    {
        msg = msg.with_item(DataItem::Ipv6Address { add: true, addr: addrs.v6[i] });
        i = i + 1;
        assert(msg@.data_items =~= head + v6_items(addrs.v6@.take(i as int)));
    }
    assert(addrs.v6@.take(i as int) =~= addrs.v6@);
    let ghost head = head + v6_items(addrs.v6@);
    let ghost nets = addrs@.v4_subnets;
    assert(msg@.data_items =~= head + v4_subnet_items(nets.take(0)));
    let mut i: usize = 0;
    while i < addrs.v4_subnets.len()
        invariant
            i <= addrs.v4_subnets@.len(),
            nets == addrs@.v4_subnets,
            msg@ == MessageView::of(
                MessageType::DESTINATION_UP,
                head + v4_subnet_items(nets.take(i as int)),
            ),
        decreases addrs.v4_subnets.len() - i,
    {
        msg = msg.with_item(
            DataItem::Ipv4AttachedSubnet { add: true, subnet: addrs.v4_subnets[i] },
        );
        i = i + 1;
        assert(msg@.data_items =~= head + v4_subnet_items(nets.take(i as int)));
    }
    assert(nets.take(i as int) =~= nets);
    let ghost head = head + v4_subnet_items(nets);
    let ghost nets = addrs@.v6_subnets;
    assert(msg@.data_items =~= head + v6_subnet_items(nets.take(0)));
    let mut i: usize = 0;
    while i < addrs.v6_subnets.len()
        invariant
            i <= addrs.v6_subnets@.len(),
            nets == addrs@.v6_subnets,
            msg@ == MessageView::of(
                MessageType::DESTINATION_UP,
                head + v6_subnet_items(nets.take(i as int)),
            ),
        decreases addrs.v6_subnets.len() - i,
    {
        msg = msg.with_item(
            DataItem::Ipv6AttachedSubnet { add: true, subnet: addrs.v6_subnets[i] },
        );
        i = i + 1;
        assert(msg@.data_items =~= head + v6_subnet_items(nets.take(i as int)));
    }
    assert(nets.take(i as int) =~= nets);
    let r = push_metric_items(msg, metrics);
    assert(r@.data_items =~= MessageView::destination_up(mac, *metrics, addrs@).data_items);
    r
}

/// A `Destination_Up_Response`: the MAC address of the request and a status.
pub fn build_destination_up_response(mac: MacAddress, status: StatusCode) -> (r: Message)
    ensures
        r@ == MessageView::destination_up_response(mac, status),
{
    let r = message_of(MessageType::DESTINATION_UP_RESPONSE).with_item(
        DataItem::MacAddress(mac),
    ).with_item(status_data_item(status));
    assert(r@ =~= MessageView::destination_up_response(mac, status));
    r
}

/// A `Destination_Update` message, to which there is no response.
pub fn build_destination_update(mac: MacAddress, metrics: &LinkMetrics) -> (r: Message)
    ensures
        r@ == MessageView::destination_update(mac, *metrics),
{
    let msg = message_of(MessageType::DESTINATION_UPDATE).with_item(DataItem::MacAddress(mac));
    let r = push_metric_items(msg, metrics);
    assert(r@.data_items =~= MessageView::destination_update(mac, *metrics).data_items);
    r
}

/// A `Destination_Down` message.
pub fn build_destination_down(mac: MacAddress, reason: StatusCode) -> (r: Message)
    ensures
        r@ == MessageView::destination_down(mac, reason),
{
    let r = message_of(MessageType::DESTINATION_DOWN).with_item(
        DataItem::MacAddress(mac),
    ).with_item(status_data_item(reason));
    assert(r@ =~= MessageView::destination_down(mac, reason));
    r
}

/// A `Destination_Down_Response`.
pub fn build_destination_down_response(mac: MacAddress, status: StatusCode) -> (r: Message)
    ensures
        r@ == MessageView::destination_down_response(mac, status),
{
    let r = message_of(MessageType::DESTINATION_DOWN_RESPONSE).with_item(
        DataItem::MacAddress(mac),
    ).with_item(status_data_item(status));
    assert(r@ =~= MessageView::destination_down_response(mac, status));
    r
}

fn push_metric_items(msg: Message, m: &LinkMetrics) -> (r: Message)
    ensures
        r@ == (MessageView {
            message_type: msg@.message_type,
            data_items: msg@.data_items + metric_items(*m),
        }),
{
    let ghost before = msg@.data_items;
    let r = msg.with_item(DataItem::MaxDataRateReceive(m.max_data_rate_rx_bps)).with_item(
        DataItem::MaxDataRateTransmit(m.max_data_rate_tx_bps),
    ).with_item(DataItem::CurrentDataRateReceive(m.current_data_rate_rx_bps)).with_item(
        DataItem::CurrentDataRateTransmit(m.current_data_rate_tx_bps),
    ).with_item(DataItem::Latency(m.latency)).with_item(DataItem::Resources(m.resources)).with_item(
        DataItem::RelativeLinkQualityReceive(m.rlq_rx),
    ).with_item(DataItem::RelativeLinkQualityTransmit(m.rlq_tx)).with_item(DataItem::Mtu(m.mtu));
    assert(r@.data_items =~= before + metric_items(*m));
    r
}

/// Looking for the first data item can begin behind those that do not count.
pub proof fn lemma_first_picked_step<T>(
    items: Seq<DataItemView>,
    pick: spec_fn(DataItemView) -> Option<T>,
    i: int,
)
    requires
        0 <= i < items.len(),
    ensures
        first_picked(items.skip(i), pick) == match pick(items[i]) {
            Some(t) => Some(t),
            None => first_picked(items.skip(i + 1), pick),
        },
{
    assert(items.skip(i).drop_first() =~= items.skip(i + 1));
}

/// Status of the first status data item, if there is one.
pub fn extract_status(msg: &Message) -> (r: Option<StatusCode>)
    ensures
        r == msg@.status(),
{
    let ghost views = msg@.data_items;
    assert(views.skip(0) =~= views);
    let mut i: usize = 0;
    while i < msg.data_items.len()
        invariant
            i <= msg.data_items@.len(),
            views == data_item::item_views(msg.data_items@),
            first_picked(views, pick_status()) == first_picked(views.skip(i as int), pick_status()),
        decreases msg.data_items.len() - i,
    {
        proof {
            lemma_first_picked_step(views, pick_status(), i as int);
        }
        if let DataItem::Status { code, .. } = &msg.data_items[i] {
            return Some(*code);
        }
        i = i + 1;
    }
    None
}

/// Interval of the first heartbeat interval data item, if there is one.
pub fn extract_heartbeat_interval(msg: &Message) -> (r: Option<Duration>)
    ensures
        r == msg@.heartbeat_interval(),
{
    let ghost views = msg@.data_items;
    assert(views.skip(0) =~= views);
    let mut i: usize = 0;
    while i < msg.data_items.len()
        invariant
            i <= msg.data_items@.len(),
            views == data_item::item_views(msg.data_items@),
            first_picked(views, pick_heartbeat()) == first_picked(
                views.skip(i as int),
                pick_heartbeat(),
            ),
        decreases msg.data_items.len() - i,
    {
        proof {
            lemma_first_picked_step(views, pick_heartbeat(), i as int);
        }
        if let DataItem::HeartbeatInterval(d) = &msg.data_items[i] {
            return Some(*d);
        }
        i = i + 1;
    }
    None
}

/// Ids of the first extensions supported data item, if there is one.
pub fn extract_extensions_supported(msg: &Message) -> (r: Option<Vec<ExtensionId>>)
    ensures
        match msg@.extensions() {
            Some(ids) => r matches Some(x) && x@ == ids,
            None => r is None,
        },
{
    let ghost views = msg@.data_items;
    assert(views.skip(0) =~= views);
    let mut i: usize = 0;
    while i < msg.data_items.len()
        invariant
            i <= msg.data_items@.len(),
            views == data_item::item_views(msg.data_items@),
            first_picked(views, pick_extensions()) == first_picked(
                views.skip(i as int),
                pick_extensions(),
            ),
        decreases msg.data_items.len() - i,
    {
        proof {
            lemma_first_picked_step(views, pick_extensions(), i as int);
        }
        if let DataItem::ExtensionsSupported(ids) = &msg.data_items[i] {
            return Some(data_item::clone_ids(ids));
        }
        i = i + 1;
    }
    None
}

/// Address of the first MAC address data item, if there is one.
pub fn extract_destination_mac(msg: &Message) -> (r: Option<MacAddress>)
    ensures
        r == msg@.mac(),
{
    let ghost views = msg@.data_items;
    assert(views.skip(0) =~= views);
    let mut i: usize = 0;
    while i < msg.data_items.len()
        invariant
            i <= msg.data_items@.len(),
            views == data_item::item_views(msg.data_items@),
            first_picked(views, pick_mac()) == first_picked(views.skip(i as int), pick_mac()),
        decreases msg.data_items.len() - i,
    {
        proof {
            lemma_first_picked_step(views, pick_mac(), i as int);
        }
        if let DataItem::MacAddress(mac) = &msg.data_items[i] {
            return Some(*mac);
        }
        i = i + 1;
    }
    None
}

/// The metric data items of a message as one value. A field that no data item
/// reports stays zero; `None` only when there is no metric data item at all.
pub fn extract_link_metrics(msg: &Message) -> (r: Option<LinkMetrics>)
    ensures
        r == msg@.link_metrics(),
{
    let ghost views = msg@.data_items;
    let mut found = false;
    let mut m = LinkMetrics::default();
    let mut i: usize = 0;
    assert(metrics_of(views.take(0)) == LinkMetrics::zero());
    while i < msg.data_items.len()
        invariant
            i <= msg.data_items@.len(),
            views == data_item::item_views(msg.data_items@),
            m == metrics_of(views.take(i as int)),
            found == exists|j: int| 0 <= j < i && is_metric(#[trigger] views[j]),
        decreases msg.data_items.len() - i,
    {
        assert(views.take(i + 1).drop_last() =~= views.take(i as int));
        assert(views.take(i + 1).last() == views[i as int]);
        match &msg.data_items[i] {
            DataItem::MaxDataRateReceive(v) => {
                m.max_data_rate_rx_bps = *v;
                found = true;
            },
            DataItem::MaxDataRateTransmit(v) => {
                m.max_data_rate_tx_bps = *v;
                found = true;
            },
            DataItem::CurrentDataRateReceive(v) => {
                m.current_data_rate_rx_bps = *v;
                found = true;
            },
            DataItem::CurrentDataRateTransmit(v) => {
                m.current_data_rate_tx_bps = *v;
                found = true;
            },
            DataItem::Latency(v) => {
                m.latency = *v;
                found = true;
            },
            DataItem::Resources(v) => {
                m.resources = *v;
                found = true;
            },
            DataItem::RelativeLinkQualityReceive(v) => {
                m.rlq_rx = *v;
                found = true;
            },
            DataItem::RelativeLinkQualityTransmit(v) => {
                m.rlq_tx = *v;
                found = true;
            },
            DataItem::Mtu(v) => {
                m.mtu = *v;
                found = true;
            },
            _ => {},
        }
        i = i + 1;
    }
    assert(views.take(i as int) =~= views);
    if found {
        Some(m)
    } else {
        None
    }
}

/// Every address and subnet that a message adds, in order. Entries that are
/// removed are ignored.
pub fn extract_destination_addrs(msg: &Message) -> (r: DestinationAddrs)
    ensures
        r@ == addrs_of(msg@.data_items),
{
    let ghost views = msg@.data_items;
    let mut out = DestinationAddrs::default();
    let mut i: usize = 0;
    assert(addrs_of(views.take(0)) == DestinationAddrsView::none());
    while i < msg.data_items.len()
        invariant
            i <= msg.data_items@.len(),
            views == data_item::item_views(msg.data_items@),
            out@ == addrs_of(views.take(i as int)),
        decreases msg.data_items.len() - i,
    {
        assert(views.take(i + 1).drop_last() =~= views.take(i as int));
        assert(views.take(i + 1).last() == views[i as int]);
        match &msg.data_items[i] {
            DataItem::Ipv4Address { add: true, addr } => {
                out.v4.push(*addr);
            },
            DataItem::Ipv6Address { add: true, addr } => {
                out.v6.push(*addr);
            },
            DataItem::Ipv4AttachedSubnet { add: true, subnet } => {
                out.v4_subnets.push(*subnet);
            },
            DataItem::Ipv6AttachedSubnet { add: true, subnet } => {
                out.v6_subnets.push(*subnet);
            },
            _ => {},
        }
        i = i + 1;
        assert(out@ =~= addrs_of(views.take(i as int)));
    }
    assert(views.take(i as int) =~= views);
    out
}

/// The action that a received message calls for, as long as the peer announced
/// a heartbeat interval of at least one second: the missed-heartbeat deadline
/// is set to twice that interval. None when no timer could hold the deadline.
pub open spec fn reset_action(timer_id: TimerId, peer_interval: Option<Duration>) -> Option<
    FsmActionView,
> {
    match peer_interval {
        Some(d) => if d.nanos < SessionConfigView::of_millis(MIN_HEARTBEAT_INTERVAL_MS as nat).nanos
            || d.nanos * 2 > Duration::MAX_NANOS {
            None
        } else {
            Some(
                FsmActionView::ResetHeartbeat {
                    timer_id,
                    missed_deadline: Duration { nanos: (d.nanos * 2) as u128 },
                },
            )
        },
        None => None,
    }
}

/// The action that re-arms the missed-heartbeat deadline.
pub fn heartbeat_reset_action(timer_id: TimerId, peer_interval: Option<Duration>) -> (r: Option<
    FsmAction,
>)
    ensures
        match reset_action(timer_id, peer_interval) {
            Some(action) => r matches Some(x) && x@ == action,
            None => r is None,
        },
{
    let d = match peer_interval {
        Some(d) => d,
        None => {
            return None;
        },
    };
    if d.nanos < Duration::from_millis(MIN_HEARTBEAT_INTERVAL_MS as u64).nanos {
        return None;
    }
    match d.checked_mul(2) {
        Some(missed_deadline) => Some(FsmAction::ResetHeartbeat { timer_id, missed_deadline }),
        None => None,
    }
}

/// Cancels the timer with the given handle.
pub open spec fn cancels(timer: u32) -> FsmActionView {
    FsmActionView::CancelTimer(TimerId(timer))
}

/// Tells the application that the session is down.
pub open spec fn reports_down(reason: StatusCode) -> FsmActionView {
    FsmActionView::Emit(EmittedEventView::SessionDown(reason))
}

/// Starts the deadline for Session Initialization.
pub open spec fn starts_init_timer(config: SessionConfigView) -> FsmActionView {
    FsmActionView::StartTimer {
        id: TimerId(TIMER_SESSION_INIT),
        kind: TimerKind::SessionInit,
        duration: config.session_init_timeout,
        periodic: false,
    }
}

/// Starts the deadline for Session Termination Response.
pub open spec fn starts_termination_timer(config: SessionConfigView) -> FsmActionView {
    FsmActionView::StartTimer {
        id: TimerId(TIMER_TERMINATION),
        kind: TimerKind::Termination,
        duration: config.termination_timeout,
        periodic: false,
    }
}

/// Starts the periodic sending of heartbeats.
pub open spec fn starts_heartbeat_timer(config: SessionConfigView) -> FsmActionView {
    FsmActionView::StartTimer {
        id: TimerId(TIMER_HEARTBEAT),
        kind: TimerKind::Heartbeat,
        duration: config.heartbeat_interval(),
        periodic: true,
    }
}

/// The re-arming of the missed-heartbeat deadline, as a list of at most one
/// action.
pub open spec fn resets(peer_interval: Option<Duration>) -> Seq<FsmActionView> {
    match reset_action(TimerId(TIMER_HEARTBEAT_MISSED), peer_interval) {
        Some(action) => seq![action],
        None => Seq::empty(),
    }
}

/// Cancels both heartbeat timers.
pub open spec fn cancels_heartbeats() -> Seq<FsmActionView> {
    seq![cancels(TIMER_HEARTBEAT), cancels(TIMER_HEARTBEAT_MISSED)]
}

/// Ends an established session at once because of what the peer sent.
pub open spec fn drops_session() -> Seq<FsmActionView> {
    cancels_heartbeats() + seq![
        FsmActionView::CloseTcp,
        reports_down(StatusCode(StatusCode::INVALID_DATA)),
    ]
}

/// Asks the peer to end the session.
pub open spec fn asks_termination(config: SessionConfigView, reason: StatusCode) -> Seq<
    FsmActionView,
> {
    seq![
        FsmActionView::SendMessage(MessageView::session_termination(reason)),
        starts_termination_timer(config),
    ]
}

/// An empty list of actions.
pub(crate) fn no_actions() -> (r: Vec<FsmAction>)
    ensures
        events::action_views(r@) == Seq::<FsmActionView>::empty(),
{
    let r: Vec<FsmAction> = Vec::new();
    assert(events::action_views(r@) =~= Seq::<FsmActionView>::empty());
    r
}

/// Append one action.
pub(crate) fn push_action(actions: &mut Vec<FsmAction>, action: FsmAction)
    ensures
        events::action_views(final(actions)@) == events::action_views(old(actions)@).push(action@),
{
    let ghost before = events::action_views(actions@);
    actions.push(action);
    assert(events::action_views(actions@) =~= before.push(action@));
}

/// Append the cancelling of a timer.
pub(crate) fn push_cancel(actions: &mut Vec<FsmAction>, timer: u32)
    ensures
        events::action_views(final(actions)@) == events::action_views(old(actions)@).push(
            cancels(timer),
        ),
{
    push_action(actions, FsmAction::CancelTimer(TimerId(timer)));
}

/// Append the report that the session is down.
pub(crate) fn push_down(actions: &mut Vec<FsmAction>, reason: StatusCode)
    ensures
        events::action_views(final(actions)@) == events::action_views(old(actions)@).push(
            reports_down(reason),
        ),
{
    push_action(actions, FsmAction::Emit(EmittedEvent::SessionDown(reason)));
}

/// Append the re-arming of the missed-heartbeat deadline, where there is one.
pub(crate) fn push_reset(actions: &mut Vec<FsmAction>, peer_interval: Option<Duration>)
    ensures
        events::action_views(final(actions)@) == events::action_views(old(actions)@) + resets(
            peer_interval,
        ),
{
    let ghost before = events::action_views(actions@);
    if let Some(action) = heartbeat_reset_action(TimerId(TIMER_HEARTBEAT_MISSED), peer_interval) {
        push_action(actions, action);
    }
    assert(events::action_views(actions@) =~= before + resets(peer_interval));
}

/// Append the start of the periodic sending of heartbeats.
pub(crate) fn push_heartbeat_timer(actions: &mut Vec<FsmAction>, config: &SessionConfig)
    ensures
        events::action_views(final(actions)@) == events::action_views(old(actions)@).push(
            starts_heartbeat_timer(config@),
        ),
{
    push_action(
        actions,
        FsmAction::StartTimer {
            id: TimerId(TIMER_HEARTBEAT),
            kind: TimerKind::Heartbeat,
            duration: local_heartbeat_interval(config),
            periodic: true,
        },
    );
}

/// Append the start of the deadline for Session Initialization.
pub(crate) fn push_init_timer(actions: &mut Vec<FsmAction>, config: &SessionConfig)
    ensures
        events::action_views(final(actions)@) == events::action_views(old(actions)@).push(
            starts_init_timer(config@),
        ),
{
    push_action(
        actions,
        FsmAction::StartTimer {
            id: TimerId(TIMER_SESSION_INIT),
            kind: TimerKind::SessionInit,
            duration: config.session_init_timeout,
            periodic: false,
        },
    );
}

/// Append the request that the peer end the session.
pub(crate) fn push_termination(
    actions: &mut Vec<FsmAction>,
    config: &SessionConfig,
    reason: StatusCode,
)
    ensures
        events::action_views(final(actions)@) == events::action_views(old(actions)@)
            + asks_termination(config@, reason),
{
    let ghost before = events::action_views(actions@);
    push_action(actions, FsmAction::SendMessage(build_session_termination(reason)));
    push_action(
        actions,
        FsmAction::StartTimer {
            id: TimerId(TIMER_TERMINATION),
            kind: TimerKind::Termination,
            duration: config.termination_timeout,
            periodic: false,
        },
    );
    assert(events::action_views(actions@) =~= before + asks_termination(config@, reason));
}

/// The actions that end an established session at once because of what the
/// peer sent.
pub(crate) fn drop_session_actions() -> (r: Vec<FsmAction>)
    ensures
        events::action_views(r@) == drops_session(),
{
    let mut actions = no_actions();
    push_cancel(&mut actions, TIMER_HEARTBEAT);
    push_cancel(&mut actions, TIMER_HEARTBEAT_MISSED);
    push_action(&mut actions, FsmAction::CloseTcp);
    push_down(&mut actions, StatusCode(StatusCode::INVALID_DATA));
    assert(events::action_views(actions@) =~= drops_session());
    actions
}

} // verus!
