//! Data items: the type-length-value fields of messages and signals.

use vstd::prelude::*;
use bytes::Bytes;
use crate::proto::addr::{Ipv4Addr, Ipv6Addr};
use crate::proto::buffer;
use crate::proto::duration::Duration;
use crate::proto::ids::{DataItemType, ExtensionId};
use crate::proto::mac::MacAddress;
use crate::proto::status::StatusCode;
use crate::proto::subnet::{Ipv4Net, Ipv4NetView, Ipv6Net, Ipv6NetView};

verus! {

/// Low-level, untyped data item. Useful for forward compatibility and for
/// extensions that carry their own value encoding.
#[derive(Debug)]
pub struct RawDataItem {
    pub type_id: DataItemType,
    pub value: Bytes,
}

impl Clone for RawDataItem {
    fn clone(&self) -> (r: Self)
        ensures
            r@ == self@,
    {
        RawDataItem { type_id: self.type_id, value: self.value.clone() }
    }
}

/// An untyped data item, with the octets of its value.
#[verifier::ext_equal]
pub struct RawDataItemView {
    pub type_id: DataItemType,
    pub value: Seq<u8>,
}

impl View for RawDataItem {
    type V = RawDataItemView;

    open spec fn view(&self) -> RawDataItemView {
        RawDataItemView { type_id: self.type_id, value: buffer::bytes_content(self.value) }
    }
}

/// Peer Type flags.
#[derive(Clone, Copy, Debug, PartialEq, Eq, Structural)]
pub struct PeerFlags {
    pub smi: bool,
}

impl Default for PeerFlags {
    fn default() -> (r: Self)
        ensures
            !r.smi,
    {
        PeerFlags { smi: false }
    }
}

/// Connection Point flags.
#[derive(Clone, Copy, Debug, PartialEq, Eq, Structural)]
pub struct ConnectionPointFlags {
    pub use_tls: bool,
}

impl Default for ConnectionPointFlags {
    fn default() -> (r: Self)
        ensures
            !r.use_tls,
    {
        ConnectionPointFlags { use_tls: false }
    }
}

/// Typed data item. `Unknown` preserves forward compatibility: the decoder
/// never fails on a type id it does not know, and extensions can look at the
/// octets themselves.
#[allow(inconsistent_fields)]
#[derive(Debug)]
pub enum DataItem {
    Status { code: StatusCode, text: String },
    Ipv4ConnectionPoint { flags: ConnectionPointFlags, addr: Ipv4Addr, port: Option<u16> },
    Ipv6ConnectionPoint { flags: ConnectionPointFlags, addr: Ipv6Addr, port: Option<u16> },
    PeerType { flags: PeerFlags, description: String },
    HeartbeatInterval(Duration),
    ExtensionsSupported(Vec<ExtensionId>),
    MacAddress(MacAddress),
    Ipv4Address { add: bool, addr: Ipv4Addr },
    Ipv6Address { add: bool, addr: Ipv6Addr },
    Ipv4AttachedSubnet { add: bool, subnet: Ipv4Net },
    Ipv6AttachedSubnet { add: bool, subnet: Ipv6Net },
    MaxDataRateReceive(u64),
    MaxDataRateTransmit(u64),
    CurrentDataRateReceive(u64),
    CurrentDataRateTransmit(u64),
    Latency(Duration),
    Resources(u8),
    RelativeLinkQualityReceive(u8),
    RelativeLinkQualityTransmit(u8),
    Mtu(u16),
    Unknown(RawDataItem),
}

/// What a data item says, apart from how it is held in memory.
#[allow(inconsistent_fields)]
#[verifier::ext_equal]
pub enum DataItemView {
    Status { code: StatusCode, text: Seq<char> },
    Ipv4ConnectionPoint { flags: ConnectionPointFlags, addr: Ipv4Addr, port: Option<u16> },
    Ipv6ConnectionPoint { flags: ConnectionPointFlags, addr: Ipv6Addr, port: Option<u16> },
    PeerType { flags: PeerFlags, description: Seq<char> },
    HeartbeatInterval(Duration),
    ExtensionsSupported(Seq<ExtensionId>),
    MacAddress(MacAddress),
    Ipv4Address { add: bool, addr: Ipv4Addr },
    Ipv6Address { add: bool, addr: Ipv6Addr },
    Ipv4AttachedSubnet { add: bool, subnet: Ipv4NetView },
    Ipv6AttachedSubnet { add: bool, subnet: Ipv6NetView },
    MaxDataRateReceive(u64),
    MaxDataRateTransmit(u64),
    CurrentDataRateReceive(u64),
    CurrentDataRateTransmit(u64),
    Latency(Duration),
    Resources(u8),
    RelativeLinkQualityReceive(u8),
    RelativeLinkQualityTransmit(u8),
    Mtu(u16),
    Unknown(RawDataItemView),
}

impl View for DataItem {
    type V = DataItemView;

    open spec fn view(&self) -> DataItemView {
        match *self {
            DataItem::Status { code, text } => DataItemView::Status { code, text: text@ },
            DataItem::Ipv4ConnectionPoint { flags, addr, port } => {
                DataItemView::Ipv4ConnectionPoint { flags, addr, port }
            },
            DataItem::Ipv6ConnectionPoint { flags, addr, port } => {
                DataItemView::Ipv6ConnectionPoint { flags, addr, port }
            },
            DataItem::PeerType { flags, description } => DataItemView::PeerType {
                flags,
                description: description@,
            },
            DataItem::HeartbeatInterval(d) => DataItemView::HeartbeatInterval(d),
            DataItem::ExtensionsSupported(ids) => DataItemView::ExtensionsSupported(ids@),
            DataItem::MacAddress(mac) => DataItemView::MacAddress(mac),
            DataItem::Ipv4Address { add, addr } => DataItemView::Ipv4Address { add, addr },
            DataItem::Ipv6Address { add, addr } => DataItemView::Ipv6Address { add, addr },
            DataItem::Ipv4AttachedSubnet { add, subnet } => DataItemView::Ipv4AttachedSubnet {
                add,
                subnet: subnet@,
            },
            DataItem::Ipv6AttachedSubnet { add, subnet } => DataItemView::Ipv6AttachedSubnet {
                add,
                subnet: subnet@,
            },
            DataItem::MaxDataRateReceive(v) => DataItemView::MaxDataRateReceive(v),
            DataItem::MaxDataRateTransmit(v) => DataItemView::MaxDataRateTransmit(v),
            DataItem::CurrentDataRateReceive(v) => DataItemView::CurrentDataRateReceive(v),
            DataItem::CurrentDataRateTransmit(v) => DataItemView::CurrentDataRateTransmit(v),
            DataItem::Latency(d) => DataItemView::Latency(d),
            DataItem::Resources(v) => DataItemView::Resources(v),
            DataItem::RelativeLinkQualityReceive(v) => DataItemView::RelativeLinkQualityReceive(v),
            DataItem::RelativeLinkQualityTransmit(v) => DataItemView::RelativeLinkQualityTransmit(
                v,
            ),
            DataItem::Mtu(v) => DataItemView::Mtu(v),
            DataItem::Unknown(raw) => DataItemView::Unknown(raw@),
        }
    }
}

/// What a list of data items says.
pub open spec fn item_views(items: Seq<DataItem>) -> Seq<DataItemView> {
    Seq::new(items.len(), |i: int| items[i]@)
}

/// The same extension ids, in the same order.
pub fn clone_ids(ids: &Vec<ExtensionId>) -> (r: Vec<ExtensionId>)
    ensures
        r@ == ids@,
{
    let mut r: Vec<ExtensionId> = Vec::new();
    let mut i: usize = 0;
    while i < ids.len()
        invariant
            i <= ids@.len(),
            r@ == ids@.take(i as int),
        decreases ids.len() - i,
    {
        r.push(ids[i]);
        i = i + 1;
        assert(ids@.take(i as int) =~= ids@.take(i - 1).push(ids@[i - 1]));
    }
    assert(ids@.take(i as int) =~= ids@);
    r
}

/// The same data items, in the same order.
pub fn clone_items(items: &Vec<DataItem>) -> (r: Vec<DataItem>)
    ensures
        item_views(r@) == item_views(items@),
{
    let mut r: Vec<DataItem> = Vec::new();
    let mut i: usize = 0;
    while i < items.len()
        invariant
            i <= items@.len(),
            r@.len() == i,
            forall|j: int| 0 <= j < i ==> r@[j]@ == items@[j]@,
        decreases items.len() - i,
    {
        r.push(items[i].clone());
        i = i + 1;
    }
    assert(item_views(r@) =~= item_views(items@));
    r
}

impl Clone for DataItem {
    fn clone(&self) -> (r: Self)
        ensures
            r@ == self@,
    {
        match self {
            DataItem::Status { code, text } => DataItem::Status {
                code: *code,
                text: text.clone(),
            },
            DataItem::PeerType { flags, description } => DataItem::PeerType {
                flags: *flags,
                description: description.clone(),
            },
            DataItem::ExtensionsSupported(ids) => DataItem::ExtensionsSupported(clone_ids(ids)),
            DataItem::Unknown(raw) => DataItem::Unknown(raw.clone()),
            DataItem::Ipv4ConnectionPoint { flags, addr, port } => DataItem::Ipv4ConnectionPoint {
                flags: *flags,
                addr: *addr,
                port: *port,
            },
            DataItem::Ipv6ConnectionPoint { flags, addr, port } => DataItem::Ipv6ConnectionPoint {
                flags: *flags,
                addr: *addr,
                port: *port,
            },
            DataItem::HeartbeatInterval(v) => DataItem::HeartbeatInterval(*v),
            DataItem::MacAddress(v) => DataItem::MacAddress(*v),
            DataItem::Ipv4Address { add, addr } => DataItem::Ipv4Address {
                add: *add,
                addr: *addr,
            },
            DataItem::Ipv6Address { add, addr } => DataItem::Ipv6Address {
                add: *add,
                addr: *addr,
            },
            DataItem::Ipv4AttachedSubnet { add, subnet } => DataItem::Ipv4AttachedSubnet {
                add: *add,
                subnet: *subnet,
            },
            DataItem::Ipv6AttachedSubnet { add, subnet } => DataItem::Ipv6AttachedSubnet {
                add: *add,
                subnet: *subnet,
            },
            DataItem::MaxDataRateReceive(v) => DataItem::MaxDataRateReceive(*v),
            DataItem::MaxDataRateTransmit(v) => DataItem::MaxDataRateTransmit(*v),
            DataItem::CurrentDataRateReceive(v) => DataItem::CurrentDataRateReceive(*v),
            DataItem::CurrentDataRateTransmit(v) => DataItem::CurrentDataRateTransmit(*v),
            DataItem::Latency(v) => DataItem::Latency(*v),
            DataItem::Resources(v) => DataItem::Resources(*v),
            DataItem::RelativeLinkQualityReceive(v) => DataItem::RelativeLinkQualityReceive(*v),
            DataItem::RelativeLinkQualityTransmit(v) => DataItem::RelativeLinkQualityTransmit(*v),
            DataItem::Mtu(v) => DataItem::Mtu(*v),
        }
    }
}

impl DataItemView {
    /// The type id that this data item has on the wire.
    pub open spec fn type_id(self) -> DataItemType {
        DataItemType(
            match self {
                DataItemView::Status { .. } => DataItemType::STATUS,
                DataItemView::Ipv4ConnectionPoint { .. } => DataItemType::IPV4_CONNECTION_POINT,
                DataItemView::Ipv6ConnectionPoint { .. } => DataItemType::IPV6_CONNECTION_POINT,
                DataItemView::PeerType { .. } => DataItemType::PEER_TYPE,
                DataItemView::HeartbeatInterval(_) => DataItemType::HEARTBEAT_INTERVAL,
                DataItemView::ExtensionsSupported(_) => DataItemType::EXTENSIONS_SUPPORTED,
                DataItemView::MacAddress(_) => DataItemType::MAC_ADDRESS,
                DataItemView::Ipv4Address { .. } => DataItemType::IPV4_ADDRESS,
                DataItemView::Ipv6Address { .. } => DataItemType::IPV6_ADDRESS,
                DataItemView::Ipv4AttachedSubnet { .. } => DataItemType::IPV4_ATTACHED_SUBNET,
                DataItemView::Ipv6AttachedSubnet { .. } => DataItemType::IPV6_ATTACHED_SUBNET,
                DataItemView::MaxDataRateReceive(_) => DataItemType::MAXIMUM_DATA_RATE_RECEIVE,
                DataItemView::MaxDataRateTransmit(_) => DataItemType::MAXIMUM_DATA_RATE_TRANSMIT,
                DataItemView::CurrentDataRateReceive(_) => DataItemType::CURRENT_DATA_RATE_RECEIVE,
                DataItemView::CurrentDataRateTransmit(_) => DataItemType::CURRENT_DATA_RATE_TRANSMIT,
                DataItemView::Latency(_) => DataItemType::LATENCY,
                DataItemView::Resources(_) => DataItemType::RESOURCES,
                DataItemView::RelativeLinkQualityReceive(_) => {
                    DataItemType::RELATIVE_LINK_QUALITY_RECEIVE
                },
                DataItemView::RelativeLinkQualityTransmit(_) => {
                    DataItemType::RELATIVE_LINK_QUALITY_TRANSMIT
                },
                DataItemView::Mtu(_) => DataItemType::MTU,
                DataItemView::Unknown(raw) => raw.type_id.0,
            },
        )
    }
}

impl DataItem {
    /// The type id that this data item has on the wire.
    pub fn type_id(&self) -> (r: DataItemType)
        ensures
            r == self@.type_id(),
    {
        let code: u16 = match self {
            DataItem::Status { .. } => DataItemType::STATUS,
            DataItem::Ipv4ConnectionPoint { .. } => DataItemType::IPV4_CONNECTION_POINT,
            DataItem::Ipv6ConnectionPoint { .. } => DataItemType::IPV6_CONNECTION_POINT,
            DataItem::PeerType { .. } => DataItemType::PEER_TYPE,
            DataItem::HeartbeatInterval(_) => DataItemType::HEARTBEAT_INTERVAL,
            DataItem::ExtensionsSupported(_) => DataItemType::EXTENSIONS_SUPPORTED,
            DataItem::MacAddress(_) => DataItemType::MAC_ADDRESS,
            DataItem::Ipv4Address { .. } => DataItemType::IPV4_ADDRESS,
            DataItem::Ipv6Address { .. } => DataItemType::IPV6_ADDRESS,
            DataItem::Ipv4AttachedSubnet { .. } => DataItemType::IPV4_ATTACHED_SUBNET,
            DataItem::Ipv6AttachedSubnet { .. } => DataItemType::IPV6_ATTACHED_SUBNET,
            DataItem::MaxDataRateReceive(_) => DataItemType::MAXIMUM_DATA_RATE_RECEIVE,
            DataItem::MaxDataRateTransmit(_) => DataItemType::MAXIMUM_DATA_RATE_TRANSMIT,
            DataItem::CurrentDataRateReceive(_) => DataItemType::CURRENT_DATA_RATE_RECEIVE,
            DataItem::CurrentDataRateTransmit(_) => DataItemType::CURRENT_DATA_RATE_TRANSMIT,
            DataItem::Latency(_) => DataItemType::LATENCY,
            DataItem::Resources(_) => DataItemType::RESOURCES,
            DataItem::RelativeLinkQualityReceive(_) => DataItemType::RELATIVE_LINK_QUALITY_RECEIVE,
            DataItem::RelativeLinkQualityTransmit(_) => {
                DataItemType::RELATIVE_LINK_QUALITY_TRANSMIT
            },
            DataItem::Mtu(_) => DataItemType::MTU,
            DataItem::Unknown(raw) => raw.type_id.0,
        };
        DataItemType(code)
    }
}

} // verus!
