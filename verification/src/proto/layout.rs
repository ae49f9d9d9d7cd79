//! The wire format, stated over sequences of octets.
//!
//! All integers are big-endian. Text inside a data item has no length prefix
//! and no terminator: its length is that of the data item. Data items keep
//! their order.

use vstd::prelude::*;
use vstd::utf8;
use crate::proto::addr::{Ipv4Addr, Ipv6Addr};
use crate::proto::data_item::{ConnectionPointFlags, DataItemView, PeerFlags, RawDataItemView};
use crate::proto::duration::Duration;
use crate::proto::error::{CodecErrorView, ExpectedLenView};
use crate::proto::field;
use crate::proto::ids::{DataItemType, ExtensionId, MessageType, SignalType};
use crate::proto::mac::MacAddress;
use crate::proto::message::MessageView;
use crate::proto::signal::SignalView;
use crate::proto::status::StatusCode;
use crate::proto::subnet;
use crate::proto::subnet::{Ipv4NetView, Ipv6NetView};
use crate::proto::wire;

verus! {

/// ASCII prefix of every discovery signal.
pub const SIGNAL_PREFIX: [u8; 4] = [68, 76, 69, 80];

/// A heartbeat interval is at least one second.
pub const MIN_HEARTBEAT_INTERVAL_MS: u32 = 1_000;

/// Length of the signal header: prefix (4), type (2), length (2).
pub const SIGNAL_HEADER_LEN: usize = 8;

/// Length of the message header: type (2), length (2).
pub const MESSAGE_HEADER_LEN: usize = 4;

/// The array whose elements are those of `s`.
pub open spec fn array_of<const N: usize>(s: Seq<u8>) -> [u8; N] {
    choose|a: [u8; N]| a@ == s
}

/// An array is the one that its own elements make.
pub proof fn lemma_array_of<const N: usize>(a: [u8; N])
    ensures
        array_of::<N>(a@) == a,
{
    assert(array_of::<N>(a@)@ == a@);
    assert(array_of::<N>(a@) =~= a);
}

/// A flag on the wire: the lowest bit of its octet, the others being zero.
pub open spec fn flag_octet(set: bool) -> u8 {
    if set {
        1
    } else {
        0
    }
}

/// A flag read from its octet: the lowest bit alone counts.
pub open spec fn flag_set(octet: u8) -> bool {
    octet % 2 == 1
}

/// An optional port: two octets, or none.
pub open spec fn port_octets(port: Option<u16>) -> Seq<u8> {
    match port {
        Some(p) => wire::be(p as nat, 2),
        None => Seq::empty(),
    }
}

/// Extension ids, two octets each.
pub open spec fn id_octets(ids: Seq<ExtensionId>) -> Seq<u8>
    decreases ids.len(),
{
    if ids.len() == 0 {
        Seq::empty()
    } else {
        id_octets(ids.drop_last()) + wire::be(ids.last().0 as nat, 2)
    }
}

/// Extension ids take two octets each.
pub proof fn lemma_id_octets_len(ids: Seq<ExtensionId>)
    ensures
        id_octets(ids).len() == 2 * ids.len(),
    decreases ids.len(),
{
    if ids.len() > 0 {
        lemma_id_octets_len(ids.drop_last());
        wire::lemma_be_len(ids.last().0 as nat, 2);
    }
}

/// Whole milliseconds of a span.
pub open spec fn millis(d: Duration) -> nat {
    (d.nanos / Duration::NANOS_PER_MILLI) as nat
}

/// Whole microseconds of a span.
pub open spec fn micros(d: Duration) -> nat {
    (d.nanos / Duration::NANOS_PER_MICRO) as nat
}

/// A number as it is reported in an error: the largest value of the type that
/// counts it stands for everything above.
pub open spec fn reported(n: nat, max: nat) -> u64 {
    if n <= max {
        n as u64
    } else {
        max as u64
    }
}

impl DataItemView {
    /// The octets of the value.
    pub open spec fn value(self) -> Seq<u8> {
        match self {
            DataItemView::Status { code, text } => seq![code.0] + utf8::encode_utf8(text),
            DataItemView::Ipv4ConnectionPoint { flags, addr, port } => seq![
                flag_octet(flags.use_tls),
            ] + addr.octets@ + port_octets(port),
            DataItemView::Ipv6ConnectionPoint { flags, addr, port } => seq![
                flag_octet(flags.use_tls),
            ] + addr.octets@ + port_octets(port),
            DataItemView::PeerType { flags, description } => seq![flag_octet(flags.smi)]
                + utf8::encode_utf8(description),
            DataItemView::HeartbeatInterval(d) => wire::be(millis(d), 4),
            DataItemView::ExtensionsSupported(ids) => id_octets(ids),
            DataItemView::MacAddress(mac) => mac.octets(),
            DataItemView::Ipv4Address { add, addr } => seq![flag_octet(add)] + addr.octets@,
            DataItemView::Ipv6Address { add, addr } => seq![flag_octet(add)] + addr.octets@,
            DataItemView::Ipv4AttachedSubnet { add, subnet } => (seq![flag_octet(add)]
                + subnet.network()).push(subnet.prefix_len),
            DataItemView::Ipv6AttachedSubnet { add, subnet } => (seq![flag_octet(add)]
                + subnet.network()).push(subnet.prefix_len),
            DataItemView::MaxDataRateReceive(bps) => wire::be(bps as nat, 8),
            DataItemView::MaxDataRateTransmit(bps) => wire::be(bps as nat, 8),
            DataItemView::CurrentDataRateReceive(bps) => wire::be(bps as nat, 8),
            DataItemView::CurrentDataRateTransmit(bps) => wire::be(bps as nat, 8),
            DataItemView::Latency(d) => wire::be(micros(d), 8),
            DataItemView::Resources(pct) => seq![pct],
            DataItemView::RelativeLinkQualityReceive(pct) => seq![pct],
            DataItemView::RelativeLinkQualityTransmit(pct) => seq![pct],
            DataItemView::Mtu(mtu) => wire::be(mtu as nat, 2),
            DataItemView::Unknown(raw) => raw.value,
        }
    }

    /// Why this data item has no wire form, where it has none: a value that
    /// 16 bits cannot count the octets of, a heartbeat interval below one
    /// second or beyond 32 bits of milliseconds, a latency beyond 64 bits of
    /// microseconds, a percentage above 100.
    pub open spec fn refusal(self) -> Option<CodecErrorView> {
        if self.value().len() > u16::MAX {
            Some(
                CodecErrorView::OutOfRange {
                    field: field::DATA_ITEM_VALUE_LENGTH@,
                    value: reported(self.value().len(), usize::MAX as nat),
                },
            )
        } else {
            match self {
                DataItemView::HeartbeatInterval(d) => heartbeat_refusal(millis(d)),
                DataItemView::Latency(d) => if micros(d) > u64::MAX {
                    Some(
                        CodecErrorView::OutOfRange { field: field::LATENCY_US@, value: u64::MAX },
                    )
                } else {
                    None
                },
                DataItemView::Resources(pct) => percent_refusal(field::RESOURCES@, pct),
                DataItemView::RelativeLinkQualityReceive(pct) => percent_refusal(
                    field::RLQ_RECEIVE@,
                    pct,
                ),
                DataItemView::RelativeLinkQualityTransmit(pct) => percent_refusal(
                    field::RLQ_TRANSMIT@,
                    pct,
                ),
                _ => None,
            }
        }
    }

    /// Type, length and value on the wire.
    pub open spec fn encoding(self) -> Seq<u8> {
        wire::be(self.type_id().0 as nat, 2) + wire::be(self.value().len(), 2) + self.value()
    }
}

pub open spec fn heartbeat_refusal(ms: nat) -> Option<CodecErrorView> {
    if ms < MIN_HEARTBEAT_INTERVAL_MS || ms > u32::MAX {
        Some(
            CodecErrorView::OutOfRange {
                field: field::HEARTBEAT_INTERVAL_MS@,
                value: reported(ms, u64::MAX as nat),
            },
        )
    } else {
        None
    }
}

pub open spec fn percent_refusal(name: Seq<char>, pct: u8) -> Option<CodecErrorView> {
    if pct > 100 {
        Some(CodecErrorView::OutOfRange { field: name, value: pct as u64 })
    } else {
        None
    }
}

/// The lengths that a value of the given type may have; `None` for a type id
/// that is not known.
pub open spec fn length_rule(kind: DataItemType) -> Option<ExpectedLenView> {
    let code = kind.0;
    if code == DataItemType::STATUS || code == DataItemType::PEER_TYPE {
        Some(ExpectedLenView::AtLeast(1))
    } else if code == DataItemType::IPV4_CONNECTION_POINT {
        Some(ExpectedLenView::OneOf(seq![5usize, 7]))
    } else if code == DataItemType::IPV6_CONNECTION_POINT {
        Some(ExpectedLenView::OneOf(seq![17usize, 19]))
    } else if code == DataItemType::HEARTBEAT_INTERVAL {
        Some(ExpectedLenView::Exact(4))
    } else if code == DataItemType::EXTENSIONS_SUPPORTED {
        Some(ExpectedLenView::Multiple(2))
    } else if code == DataItemType::MAC_ADDRESS || code == DataItemType::IPV4_ATTACHED_SUBNET {
        Some(ExpectedLenView::Exact(6))
    } else if code == DataItemType::IPV4_ADDRESS {
        Some(ExpectedLenView::Exact(5))
    } else if code == DataItemType::IPV6_ADDRESS {
        Some(ExpectedLenView::Exact(17))
    } else if code == DataItemType::IPV6_ATTACHED_SUBNET {
        Some(ExpectedLenView::Exact(18))
    } else if code == DataItemType::MAXIMUM_DATA_RATE_RECEIVE || code
        == DataItemType::MAXIMUM_DATA_RATE_TRANSMIT || code
        == DataItemType::CURRENT_DATA_RATE_RECEIVE || code
        == DataItemType::CURRENT_DATA_RATE_TRANSMIT || code == DataItemType::LATENCY {
        Some(ExpectedLenView::Exact(8))
    } else if code == DataItemType::RESOURCES || code == DataItemType::RELATIVE_LINK_QUALITY_RECEIVE
        || code == DataItemType::RELATIVE_LINK_QUALITY_TRANSMIT {
        Some(ExpectedLenView::Exact(1))
    } else if code == DataItemType::MTU {
        Some(ExpectedLenView::Exact(2))
    } else {
        None
    }
}

/// Whether `len` is one of `ns`.
pub open spec fn listed(ns: Seq<usize>, len: nat) -> bool {
    exists|i: int| 0 <= i < ns.len() && ns[i] == len
}

impl ExpectedLenView {
    /// Whether a length is one of those permitted.
    pub open spec fn permits(self, len: nat) -> bool {
        match self {
            ExpectedLenView::Exact(n) => len == n,
            ExpectedLenView::AtLeast(n) => len >= n,
            ExpectedLenView::OneOf(ns) => listed(ns, len),
            ExpectedLenView::Multiple(n) => len % n == 0,
        }
    }
}

/// Each of the listed lengths is permitted.
pub proof fn lemma_one_of(ns: Seq<usize>, i: int)
    requires
        0 <= i < ns.len(),
    ensures
        ExpectedLenView::OneOf(ns).permits(ns[i] as nat),
{
}

/// Extension ids read from their octets, two each.
pub open spec fn ids_of(octets: Seq<u8>) -> Seq<ExtensionId> {
    Seq::new(
        octets.len() / 2,
        |i: int| ExtensionId(wire::from_be(octets.subrange(2 * i, 2 * i + 2)) as u16),
    )
}

/// The port behind an address of `width` octets and its flags, if there is one.
pub open spec fn port_of(v: Seq<u8>, width: int) -> Option<u16> {
    if v.len() == width + 3 {
        Some(wire::from_be(v.skip(width + 1)) as u16)
    } else {
        None
    }
}

/// Text, which must be UTF-8.
pub open spec fn text_of(octets: Seq<u8>) -> Result<Seq<char>, CodecErrorView> {
    if utf8::valid_utf8(octets) {
        Ok(utf8::decode_utf8(octets))
    } else {
        Err(CodecErrorView::InvalidUtf8 { octets })
    }
}

/// A percentage in one octet, under the name that an error gives it.
pub open spec fn percent_of(name: Seq<char>, v: Seq<u8>) -> Result<u8, CodecErrorView> {
    match percent_refusal(name, v[0]) {
        Some(e) => Err(e),
        None => Ok(v[0]),
    }
}

/// What a value of a known type says, given that its length is permitted.
pub open spec fn value_meaning(kind: DataItemType, v: Seq<u8>) -> Result<
    DataItemView,
    CodecErrorView,
> {
    let code = kind.0;
    if code == DataItemType::STATUS {
        match text_of(v.skip(1)) {
            Ok(text) => Ok(DataItemView::Status { code: StatusCode(v[0]), text }),
            Err(e) => Err(e),
        }
    } else if code == DataItemType::IPV4_CONNECTION_POINT {
        Ok(
            DataItemView::Ipv4ConnectionPoint {
                flags: ConnectionPointFlags { use_tls: flag_set(v[0]) },
                addr: Ipv4Addr { octets: array_of(v.subrange(1, 5)) },
                port: port_of(v, 4),
            },
        )
    } else if code == DataItemType::IPV6_CONNECTION_POINT {
        Ok(
            DataItemView::Ipv6ConnectionPoint {
                flags: ConnectionPointFlags { use_tls: flag_set(v[0]) },
                addr: Ipv6Addr { octets: array_of(v.subrange(1, 17)) },
                port: port_of(v, 16),
            },
        )
    } else if code == DataItemType::PEER_TYPE {
        match text_of(v.skip(1)) {
            Ok(description) => Ok(
                DataItemView::PeerType { flags: PeerFlags { smi: flag_set(v[0]) }, description },
            ),
            Err(e) => Err(e),
        }
    } else if code == DataItemType::HEARTBEAT_INTERVAL {
        let ms = wire::from_be(v);
        match heartbeat_refusal(ms) {
            Some(e) => Err(e),
            None => Ok(
                DataItemView::HeartbeatInterval(
                    Duration { nanos: (ms * Duration::NANOS_PER_MILLI) as u128 },
                ),
            ),
        }
    } else if code == DataItemType::EXTENSIONS_SUPPORTED {
        Ok(DataItemView::ExtensionsSupported(ids_of(v)))
    } else if code == DataItemType::MAC_ADDRESS {
        Ok(DataItemView::MacAddress(MacAddress::Eui48(array_of(v))))
    } else if code == DataItemType::IPV4_ADDRESS {
        Ok(
            DataItemView::Ipv4Address {
                add: flag_set(v[0]),
                addr: Ipv4Addr { octets: array_of(v.skip(1)) },
            },
        )
    } else if code == DataItemType::IPV6_ADDRESS {
        Ok(
            DataItemView::Ipv6Address {
                add: flag_set(v[0]),
                addr: Ipv6Addr { octets: array_of(v.skip(1)) },
            },
        )
    } else if code == DataItemType::IPV4_ATTACHED_SUBNET {
        if v[5] > 32 {
            Err(
                CodecErrorView::OutOfRange {
                    field: field::IPV4_ATTACHED_SUBNET_PREFIX@,
                    value: v[5] as u64,
                },
            )
        } else {
            Ok(
                DataItemView::Ipv4AttachedSubnet {
                    add: flag_set(v[0]),
                    subnet: Ipv4NetView {
                        addr: Ipv4Addr {
                            octets: array_of(subnet::network_octets(v.subrange(1, 5), v[5] as int)),
                        },
                        prefix_len: v[5],
                    },
                },
            )
        }
    } else if code == DataItemType::IPV6_ATTACHED_SUBNET {
        if v[17] > 128 {
            Err(
                CodecErrorView::OutOfRange {
                    field: field::IPV6_ATTACHED_SUBNET_PREFIX@,
                    value: v[17] as u64,
                },
            )
        } else {
            Ok(
                DataItemView::Ipv6AttachedSubnet {
                    add: flag_set(v[0]),
                    subnet: Ipv6NetView {
                        addr: Ipv6Addr {
                            octets: array_of(
                                subnet::network_octets(v.subrange(1, 17), v[17] as int),
                            ),
                        },
                        prefix_len: v[17],
                    },
                },
            )
        }
    } else if code == DataItemType::MAXIMUM_DATA_RATE_RECEIVE {
        Ok(DataItemView::MaxDataRateReceive(wire::from_be(v) as u64))
    } else if code == DataItemType::MAXIMUM_DATA_RATE_TRANSMIT {
        Ok(DataItemView::MaxDataRateTransmit(wire::from_be(v) as u64))
    } else if code == DataItemType::CURRENT_DATA_RATE_RECEIVE {
        Ok(DataItemView::CurrentDataRateReceive(wire::from_be(v) as u64))
    } else if code == DataItemType::CURRENT_DATA_RATE_TRANSMIT {
        Ok(DataItemView::CurrentDataRateTransmit(wire::from_be(v) as u64))
    } else if code == DataItemType::LATENCY {
        Ok(
            DataItemView::Latency(
                Duration { nanos: (wire::from_be(v) * Duration::NANOS_PER_MICRO) as u128 },
            ),
        )
    } else if code == DataItemType::RESOURCES {
        match percent_of(field::RESOURCES@, v) {
            Ok(pct) => Ok(DataItemView::Resources(pct)),
            Err(e) => Err(e),
        }
    } else if code == DataItemType::RELATIVE_LINK_QUALITY_RECEIVE {
        match percent_of(field::RLQ_RECEIVE@, v) {
            Ok(pct) => Ok(DataItemView::RelativeLinkQualityReceive(pct)),
            Err(e) => Err(e),
        }
    } else if code == DataItemType::RELATIVE_LINK_QUALITY_TRANSMIT {
        match percent_of(field::RLQ_TRANSMIT@, v) {
            Ok(pct) => Ok(DataItemView::RelativeLinkQualityTransmit(pct)),
            Err(e) => Err(e),
        }
    } else if code == DataItemType::MTU {
        Ok(DataItemView::Mtu(wire::from_be(v) as u16))
    } else {
        Ok(DataItemView::Unknown(RawDataItemView { type_id: kind, value: v }))
    }
}

impl RawDataItemView {
    /// What this data item says, or why it says nothing. A type id that is not
    /// known is no error.
    pub open spec fn meaning(self) -> Result<DataItemView, CodecErrorView> {
        match length_rule(self.type_id) {
            Some(rule) => if rule.permits(self.value.len()) {
                value_meaning(self.type_id, self.value)
            } else {
                Err(
                    CodecErrorView::InvalidDataItemLength {
                        kind: self.type_id,
                        expected: rule,
                        got: self.value.len(),
                    },
                )
            },
            None => Ok(DataItemView::Unknown(self)),
        }
    }
}

/// The first data item at the head of `octets` and what follows it, or why
/// there is none: a header of four octets, then as many as the header says.
pub open spec fn raw_at(octets: Seq<u8>) -> Result<(RawDataItemView, Seq<u8>), CodecErrorView> {
    if octets.len() < 4 {
        Err(CodecErrorView::Truncated { needed: 4, have: octets.len() })
    } else {
        let len = wire::from_be(octets.subrange(2, 4));
        let rest = octets.skip(4);
        if rest.len() < len {
            Err(CodecErrorView::Truncated { needed: len, have: rest.len() })
        } else {
            Ok(
                (
                    RawDataItemView {
                        type_id: DataItemType(wire::from_be(octets.take(2)) as u16),
                        value: rest.take(len as int),
                    },
                    rest.skip(len as int),
                ),
            )
        }
    }
}

/// The data items of a body, one behind the other, up to its last octet; the
/// first one that cannot be read decides the error.
pub open spec fn items_of(body: Seq<u8>) -> Result<Seq<DataItemView>, CodecErrorView>
    decreases body.len(),
{
    if body.len() == 0 {
        Ok(Seq::empty())
    } else {
        match raw_at(body) {
            Err(e) => Err(e),
            Ok((raw, rest)) => match raw.meaning() {
                Err(e) => Err(e),
                Ok(item) => match items_of(rest) {
                    Err(e) => Err(e),
                    Ok(items) => Ok(seq![item] + items),
                },
            },
        }
    }
}

/// The body that a list of data items makes.
pub open spec fn body_of(items: Seq<DataItemView>) -> Seq<u8>
    decreases items.len(),
{
    if items.len() == 0 {
        Seq::empty()
    } else {
        body_of(items.drop_last()) + items.last().encoding()
    }
}

/// The refusal of the first data item that has no wire form.
pub open spec fn first_refusal(items: Seq<DataItemView>) -> Option<CodecErrorView>
    decreases items.len(),
{
    if items.len() == 0 {
        None
    } else {
        match first_refusal(items.drop_last()) {
            Some(e) => Some(e),
            None => items.last().refusal(),
        }
    }
}

/// The body of a message or signal with the given data items, or why it has no
/// wire form; `name` is what an error calls a body that is too long.
pub open spec fn framed_body(items: Seq<DataItemView>, name: Seq<char>) -> Result<
    Seq<u8>,
    CodecErrorView,
> {
    match first_refusal(items) {
        Some(e) => Err(e),
        None => if body_of(items).len() > u16::MAX {
            Err(
                CodecErrorView::OutOfRange {
                    field: name,
                    value: reported(body_of(items).len(), u64::MAX as nat),
                },
            )
        } else {
            Ok(body_of(items))
        },
    }
}

/// The data items behind a header: `octets` begins with the two octets of the
/// body's length, and may be longer than the body.
pub open spec fn items_behind(octets: Seq<u8>) -> Result<Seq<DataItemView>, CodecErrorView> {
    let declared = wire::from_be(octets.take(2));
    let rest = octets.skip(2);
    if rest.len() < declared {
        Err(CodecErrorView::LengthMismatch { declared, remaining: rest.len() })
    } else {
        items_of(rest.take(declared as int))
    }
}

impl MessageView {
    /// The octets of this message, or why it has no wire form.
    pub open spec fn wire_form(self) -> Result<Seq<u8>, CodecErrorView> {
        match framed_body(self.data_items, field::MESSAGE_BODY_LENGTH@) {
            Err(e) => Err(e),
            Ok(body) => Ok(
                wire::be(self.message_type.0 as nat, 2) + wire::be(body.len(), 2) + body,
            ),
        }
    }

    /// The message at the head of `octets`, or why there is none.
    pub open spec fn read(octets: Seq<u8>) -> Result<MessageView, CodecErrorView> {
        if octets.len() < MESSAGE_HEADER_LEN {
            Err(
                CodecErrorView::Truncated {
                    needed: MESSAGE_HEADER_LEN as nat,
                    have: octets.len(),
                },
            )
        } else {
            match items_behind(octets.skip(2)) {
                Err(e) => Err(e),
                Ok(data_items) => Ok(
                    MessageView {
                        message_type: MessageType(wire::from_be(octets.take(2)) as u16),
                        data_items,
                    },
                ),
            }
        }
    }
}

impl SignalView {
    /// The octets of this signal, or why it has no wire form.
    pub open spec fn wire_form(self) -> Result<Seq<u8>, CodecErrorView> {
        match framed_body(self.data_items, field::SIGNAL_BODY_LENGTH@) {
            Err(e) => Err(e),
            Ok(body) => Ok(
                SIGNAL_PREFIX@ + wire::be(self.signal_type.0 as nat, 2) + wire::be(body.len(), 2)
                    + body,
            ),
        }
    }

    /// The signal at the head of `octets`, or why there is none.
    pub open spec fn read(octets: Seq<u8>) -> Result<SignalView, CodecErrorView> {
        if octets.len() < SIGNAL_HEADER_LEN {
            Err(
                CodecErrorView::Truncated { needed: SIGNAL_HEADER_LEN as nat, have: octets.len() },
            )
        } else if octets.take(4) != SIGNAL_PREFIX@ {
            Err(CodecErrorView::MissingSignalPrefix)
        } else {
            match items_behind(octets.skip(6)) {
                Err(e) => Err(e),
                Ok(data_items) => Ok(
                    SignalView {
                        signal_type: SignalType(wire::from_be(octets.subrange(4, 6)) as u16),
                        data_items,
                    },
                ),
            }
        }
    }
}

} // verus!
