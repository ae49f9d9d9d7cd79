//! What holds of encoding and decoding together.

use vstd::prelude::*;
use vstd::utf8;
use crate::proto::data_item::{DataItemView, RawDataItemView};
use crate::proto::duration::Duration;
use crate::proto::error::CodecErrorView;
use crate::proto::ids::ExtensionId;
use crate::proto::layout;
use crate::proto::mac::MacAddress;
use crate::proto::message::MessageView;
use crate::proto::signal::SignalView;
use crate::proto::subnet;
use crate::proto::wire;

verus! {

impl DataItemView {
    /// Whether the wire form says all that this data item says. What it cannot
    /// say: an EUI-64 address, an unknown data item under a known type id,
    /// subnets with host bits or an impossible prefix, fractions of a
    /// millisecond of a heartbeat interval or of a microsecond of a latency.
    pub open spec fn exact(self) -> bool {
        match self {
            DataItemView::MacAddress(mac) => mac is Eui48,
            DataItemView::Unknown(raw) => layout::length_rule(raw.type_id) is None,
            DataItemView::Ipv4AttachedSubnet { subnet, .. } => subnet.valid() && subnet.canonical(),
            DataItemView::Ipv6AttachedSubnet { subnet, .. } => subnet.valid() && subnet.canonical(),
            DataItemView::HeartbeatInterval(d) => d.nanos % Duration::NANOS_PER_MILLI == 0,
            DataItemView::Latency(d) => d.nanos % Duration::NANOS_PER_MICRO == 0,
            _ => true,
        }
    }

    /// The untyped form of this data item.
    pub open spec fn raw(self) -> RawDataItemView {
        RawDataItemView { type_id: self.type_id(), value: self.value() }
    }
}

/// Two octets read back give the number that they were written from.
proof fn lemma_two_octets(n: u16)
    ensures
        wire::be(n as nat, 2).len() == 2,
        wire::from_be(wire::be(n as nat, 2)) == n,
{
    wire::lemma_widths();
    wire::lemma_be_len(n as nat, 2);
    wire::lemma_from_be_of_be(n as nat, 2);
}

/// Each extension id has its two octets at twice its position.
pub(crate) proof fn lemma_id_position(ids: Seq<ExtensionId>, i: int)
    requires
        0 <= i < ids.len(),
    ensures
        layout::id_octets(ids).len() == 2 * ids.len(),
        layout::id_octets(ids).subrange(2 * i, 2 * i + 2) == wire::be(ids[i].0 as nat, 2),
    decreases ids.len(),
{
    let octets = layout::id_octets(ids);
    let front = layout::id_octets(ids.drop_last());
    lemma_two_octets(ids.last().0);
    layout::lemma_id_octets_len(ids.drop_last());
    if i < ids.len() - 1 {
        lemma_id_position(ids.drop_last(), i);
        assert(octets.subrange(2 * i, 2 * i + 2) =~= front.subrange(2 * i, 2 * i + 2));
    } else {
        assert(octets.subrange(2 * i, 2 * i + 2) =~= wire::be(ids.last().0 as nat, 2));
    }
}

/// Reading extension ids back gives those that were written.
proof fn lemma_ids_roundtrip(ids: Seq<ExtensionId>)
    ensures
        layout::id_octets(ids).len() == 2 * ids.len(),
        layout::ids_of(layout::id_octets(ids)) == ids,
{
    let octets = layout::id_octets(ids);
    layout::lemma_id_octets_len(ids);
    assert forall|i: int| 0 <= i < ids.len() implies #[trigger] layout::ids_of(octets)[i] == ids[i] by {
        lemma_id_position(ids, i);
        lemma_two_octets(ids[i].0);
    }
    assert(layout::ids_of(octets) =~= ids);
}

/// What is written of text can be read.
proof fn lemma_text_roundtrip(lead: u8, text: Seq<char>)
    ensures
        layout::text_of((seq![lead] + utf8::encode_utf8(text)).skip(1)) == Ok::<
            Seq<char>,
            CodecErrorView,
        >(text),
{
    utf8::encode_utf8_valid_utf8(text);
    utf8::encode_utf8_decode_utf8(text);
    assert((seq![lead] + utf8::encode_utf8(text)).skip(1) =~= utf8::encode_utf8(text));
}

/// What is written of an address and its port can be read.
proof fn lemma_endpoint_roundtrip<const N: usize>(lead: u8, octets: [u8; N], port: Option<u16>)
    ensures
        ({
            let v = seq![lead] + octets@ + layout::port_octets(port);
            &&& v[0] == lead
            &&& v.len() == N + if port is Some {
                3int
            } else {
                1int
            }
            &&& layout::array_of::<N>(v.subrange(1, N + 1)) == octets
            &&& layout::port_of(v, N as int) == port
        }),
{
    let v = seq![lead] + octets@ + layout::port_octets(port);
    layout::lemma_array_of(octets);
    assert(v.subrange(1, N + 1) =~= octets@);
    if let Some(p) = port {
        lemma_two_octets(p);
        assert(v.skip(N + 1) =~= wire::be(p as nat, 2));
    }
}

/// What is written of a flag and an address can be read.
proof fn lemma_flagged_roundtrip<const N: usize>(lead: u8, octets: [u8; N])
    ensures
        ({
            let v = seq![lead] + octets@;
            &&& v[0] == lead
            &&& v.len() == N + 1
            &&& layout::array_of::<N>(v.skip(1)) == octets
        }),
{
    layout::lemma_array_of(octets);
    assert((seq![lead] + octets@).skip(1) =~= octets@);
}

/// What is written of a flag, an address without host bits and a prefix can be
/// read.
proof fn lemma_subnet_roundtrip<const N: usize>(lead: u8, octets: [u8; N], prefix: u8)
    requires
        subnet::network_octets(octets@, prefix as int) == octets@,
    ensures
        ({
            let v = (seq![lead] + subnet::network_octets(octets@, prefix as int)).push(prefix);
            &&& v[0] == lead
            &&& v.len() == N + 2
            &&& v[N + 1] == prefix
            &&& layout::array_of::<N>(
                subnet::network_octets(v.subrange(1, N + 1), prefix as int),
            ) == octets
        }),
{
    layout::lemma_array_of(octets);
    let v = (seq![lead] + octets@).push(prefix);
    assert(v.subrange(1, N + 1) =~= octets@);
}

/// Decoding what was encoded gives the data item back, for every data item
/// that has a wire form which says all of it.
pub proof fn law_item_roundtrip(item: DataItemView)
    requires
        item.refusal() is None,
        item.exact(),
    ensures
        item.raw().meaning() == Ok::<DataItemView, CodecErrorView>(item),
{
    wire::lemma_widths();
    assert(!layout::flag_set(layout::flag_octet(false)));
    assert(layout::flag_set(layout::flag_octet(true)));
    match item {
        DataItemView::Status { code, text } => lemma_text_roundtrip(code.0, text),
        DataItemView::PeerType { flags, description } => lemma_text_roundtrip(
            layout::flag_octet(flags.smi),
            description,
        ),
        DataItemView::Ipv4ConnectionPoint { flags, addr, port } => {
            lemma_endpoint_roundtrip(layout::flag_octet(flags.use_tls), addr.octets, port);
            layout::lemma_one_of(
                seq![5usize, 7],
                if port is Some {
                    1
                } else {
                    0
                },
            );
        },
        DataItemView::Ipv6ConnectionPoint { flags, addr, port } => {
            lemma_endpoint_roundtrip(layout::flag_octet(flags.use_tls), addr.octets, port);
            layout::lemma_one_of(
                seq![17usize, 19],
                if port is Some {
                    1
                } else {
                    0
                },
            );
        },
        DataItemView::HeartbeatInterval(d) => {
            wire::lemma_be_len(layout::millis(d), 4);
            wire::lemma_from_be_of_be(layout::millis(d), 4);
        },
        DataItemView::ExtensionsSupported(ids) => lemma_ids_roundtrip(ids),
        DataItemView::MacAddress(mac) => {
            if let MacAddress::Eui48(octets) = mac {
                layout::lemma_array_of(octets);
            }
        },
        DataItemView::Ipv4Address { add, addr } => lemma_flagged_roundtrip(
            layout::flag_octet(add),
            addr.octets,
        ),
        DataItemView::Ipv6Address { add, addr } => lemma_flagged_roundtrip(
            layout::flag_octet(add),
            addr.octets,
        ),
        DataItemView::Ipv4AttachedSubnet { add, subnet } => lemma_subnet_roundtrip(
            layout::flag_octet(add),
            subnet.addr.octets,
            subnet.prefix_len,
        ),
        DataItemView::Ipv6AttachedSubnet { add, subnet } => lemma_subnet_roundtrip(
            layout::flag_octet(add),
            subnet.addr.octets,
            subnet.prefix_len,
        ),
        DataItemView::MaxDataRateReceive(bps) => {
            wire::lemma_be_len(bps as nat, 8);
            wire::lemma_from_be_of_be(bps as nat, 8);
        },
        DataItemView::MaxDataRateTransmit(bps) => {
            wire::lemma_be_len(bps as nat, 8);
            wire::lemma_from_be_of_be(bps as nat, 8);
        },
        DataItemView::CurrentDataRateReceive(bps) => {
            wire::lemma_be_len(bps as nat, 8);
            wire::lemma_from_be_of_be(bps as nat, 8);
        },
        DataItemView::CurrentDataRateTransmit(bps) => {
            wire::lemma_be_len(bps as nat, 8);
            wire::lemma_from_be_of_be(bps as nat, 8);
        },
        DataItemView::Latency(d) => {
            wire::lemma_be_len(layout::micros(d), 8);
            wire::lemma_from_be_of_be(layout::micros(d), 8);
        },
        DataItemView::Mtu(mtu) => lemma_two_octets(mtu),
        _ => {},
    }
}

/// A data item is read off the head of what it was written in front of, and
/// leaves the rest.
pub proof fn law_item_framing(item: DataItemView, rest: Seq<u8>)
    requires
        item.value().len() <= u16::MAX,
    ensures
        layout::raw_at(item.encoding() + rest) == Ok::<(RawDataItemView, Seq<u8>), CodecErrorView>(
            (item.raw(), rest),
        ),
{
    let octets = item.encoding() + rest;
    let len = item.value().len();
    lemma_two_octets(item.type_id().0);
    lemma_two_octets(len as u16);
    assert(octets.take(2) =~= wire::be(item.type_id().0 as nat, 2));
    assert(octets.subrange(2, 4) =~= wire::be(len, 2));
    assert(octets.skip(4).take(len as int) =~= item.value());
    assert(octets.skip(4).skip(len as int) =~= rest);
}

/// The body of a list begins with its first data item.
proof fn lemma_body_of_first(items: Seq<DataItemView>)
    requires
        items.len() > 0,
    ensures
        layout::body_of(items) == items[0].encoding() + layout::body_of(items.drop_first()),
    decreases items.len(),
{
    if items.len() == 1 {
        assert(items.drop_last() =~= Seq::<DataItemView>::empty());
        assert(items.drop_first() =~= Seq::<DataItemView>::empty());
        assert(layout::body_of(items) =~= items[0].encoding() + layout::body_of(
            items.drop_first(),
        ));
    } else {
        lemma_body_of_first(items.drop_last());
        assert(items.drop_last().drop_first() =~= items.drop_first().drop_last());
        assert(layout::body_of(items) =~= items[0].encoding() + layout::body_of(
            items.drop_first(),
        ));
    }
}

/// Where a list as a whole is not refused, none of its data items is.
proof fn lemma_none_refused(items: Seq<DataItemView>)
    requires
        layout::first_refusal(items) is None,
    ensures
        forall|i: int| 0 <= i < items.len() ==> (#[trigger] items[i]).refusal() is None,
    decreases items.len(),
{
    if items.len() > 0 {
        lemma_none_refused(items.drop_last());
        assert forall|i: int| 0 <= i < items.len() implies (#[trigger] items[i]).refusal() is None by {
            if i < items.len() - 1 {
                assert(items.drop_last()[i] == items[i]);
            }
        }
    }
}

/// One data item off the head, then the others.
proof fn lemma_items_step(
    body: Seq<u8>,
    raw: RawDataItemView,
    rest: Seq<u8>,
    item: DataItemView,
    items: Seq<DataItemView>,
)
    requires
        body.len() > 0,
        layout::raw_at(body) == Ok::<(RawDataItemView, Seq<u8>), CodecErrorView>((raw, rest)),
        raw.meaning() == Ok::<DataItemView, CodecErrorView>(item),
        layout::items_of(rest) == Ok::<Seq<DataItemView>, CodecErrorView>(items),
    ensures
        layout::items_of(body) == Ok::<Seq<DataItemView>, CodecErrorView>(seq![item] + items),
{
}

/// Whether a data item has a wire form which says all of it.
#[verifier::opaque]
spec fn sendable(item: DataItemView) -> bool {
    item.refusal() is None && item.exact()
}

/// A data item that can be sent is read off the head of what it was written in
/// front of, and its encoding is not empty.
proof fn lemma_sendable(item: DataItemView, rest: Seq<u8>)
    requires
        sendable(item),
    ensures
        layout::raw_at(item.encoding() + rest) == Ok::<(RawDataItemView, Seq<u8>), CodecErrorView>(
            (item.raw(), rest),
        ),
        item.raw().meaning() == Ok::<DataItemView, CodecErrorView>(item),
        item.encoding().len() > 0,
{
    reveal(sendable);
    law_item_framing(item, rest);
    law_item_roundtrip(item);
    wire::lemma_be_len(item.type_id().0 as nat, 2);
}

/// Reading the body that a list of data items makes gives the list back, in
/// its order.
proof fn lemma_items_roundtrip(items: Seq<DataItemView>)
    requires
        forall|i: int| 0 <= i < items.len() ==> #[trigger] sendable(items[i]),
    ensures
        layout::items_of(layout::body_of(items)) == Ok::<Seq<DataItemView>, CodecErrorView>(items),
    decreases items.len(),
{
    if items.len() > 0 {
        let first = items[0];
        let rest = items.drop_first();
        assert forall|i: int| 0 <= i < rest.len() implies #[trigger] sendable(rest[i]) by {
            assert(sendable(items[i + 1]));
        }
        lemma_items_roundtrip(rest);
        lemma_body_of_first(items);
        assert(sendable(items[0]));
        lemma_sendable(first, layout::body_of(rest));
        lemma_items_step(
            layout::body_of(items),
            first.raw(),
            layout::body_of(rest),
            first,
            rest,
        );
        assert(seq![first] + rest =~= items);
    } else {
        assert(items =~= Seq::<DataItemView>::empty());
    }
}

/// What stands behind a length is read as the data items that were written
/// there, whatever follows them.
proof fn lemma_behind_roundtrip(items: Seq<DataItemView>, name: Seq<char>, trailing: Seq<u8>)
    requires
        layout::framed_body(items, name) is Ok,
        forall|i: int| 0 <= i < items.len() ==> (#[trigger] items[i]).exact(),
    ensures
        layout::items_behind(
            wire::be(layout::body_of(items).len(), 2) + layout::body_of(items) + trailing,
        ) == Ok::<Seq<DataItemView>, CodecErrorView>(items),
{
    let body = layout::body_of(items);
    let octets = wire::be(body.len(), 2) + body + trailing;
    lemma_none_refused(items);
    assert forall|i: int| 0 <= i < items.len() implies #[trigger] sendable(items[i]) by {
        reveal(sendable);
        assert(items[i].refusal() is None && items[i].exact());
    }
    lemma_items_roundtrip(items);
    lemma_two_octets(body.len() as u16);
    assert(octets.take(2) =~= wire::be(body.len(), 2));
    assert(octets.skip(2).take(body.len() as int) =~= body);
}

/// Decoding an encoded message gives the message back, its data items in
/// order, whatever octets follow it.
pub proof fn law_message_roundtrip(message: MessageView, trailing: Seq<u8>)
    requires
        message.wire_form() is Ok,
        forall|i: int|
            0 <= i < message.data_items.len() ==> (#[trigger] message.data_items[i]).exact(),
    ensures
        MessageView::read(message.wire_form()->Ok_0 + trailing) == Ok::<
            MessageView,
            CodecErrorView,
        >(message),
{
    let octets = message.wire_form()->Ok_0 + trailing;
    let body = layout::body_of(message.data_items);
    lemma_two_octets(message.message_type.0);
    lemma_two_octets(body.len() as u16);
    lemma_behind_roundtrip(
        message.data_items,
        crate::proto::field::MESSAGE_BODY_LENGTH@,
        trailing,
    );
    assert(octets.take(2) =~= wire::be(message.message_type.0 as nat, 2));
    assert(octets.skip(2) =~= wire::be(body.len(), 2) + body + trailing);
}

/// Decoding an encoded signal gives the signal back, its data items in order,
/// whatever octets follow it.
pub proof fn law_signal_roundtrip(signal: SignalView, trailing: Seq<u8>)
    requires
        signal.wire_form() is Ok,
        forall|i: int|
            0 <= i < signal.data_items.len() ==> (#[trigger] signal.data_items[i]).exact(),
    ensures
        SignalView::read(signal.wire_form()->Ok_0 + trailing) == Ok::<SignalView, CodecErrorView>(
            signal,
        ),
{
    let octets = signal.wire_form()->Ok_0 + trailing;
    let body = layout::body_of(signal.data_items);
    lemma_two_octets(signal.signal_type.0);
    lemma_two_octets(body.len() as u16);
    lemma_behind_roundtrip(signal.data_items, crate::proto::field::SIGNAL_BODY_LENGTH@, trailing);
    assert(octets.take(4) =~= layout::SIGNAL_PREFIX@);
    assert(octets.subrange(4, 6) =~= wire::be(signal.signal_type.0 as nat, 2));
    assert(octets.skip(6) =~= wire::be(body.len(), 2) + body + trailing);
}

/// A data item of a type that is not known is never an error, whatever octets
/// it holds.
pub proof fn law_unknown_types_pass(raw: RawDataItemView)
    requires
        layout::length_rule(raw.type_id) is None,
    ensures
        raw.meaning() == Ok::<DataItemView, CodecErrorView>(DataItemView::Unknown(raw)),
{
}

/// Octets read as extension ids and written again are the same octets.
proof fn lemma_id_octets_roundtrip(octets: Seq<u8>)
    requires
        octets.len() % 2 == 0,
    ensures
        layout::id_octets(layout::ids_of(octets)) == octets,
    decreases octets.len(),
{
    let ids = layout::ids_of(octets);
    if octets.len() > 0 {
        let front = octets.take(octets.len() - 2);
        lemma_id_octets_roundtrip(front);
        assert forall|i: int| 0 <= i < ids.len() - 1 implies #[trigger] ids.drop_last()[i]
            == layout::ids_of(front)[i] by {
            assert(octets.subrange(2 * i, 2 * i + 2) =~= front.subrange(2 * i, 2 * i + 2));
        }
        assert(ids.drop_last() =~= layout::ids_of(front));
        let i = ids.len() - 1;
        let last = octets.subrange(2 * i, 2 * i + 2);
        wire::lemma_widths();
        wire::lemma_be_of_from_be(last);
        assert(octets =~= front + last);
    } else {
        assert(octets =~= Seq::<u8>::empty());
    }
}

/// Every sequence of the right length is the elements of an array.
proof fn lemma_array_exists<const N: usize>(s: Seq<u8>, n: nat) -> (a: [u8; N])
    requires
        n <= N,
        s.len() == N,
    ensures
        forall|i: int| 0 <= i < n ==> a@[i] == s[i],
    decreases n,
{
    if n == 0 {
        arbitrary()
    } else {
        let front = lemma_array_exists::<N>(s, (n - 1) as nat);
        vstd::array::spec_array_update(front, n - 1, s[n - 1])
    }
}

/// The array of a sequence of the right length has its elements.
pub(crate) proof fn lemma_array_of_seq<const N: usize>(s: Seq<u8>)
    requires
        s.len() == N,
    ensures
        layout::array_of::<N>(s)@ == s,
{
    let a = lemma_array_exists::<N>(s, N as nat);
    assert(a@ =~= s);
}

/// What was decoded keeps its type id, and where its value has a length that a
/// header can declare, it has a wire form that says all of it: nothing that a
/// peer sends is held in a way that encoding it again would change.
pub proof fn law_decoded_is_exact(raw: RawDataItemView)
    requires
        raw.meaning() is Ok,
    ensures
        raw.meaning()->Ok_0.type_id() == raw.type_id,
        raw.value.len() <= u16::MAX ==> raw.meaning()->Ok_0.exact(),
        raw.value.len() <= u16::MAX ==> raw.meaning()->Ok_0.refusal() is None,
{
    let item = raw.meaning()->Ok_0;
    let v = raw.value;
    wire::lemma_widths();
    wire::lemma_be_of_from_be(v);
    match item {
        DataItemView::Status { .. } => utf8::decode_utf8_encode_utf8(v.skip(1)),
        DataItemView::PeerType { .. } => utf8::decode_utf8_encode_utf8(v.skip(1)),
        DataItemView::Ipv4ConnectionPoint { port, .. } => {
            if let Some(p) = port {
                wire::lemma_be_len(p as nat, 2);
            }
        },
        DataItemView::Ipv6ConnectionPoint { port, .. } => {
            if let Some(p) = port {
                wire::lemma_be_len(p as nat, 2);
            }
        },
        DataItemView::ExtensionsSupported(_) => lemma_id_octets_roundtrip(v),
        DataItemView::Ipv4AttachedSubnet { .. } => {
            let network = subnet::network_octets(v.subrange(1, 5), v[5] as int);
            lemma_array_of_seq::<4>(network);
            subnet::lemma_network_idempotent(v.subrange(1, 5), v[5] as int);
        },
        DataItemView::Ipv6AttachedSubnet { .. } => {
            let network = subnet::network_octets(v.subrange(1, 17), v[17] as int);
            lemma_array_of_seq::<16>(network);
            subnet::lemma_network_idempotent(v.subrange(1, 17), v[17] as int);
        },
        DataItemView::HeartbeatInterval(d) => {
            wire::lemma_be_len(layout::millis(d), 4);
        },
        DataItemView::Latency(d) => {
            wire::lemma_be_len(layout::micros(d), 8);
        },
        DataItemView::MaxDataRateReceive(bps) => wire::lemma_be_len(bps as nat, 8),
        DataItemView::MaxDataRateTransmit(bps) => wire::lemma_be_len(bps as nat, 8),
        DataItemView::CurrentDataRateReceive(bps) => wire::lemma_be_len(bps as nat, 8),
        DataItemView::CurrentDataRateTransmit(bps) => wire::lemma_be_len(bps as nat, 8),
        DataItemView::Mtu(mtu) => wire::lemma_be_len(mtu as nat, 2),
        _ => {},
    }
}

/// Encoding what was decoded and decoding it again gives the same data item,
/// also where the first octets were not canonical.
pub proof fn law_decode_encode_decode(raw: RawDataItemView)
    requires
        raw.meaning() is Ok,
        raw.value.len() <= u16::MAX,
    ensures
        raw.meaning()->Ok_0.raw().meaning() == raw.meaning(),
{
    law_decoded_is_exact(raw);
    law_item_roundtrip(raw.meaning()->Ok_0);
}

} // verus!
