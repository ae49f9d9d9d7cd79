//! What the functions that encode and decode give back, for every value and
//! every sequence of octets.

use vstd::prelude::*;
use bytes::{Bytes, BytesMut};
use crate::proto::addr::{Ipv4Addr, Ipv6Addr};
use crate::proto::buffer::{buffer_content, bytes_content};
use crate::proto::codec::{
    check_percent, decode_cp_flags, decode_peer_flags, encode_cp_flags, encode_peer_flags,
    ensure_len, expect_exact, u16_length,
};
use crate::proto::data_item::{ConnectionPointFlags, DataItem, PeerFlags, RawDataItem};
use crate::proto::error::{
    refused_octets, CodecError, CodecErrorView, ExpectedLen, ExpectedLenView,
};
use crate::proto::ids::{DataItemType, MessageType, SignalType};
use crate::proto::layout;
use crate::proto::mac::MacAddress;
use crate::proto::message::{Message, MessageView};
use crate::proto::signal::{Signal, SignalView};
use crate::proto::subnet;
use crate::proto::subnet::{Ipv4Net, Ipv6Net};
use crate::proto::text;

verus! {

/// A message is encoded as its wire form, or refused for the reason that it has
/// none; and decoded as what its octets say, or refused for the reason that they
/// say nothing.
pub proof fn law_messages_are_coded(
    message: Message,
    encoded: Result<BytesMut, CodecError>,
    octets: Bytes,
    decoded: Result<Message, CodecError>,
)
    requires
        call_ensures(Message::encode, (&message,), encoded),
        call_ensures(Message::decode, (octets,), decoded),
    ensures
        match encoded {
            Ok(b) => message@.wire_form() == Ok::<Seq<u8>, CodecErrorView>(buffer_content(b)),
            Err(e) => message@.wire_form() == Err::<Seq<u8>, CodecErrorView>(e@),
        },
        match decoded {
            Ok(m) => MessageView::read(bytes_content(octets)) == Ok::<MessageView, CodecErrorView>(
                m@,
            ),
            Err(e) => MessageView::read(bytes_content(octets)) == Err::<
                MessageView,
                CodecErrorView,
            >(e@),
        },
{
}

/// The same of signals.
pub proof fn law_signals_are_coded(
    signal: Signal,
    encoded: Result<BytesMut, CodecError>,
    octets: Bytes,
    decoded: Result<Signal, CodecError>,
)
    requires
        call_ensures(Signal::encode, (&signal,), encoded),
        call_ensures(Signal::decode, (octets,), decoded),
    ensures
        match encoded {
            Ok(b) => signal@.wire_form() == Ok::<Seq<u8>, CodecErrorView>(buffer_content(b)),
            Err(e) => signal@.wire_form() == Err::<Seq<u8>, CodecErrorView>(e@),
        },
        match decoded {
            Ok(s) => SignalView::read(bytes_content(octets)) == Ok::<SignalView, CodecErrorView>(
                s@,
            ),
            Err(e) => SignalView::read(bytes_content(octets)) == Err::<SignalView, CodecErrorView>(
                e@,
            ),
        },
{
}

/// A data item is decoded as what its octets say, or refused for the reason that
/// they say nothing; and knows its type.
pub proof fn law_data_items_are_decoded(
    raw: RawDataItem,
    decoded: Result<DataItem, CodecError>,
    item: DataItem,
    type_id: DataItemType,
)
    requires
        call_ensures(DataItem::decode, (raw,), decoded),
        call_ensures(DataItem::type_id, (&item,), type_id),
    ensures
        match decoded {
            Ok(i) => raw@.meaning() == Ok::<
                crate::proto::data_item::DataItemView,
                CodecErrorView,
            >(i@),
            Err(e) => raw@.meaning() == Err::<
                crate::proto::data_item::DataItemView,
                CodecErrorView,
            >(e@),
        },
        type_id == item@.type_id(),
        raw@.type_id == raw.type_id,
        raw@.value == bytes_content(raw.value),
{
}

/// A data item is appended to what a buffer holds, whole; one that is refused
/// leaves the buffer as it was.
pub proof fn law_data_items_are_appended(item: DataItem)
    ensures
        forall|out: &mut BytesMut, r: Result<(), CodecError>| #[trigger]
            call_ensures(DataItem::encode, (&item, out), r) ==> match r {
                Ok(_) => item@.refusal() is None && buffer_content(*final(out)) == buffer_content(
                    *out,
                ) + item@.encoding(),
                Err(e) => item@.refusal() == Some(e@) && buffer_content(*final(out))
                    == buffer_content(*out),
            },
{
}

/// A data item without a type is taken off the head of octets, and the rest is
/// left.
pub proof fn law_raw_data_items_are_taken_off()
    ensures
        forall|src: &mut Bytes, r: Result<RawDataItem, CodecError>| #[trigger]
            call_ensures(RawDataItem::decode, (src,), r) ==> match r {
                Ok(raw) => layout::raw_at(bytes_content(*src)) matches Ok(taken) && taken.0 == raw@
                    && taken.1 == bytes_content(*final(src)),
                Err(e) => layout::raw_at(bytes_content(*src)) matches Err(x) && x == e@,
            },
{
}

/// Every error is what it holds.
pub proof fn law_errors_say_what_they_hold(error: CodecError, length: ExpectedLen)
    ensures
        match error {
            CodecError::Truncated { needed, have } => error@ matches CodecErrorView::Truncated {
                needed: n,
                have: h,
            } && n == needed && h == have,
            CodecError::MissingSignalPrefix => error@ is MissingSignalPrefix,
            CodecError::LengthMismatch { declared, remaining } => error@ matches
                CodecErrorView::LengthMismatch { declared: d, remaining: r } && d == declared && r
                == remaining,
            CodecError::UnknownSignalType(t) => error@ == CodecErrorView::UnknownSignalType(t),
            CodecError::UnknownMessageType(t) => error@ == CodecErrorView::UnknownMessageType(t),
            CodecError::UnknownDataItemType(t) => error@ == CodecErrorView::UnknownDataItemType(t),
            CodecError::InvalidDataItemLength { kind, expected, got } => error@ matches
                CodecErrorView::InvalidDataItemLength { kind: k, expected: x, got: g } && k == kind
                && x == expected@ && g == got,
            CodecError::InvalidUtf8(e) => error@ matches CodecErrorView::InvalidUtf8 { octets }
                && octets == refused_octets(e),
            CodecError::OutOfRange { field, value } => error@ matches CodecErrorView::OutOfRange {
                field: f,
                value: v,
            } && f == field@ && v == value,
        },
        match length {
            ExpectedLen::Exact(n) => length@ == ExpectedLenView::Exact(n as nat),
            ExpectedLen::AtLeast(n) => length@ == ExpectedLenView::AtLeast(n as nat),
            ExpectedLen::OneOf(ns) => length@ == ExpectedLenView::OneOf(ns@),
            ExpectedLen::Multiple(n) => length@ == ExpectedLenView::Multiple(n as nat),
        },
{
}

/// Flags are the lowest bit of their octet; the others are written as zero and
/// not read.
pub proof fn law_flags(
    cp: ConnectionPointFlags,
    peer: PeerFlags,
    octet: u8,
    cp_octet: u8,
    peer_octet: u8,
    cp_read: ConnectionPointFlags,
    peer_read: PeerFlags,
)
    requires
        call_ensures(encode_cp_flags, (cp,), cp_octet),
        call_ensures(encode_peer_flags, (peer,), peer_octet),
        call_ensures(decode_cp_flags, (octet,), cp_read),
        call_ensures(decode_peer_flags, (octet,), peer_read),
    ensures
        cp_octet == if cp.use_tls {
            1u8
        } else {
            0u8
        },
        peer_octet == if peer.smi {
            1u8
        } else {
            0u8
        },
        cp_read.use_tls == (octet % 2 == 1),
        peer_read.smi == (octet % 2 == 1),
{
}

/// The checks that decoding makes: enough octets, the very length, at most a
/// hundred, a length that 16 bits can count.
pub proof fn law_checks(
    have: usize,
    needed: usize,
    kind: DataItemType,
    field: &'static str,
    pct: u8,
    enough: Result<(), CodecError>,
    exact: Result<(), CodecError>,
    percent: Result<(), CodecError>,
    length: Result<u16, CodecError>,
)
    requires
        call_ensures(ensure_len, (have, needed), enough),
        call_ensures(expect_exact, (kind, have, needed), exact),
        call_ensures(check_percent, (field, pct), percent),
        call_ensures(u16_length, (field, have), length),
    ensures
        match enough {
            Ok(_) => have >= needed,
            Err(e) => have < needed && e@ == (CodecErrorView::Truncated {
                needed: needed as nat,
                have: have as nat,
            }),
        },
        match exact {
            Ok(_) => have == needed,
            Err(e) => have != needed && e@ == (CodecErrorView::InvalidDataItemLength {
                kind,
                expected: ExpectedLenView::Exact(needed as nat),
                got: have as nat,
            }),
        },
        match percent {
            Ok(_) => pct <= 100,
            Err(e) => pct > 100 && e@ == (CodecErrorView::OutOfRange {
                field: field@,
                value: pct as u64,
            }),
        },
        match length {
            Ok(n) => n == have,
            Err(e) => have > 0xffff && e@ == (CodecErrorView::OutOfRange {
                field: field@,
                value: have as u64,
            }),
        },
{
}

/// A message or signal begins without data items and gains them one behind the
/// other.
pub proof fn law_messages_are_built(
    message_type: MessageType,
    signal_type: SignalType,
    message: Message,
    signal: Signal,
    item: DataItem,
    begun: Message,
    grown: Message,
    begun_signal: Signal,
    grown_signal: Signal,
)
    requires
        call_ensures(Message::new, (message_type,), begun),
        call_ensures(Message::with_item, (message, item), grown),
        call_ensures(Signal::new, (signal_type,), begun_signal),
        call_ensures(Signal::with_item, (signal, item), grown_signal),
    ensures
        begun@.message_type == message_type,
        begun@.data_items.len() == 0,
        grown@.message_type == message@.message_type,
        grown@.data_items == message@.data_items.push(item@),
        begun_signal@.signal_type == signal_type,
        begun_signal@.data_items.len() == 0,
        grown_signal@.signal_type == signal@.signal_type,
        grown_signal@.data_items == signal@.data_items.push(item@),
{
}

/// A subnet has a prefix no longer than its address, holds the address that it
/// was given, and clears host bits when it is asked for its network.
pub proof fn law_subnets(
    v4: Ipv4Addr,
    v6: Ipv6Addr,
    prefix: u8,
    net4: Option<Ipv4Net>,
    net6: Option<Ipv6Net>,
)
    requires
        call_ensures(Ipv4Net::new, (v4, prefix), net4),
        call_ensures(Ipv6Net::new, (v6, prefix), net6),
    ensures
        net4 is Some <==> prefix <= 32,
        net4 matches Some(net) ==> net@.addr == v4 && net@.prefix_len == prefix && net@.network()
            == subnet::network_octets(v4.octets@, prefix as int),
        net6 is Some <==> prefix <= 128,
        net6 matches Some(net) ==> net@.addr == v6 && net@.prefix_len == prefix && net@.network()
            == subnet::network_octets(v6.octets@, prefix as int),
{
}

/// What a subnet says of itself.
pub proof fn law_subnets_say(
    net4: Ipv4Net,
    net6: Ipv6Net,
    addr4: Ipv4Addr,
    addr6: Ipv6Addr,
    network4: Ipv4Addr,
    network6: Ipv6Addr,
    truncated4: Ipv4Net,
    truncated6: Ipv6Net,
    prefix4: u8,
    prefix6: u8,
)
    requires
        call_ensures(Ipv4Net::addr, (&net4,), addr4),
        call_ensures(Ipv6Net::addr, (&net6,), addr6),
        call_ensures(Ipv4Net::network, (&net4,), network4),
        call_ensures(Ipv6Net::network, (&net6,), network6),
        call_ensures(Ipv4Net::trunc, (&net4,), truncated4),
        call_ensures(Ipv6Net::trunc, (&net6,), truncated6),
        call_ensures(Ipv4Net::prefix_len, (&net4,), prefix4),
        call_ensures(Ipv6Net::prefix_len, (&net6,), prefix6),
    ensures
        addr4 == net4@.addr,
        addr6 == net6@.addr,
        network4.octets@ == subnet::network_octets(net4@.addr.octets@, net4@.prefix_len as int),
        network6.octets@ == subnet::network_octets(net6@.addr.octets@, net6@.prefix_len as int),
        truncated4@.addr.octets@ == network4.octets@,
        truncated6@.addr.octets@ == network6.octets@,
        truncated4@.prefix_len == prefix4,
        truncated6@.prefix_len == prefix6,
        prefix4 == net4@.prefix_len,
        prefix6 == net6@.prefix_len,
{
}

/// An address holds the octets that it was given, and says so.
pub proof fn law_addresses(
    short: [u8; 6],
    long: [u8; 8],
    mac: MacAddress,
    of_short: MacAddress,
    of_long: MacAddress,
    octets: &[u8],
    len: usize,
    is_short: bool,
    is_long: bool,
    said: String,
)
    requires
        call_ensures(MacAddress::new_eui48, (short,), of_short),
        call_ensures(MacAddress::new_eui64, (long,), of_long),
        call_ensures(MacAddress::as_bytes, (&mac,), octets),
        call_ensures(MacAddress::len, (&mac,), len),
        call_ensures(MacAddress::is_eui48, (&mac,), is_short),
        call_ensures(MacAddress::is_eui64, (&mac,), is_long),
        call_ensures(MacAddress::to_text, (&mac,), said),
    ensures
        of_short == MacAddress::Eui48(short),
        of_long == MacAddress::Eui64(long),
        octets@ == mac.octets(),
        len == octets@.len(),
        is_short <==> len == 6,
        is_long <==> len == 8,
        said@ == text::hex_text(octets@),
{
}

} // verus!
