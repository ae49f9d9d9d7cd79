//! The octets of data items, messages and signals, one by one.
//!
//! Reading back what was written is not enough: the peer is another
//! implementation. What stands here are the assigned numbers and the octets
//! themselves.

use vstd::prelude::*;
use vstd::utf8;
use crate::proto::data_item::{DataItemView, RawDataItemView};
use crate::proto::duration::Duration;
use crate::proto::error::{CodecErrorView, ExpectedLenView};
use crate::proto::ids::{DataItemType, ExtensionId};
use crate::proto::laws;
use crate::proto::layout;
use crate::proto::mac::MacAddress;
use crate::proto::message::MessageView;
use crate::proto::signal::SignalView;
use crate::proto::subnet;
use crate::proto::wire;

verus! {

/// Four octets, most significant first.
proof fn lemma_from_be_four(s: Seq<u8>)
    requires
        s.len() == 4,
    ensures
        wire::from_be(s) == s[0] * 0x100_0000 + s[1] * 0x1_0000 + s[2] * 0x100 + s[3],
{
    reveal_with_fuel(wire::from_be, 5);
    let a = s.drop_last();
    let b = a.drop_last();
    assert(a.last() == s[2]);
    assert(b.last() == s[1]);
    assert(b.drop_last().last() == s[0]);
}

/// Eight octets, most significant first.
proof fn lemma_from_be_eight(s: Seq<u8>)
    requires
        s.len() == 8,
    ensures
        wire::from_be(s) == s[0] * 0x100_0000_0000_0000 + s[1] * 0x1_0000_0000_0000 + s[2]
            * 0x100_0000_0000 + s[3] * 0x1_0000_0000 + s[4] * 0x100_0000 + s[5] * 0x1_0000 + s[6]
            * 0x100 + s[7],
{
    reveal_with_fuel(wire::from_be, 5);
    let a = s.drop_last();
    let b = a.drop_last();
    let c = b.drop_last();
    let high = c.drop_last();
    assert(a.last() == s[6]);
    assert(b.last() == s[5]);
    assert(c.last() == s[4]);
    lemma_from_be_four(high);
    assert(high =~= s.take(4));
    assert(wire::from_be(c) == wire::from_be(high) * 256 + s[4]);
    assert(wire::from_be(b) == wire::from_be(c) * 256 + s[5]);
    assert(wire::from_be(a) == wire::from_be(b) * 256 + s[6]);
    assert(wire::from_be(s) == wire::from_be(a) * 256 + s[7]);
}

proof fn lemma_two(n: nat)
    requires
        n <= 0xffff,
    ensures
        wire::be(n, 2).len() == 2,
        wire::be(n, 2)[0] * 256 + wire::be(n, 2)[1] == n,
{
    wire::lemma_widths();
    wire::lemma_be_len(n, 2);
    wire::lemma_from_be_of_be(n, 2);
    wire::lemma_from_be_two(wire::be(n, 2));
}

/// A number in two, four or eight octets has its most significant octet first.
pub proof fn law_numbers_are_big_endian(two: u16, four: u32, eight: u64)
    ensures
        ({
            let s = wire::be(two as nat, 2);
            s.len() == 2 && s[0] * 0x100 + s[1] == two
        }),
        ({
            let s = wire::be(four as nat, 4);
            s.len() == 4 && s[0] * 0x100_0000 + s[1] * 0x1_0000 + s[2] * 0x100 + s[3] == four
        }),
        ({
            let s = wire::be(eight as nat, 8);
            s.len() == 8 && s[0] * 0x100_0000_0000_0000 + s[1] * 0x1_0000_0000_0000 + s[2]
                * 0x100_0000_0000 + s[3] * 0x1_0000_0000 + s[4] * 0x100_0000 + s[5] * 0x1_0000
                + s[6] * 0x100 + s[7] == eight
        }),
{
    lemma_two(two as nat);
    wire::lemma_widths();
    wire::lemma_be_len(four as nat, 4);
    wire::lemma_from_be_of_be(four as nat, 4);
    lemma_from_be_four(wire::be(four as nat, 4));
    wire::lemma_be_len(eight as nat, 8);
    wire::lemma_from_be_of_be(eight as nat, 8);
    lemma_from_be_eight(wire::be(eight as nat, 8));
}

/// Every data item goes under its assigned number.
pub proof fn law_data_item_numbers(item: DataItemView)
    ensures
        match item {
            DataItemView::Status { .. } => item.type_id().0 == 1,
            DataItemView::Ipv4ConnectionPoint { .. } => item.type_id().0 == 2,
            DataItemView::Ipv6ConnectionPoint { .. } => item.type_id().0 == 3,
            DataItemView::PeerType { .. } => item.type_id().0 == 4,
            DataItemView::HeartbeatInterval(_) => item.type_id().0 == 5,
            DataItemView::ExtensionsSupported(_) => item.type_id().0 == 6,
            DataItemView::MacAddress(_) => item.type_id().0 == 7,
            DataItemView::Ipv4Address { .. } => item.type_id().0 == 8,
            DataItemView::Ipv6Address { .. } => item.type_id().0 == 9,
            DataItemView::Ipv4AttachedSubnet { .. } => item.type_id().0 == 10,
            DataItemView::Ipv6AttachedSubnet { .. } => item.type_id().0 == 11,
            DataItemView::MaxDataRateReceive(_) => item.type_id().0 == 12,
            DataItemView::MaxDataRateTransmit(_) => item.type_id().0 == 13,
            DataItemView::CurrentDataRateReceive(_) => item.type_id().0 == 14,
            DataItemView::CurrentDataRateTransmit(_) => item.type_id().0 == 15,
            DataItemView::Latency(_) => item.type_id().0 == 16,
            DataItemView::Resources(_) => item.type_id().0 == 17,
            DataItemView::RelativeLinkQualityReceive(_) => item.type_id().0 == 18,
            DataItemView::RelativeLinkQualityTransmit(_) => item.type_id().0 == 19,
            DataItemView::Mtu(_) => item.type_id().0 == 20,
            DataItemView::Unknown(raw) => item.type_id() == raw.type_id,
        },
{
}

/// A percentage is one octet with that number, and such an octet is read as
/// that percentage.
pub proof fn law_percentages(pct: u8)
    requires
        pct <= 100,
    ensures
        DataItemView::Resources(pct).value() == seq![pct],
        DataItemView::RelativeLinkQualityReceive(pct).value() == seq![pct],
        DataItemView::RelativeLinkQualityTransmit(pct).value() == seq![pct],
        DataItemView::Resources(pct).refusal() is None,
        DataItemView::RelativeLinkQualityReceive(pct).refusal() is None,
        DataItemView::RelativeLinkQualityTransmit(pct).refusal() is None,
        (RawDataItemView { type_id: DataItemType(17), value: seq![pct] }).meaning() == Ok::<
            DataItemView,
            CodecErrorView,
        >(DataItemView::Resources(pct)),
        (RawDataItemView { type_id: DataItemType(18), value: seq![pct] }).meaning() == Ok::<
            DataItemView,
            CodecErrorView,
        >(DataItemView::RelativeLinkQualityReceive(pct)),
        (RawDataItemView { type_id: DataItemType(19), value: seq![pct] }).meaning() == Ok::<
            DataItemView,
            CodecErrorView,
        >(DataItemView::RelativeLinkQualityTransmit(pct)),
{
}

/// No octet above 100 is a percentage, neither written nor read, and the error
/// says which field it is and what stood there.
pub proof fn law_no_percentage_above_a_hundred(pct: u8)
    requires
        pct > 100,
    ensures
        ({
            let resources = CodecErrorView::OutOfRange {
                field: "resources"@,
                value: pct as u64,
            };
            let receive = CodecErrorView::OutOfRange {
                field: "relative_link_quality_receive"@,
                value: pct as u64,
            };
            let transmit = CodecErrorView::OutOfRange {
                field: "relative_link_quality_transmit"@,
                value: pct as u64,
            };
            &&& DataItemView::Resources(pct).refusal() == Some(resources)
            &&& DataItemView::RelativeLinkQualityReceive(pct).refusal() == Some(receive)
            &&& DataItemView::RelativeLinkQualityTransmit(pct).refusal() == Some(transmit)
            &&& (RawDataItemView { type_id: DataItemType(17), value: seq![pct] }).meaning() == Err::<
                DataItemView,
                CodecErrorView,
            >(resources)
            &&& (RawDataItemView { type_id: DataItemType(18), value: seq![pct] }).meaning() == Err::<
                DataItemView,
                CodecErrorView,
            >(receive)
            &&& (RawDataItemView { type_id: DataItemType(19), value: seq![pct] }).meaning() == Err::<
                DataItemView,
                CodecErrorView,
            >(transmit)
        }),
{
}

/// A status is its code and the text behind it; a peer type is a flag and the
/// description behind it.
pub proof fn law_text_octets(item: DataItemView)
    ensures
        match item {
            DataItemView::Status { code, text } => {
                &&& item.value().len() >= 1
                &&& item.value()[0] == code.0
                &&& item.value().skip(1) == utf8::encode_utf8(text)
            },
            DataItemView::PeerType { flags, description } => {
                &&& item.value().len() >= 1
                &&& item.value()[0] == if flags.smi {
                    1u8
                } else {
                    0u8
                }
                &&& item.value().skip(1) == utf8::encode_utf8(description)
            },
            _ => true,
        },
{
    match item {
        DataItemView::Status { code, text } => {
            assert(item.value().skip(1) =~= utf8::encode_utf8(text));
        },
        DataItemView::PeerType { flags, description } => {
            assert(item.value().skip(1) =~= utf8::encode_utf8(description));
        },
        _ => {},
    }
}

/// A status or peer type is read as its first octet and the text that the
/// others encode; of the flags only the lowest bit counts. What is not UTF-8 is
/// an error that holds it.
pub proof fn law_text_is_read(value: Seq<u8>)
    requires
        value.len() >= 1,
    ensures
        ({
            let status = (RawDataItemView { type_id: DataItemType(1), value }).meaning();
            let peer = (RawDataItemView { type_id: DataItemType(4), value }).meaning();
            if utf8::valid_utf8(value.skip(1)) {
                &&& status matches Ok(item) && item matches DataItemView::Status { code, text }
                    && code.0 == value[0] && utf8::encode_utf8(text) == value.skip(1)
                &&& peer matches Ok(item) && item matches DataItemView::PeerType {
                    flags,
                    description,
                } && flags.smi == (value[0] % 2 == 1) && utf8::encode_utf8(description)
                    == value.skip(1)
            } else {
                let refused = CodecErrorView::InvalidUtf8 { octets: value.skip(1) };
                &&& status == Err::<DataItemView, CodecErrorView>(refused)
                &&& peer == Err::<DataItemView, CodecErrorView>(refused)
            }
        }),
{
    if utf8::valid_utf8(value.skip(1)) {
        utf8::decode_utf8_encode_utf8(value.skip(1));
    }
}

/// A connection point is a flag octet, the address and, where there is one, the
/// port.
pub proof fn law_connection_point_octets(item: DataItemView)
    ensures
        match item {
            DataItemView::Ipv4ConnectionPoint { flags, addr, port } => {
                &&& item.value().len() == if port is Some {
                    7int
                } else {
                    5int
                }
                &&& item.value()[0] == if flags.use_tls {
                    1u8
                } else {
                    0u8
                }
                &&& item.value().subrange(1, 5) == addr.octets@
                &&& port matches Some(p) ==> item.value()[5] * 256 + item.value()[6] == p
            },
            DataItemView::Ipv6ConnectionPoint { flags, addr, port } => {
                &&& item.value().len() == if port is Some {
                    19int
                } else {
                    17int
                }
                &&& item.value()[0] == if flags.use_tls {
                    1u8
                } else {
                    0u8
                }
                &&& item.value().subrange(1, 17) == addr.octets@
                &&& port matches Some(p) ==> item.value()[17] * 256 + item.value()[18] == p
            },
            _ => true,
        },
{
    match item {
        DataItemView::Ipv4ConnectionPoint { flags, addr, port } => {
            if let Some(p) = port {
                lemma_two(p as nat);
            }
            assert(item.value().subrange(1, 5) =~= addr.octets@);
        },
        DataItemView::Ipv6ConnectionPoint { flags, addr, port } => {
            if let Some(p) = port {
                lemma_two(p as nat);
            }
            assert(item.value().subrange(1, 17) =~= addr.octets@);
        },
        _ => {},
    }
}

/// A connection point is read as the flag in the lowest bit, the address, and
/// the port where the value is long enough for one.
pub proof fn law_connection_point_is_read(value: Seq<u8>)
    ensures
        value.len() == 5 || value.len() == 7 ==> ({
            let read = (RawDataItemView { type_id: DataItemType(2), value }).meaning();
            &&& read matches Ok(item) && item matches DataItemView::Ipv4ConnectionPoint {
                flags,
                addr,
                port,
            } && flags.use_tls == (value[0] % 2 == 1) && addr.octets@ == value.subrange(1, 5)
                && match port {
                Some(p) => value.len() == 7 && p == value[5] * 256 + value[6],
                None => value.len() == 5,
            }
        }),
        value.len() == 17 || value.len() == 19 ==> ({
            let read = (RawDataItemView { type_id: DataItemType(3), value }).meaning();
            &&& read matches Ok(item) && item matches DataItemView::Ipv6ConnectionPoint {
                flags,
                addr,
                port,
            } && flags.use_tls == (value[0] % 2 == 1) && addr.octets@ == value.subrange(1, 17)
                && match port {
                Some(p) => value.len() == 19 && p == value[17] * 256 + value[18],
                None => value.len() == 17,
            }
        }),
{
    if value.len() == 5 || value.len() == 7 {
        layout::lemma_one_of(
            seq![5usize, 7],
            if value.len() == 5 {
                0
            } else {
                1
            },
        );
        laws::lemma_array_of_seq::<4>(value.subrange(1, 5));
        if value.len() == 7 {
            wire::lemma_from_be_two(value.skip(5));
        }
    }
    if value.len() == 17 || value.len() == 19 {
        layout::lemma_one_of(
            seq![17usize, 19],
            if value.len() == 17 {
                0
            } else {
                1
            },
        );
        laws::lemma_array_of_seq::<16>(value.subrange(1, 17));
        if value.len() == 19 {
            wire::lemma_from_be_two(value.skip(17));
        }
    }
}

/// A heartbeat interval is its milliseconds in four octets, a latency its
/// microseconds in eight.
pub proof fn law_span_octets(d: Duration)
    ensures
        d.nanos / 1_000_000 <= 0xffff_ffff ==> ({
            let v = DataItemView::HeartbeatInterval(d).value();
            v.len() == 4 && v[0] * 0x100_0000 + v[1] * 0x1_0000 + v[2] * 0x100 + v[3] == d.nanos
                / 1_000_000
        }),
        d.nanos / 1_000 <= 0xffff_ffff_ffff_ffff ==> ({
            let v = DataItemView::Latency(d).value();
            v.len() == 8 && v[0] * 0x100_0000_0000_0000 + v[1] * 0x1_0000_0000_0000 + v[2]
                * 0x100_0000_0000 + v[3] * 0x1_0000_0000 + v[4] * 0x100_0000 + v[5] * 0x1_0000
                + v[6] * 0x100 + v[7] == d.nanos / 1_000
        }),
{
    if d.nanos / 1_000_000 <= 0xffff_ffff {
        law_numbers_are_big_endian(0, (d.nanos / 1_000_000) as u32, 0);
    }
    if d.nanos / 1_000 <= 0xffff_ffff_ffff_ffff {
        law_numbers_are_big_endian(0, 0, (d.nanos / 1_000) as u64);
    }
}

/// Only heartbeat intervals of at least one second, in 32 bits of milliseconds,
/// can be written, and only latencies in 64 bits of microseconds.
pub proof fn law_spans_that_are_refused(d: Duration)
    ensures
        DataItemView::HeartbeatInterval(d).refusal() == if 1_000 <= d.nanos / 1_000_000
            <= 0xffff_ffff {
            None
        } else {
            Some(
                CodecErrorView::OutOfRange {
                    field: "heartbeat_interval_ms"@,
                    value: if d.nanos / 1_000_000 <= 0xffff_ffff_ffff_ffff {
                        (d.nanos / 1_000_000) as u64
                    } else {
                        0xffff_ffff_ffff_ffff
                    },
                },
            )
        },
        DataItemView::Latency(d).refusal() == if d.nanos / 1_000 <= 0xffff_ffff_ffff_ffff {
            None
        } else {
            Some(
                CodecErrorView::OutOfRange {
                    field: "latency_us"@,
                    value: 0xffff_ffff_ffff_ffff,
                },
            )
        },
{
    wire::lemma_be_len(layout::millis(d), 4);
    wire::lemma_be_len(layout::micros(d), 8);
}

/// Four octets are read as a heartbeat interval of that many milliseconds, if
/// there are at least a thousand of them; eight as a latency of that many
/// microseconds.
pub proof fn law_span_is_read(value: Seq<u8>)
    ensures
        value.len() == 4 ==> ({
            let ms = value[0] * 0x100_0000 + value[1] * 0x1_0000 + value[2] * 0x100 + value[3];
            let read = (RawDataItemView { type_id: DataItemType(5), value }).meaning();
            if ms >= 1_000 {
                read matches Ok(item) && item matches DataItemView::HeartbeatInterval(d) && d.nanos
                    == ms * 1_000_000
            } else {
                read == Err::<DataItemView, CodecErrorView>(
                    CodecErrorView::OutOfRange {
                        field: "heartbeat_interval_ms"@,
                        value: ms as u64,
                    },
                )
            }
        }),
        value.len() == 8 ==> ({
            let us = value[0] * 0x100_0000_0000_0000 + value[1] * 0x1_0000_0000_0000 + value[2]
                * 0x100_0000_0000 + value[3] * 0x1_0000_0000 + value[4] * 0x100_0000 + value[5]
                * 0x1_0000 + value[6] * 0x100 + value[7];
            let read = (RawDataItemView { type_id: DataItemType(16), value }).meaning();
            read matches Ok(item) && item matches DataItemView::Latency(d) && d.nanos == us * 1_000
        }),
{
    if value.len() == 4 {
        lemma_from_be_four(value);
    }
    if value.len() == 8 {
        lemma_from_be_eight(value);
    }
}

/// Rates are bits per second in eight octets, the MTU is two.
pub proof fn law_rate_and_mtu_octets(bps: u64, mtu: u16)
    ensures
        ({
            let v = DataItemView::MaxDataRateReceive(bps).value();
            &&& v.len() == 8
            &&& v[0] * 0x100_0000_0000_0000 + v[1] * 0x1_0000_0000_0000 + v[2] * 0x100_0000_0000
                + v[3] * 0x1_0000_0000 + v[4] * 0x100_0000 + v[5] * 0x1_0000 + v[6] * 0x100 + v[7]
                == bps
            &&& DataItemView::MaxDataRateTransmit(bps).value() == v
            &&& DataItemView::CurrentDataRateReceive(bps).value() == v
            &&& DataItemView::CurrentDataRateTransmit(bps).value() == v
        }),
        ({
            let v = DataItemView::Mtu(mtu).value();
            v.len() == 2 && v[0] * 256 + v[1] == mtu
        }),
        DataItemView::MaxDataRateReceive(bps).refusal() is None,
        DataItemView::MaxDataRateTransmit(bps).refusal() is None,
        DataItemView::CurrentDataRateReceive(bps).refusal() is None,
        DataItemView::CurrentDataRateTransmit(bps).refusal() is None,
        DataItemView::Mtu(mtu).refusal() is None,
{
    law_numbers_are_big_endian(mtu, 0, bps);
}

/// Eight octets under a rate's number are that rate, two under the MTU's that
/// MTU.
pub proof fn law_rate_and_mtu_are_read(value: Seq<u8>)
    ensures
        value.len() == 8 ==> ({
            let bps = value[0] * 0x100_0000_0000_0000 + value[1] * 0x1_0000_0000_0000 + value[2]
                * 0x100_0000_0000 + value[3] * 0x1_0000_0000 + value[4] * 0x100_0000 + value[5]
                * 0x1_0000 + value[6] * 0x100 + value[7];
            &&& (RawDataItemView { type_id: DataItemType(12), value }).meaning() == Ok::<
                DataItemView,
                CodecErrorView,
            >(DataItemView::MaxDataRateReceive(bps as u64))
            &&& (RawDataItemView { type_id: DataItemType(13), value }).meaning() == Ok::<
                DataItemView,
                CodecErrorView,
            >(DataItemView::MaxDataRateTransmit(bps as u64))
            &&& (RawDataItemView { type_id: DataItemType(14), value }).meaning() == Ok::<
                DataItemView,
                CodecErrorView,
            >(DataItemView::CurrentDataRateReceive(bps as u64))
            &&& (RawDataItemView { type_id: DataItemType(15), value }).meaning() == Ok::<
                DataItemView,
                CodecErrorView,
            >(DataItemView::CurrentDataRateTransmit(bps as u64))
        }),
        value.len() == 2 ==> (RawDataItemView { type_id: DataItemType(20), value }).meaning()
            == Ok::<DataItemView, CodecErrorView>(
            DataItemView::Mtu((value[0] * 256 + value[1]) as u16),
        ),
{
    if value.len() == 8 {
        lemma_from_be_eight(value);
    }
    if value.len() == 2 {
        wire::lemma_from_be_two(value);
    }
}

/// Extension ids are two octets each, in order, written and read.
pub proof fn law_extension_octets(ids: Seq<ExtensionId>, value: Seq<u8>)
    requires
        value.len() % 2 == 0,
    ensures
        ({
            let v = DataItemView::ExtensionsSupported(ids).value();
            &&& v.len() == 2 * ids.len()
            &&& forall|i: int|
                0 <= i < ids.len() ==> v[2 * i] * 256 + v[2 * i + 1] == (#[trigger] ids[i]).0
        }),
        ({
            let read = (RawDataItemView { type_id: DataItemType(6), value }).meaning();
            &&& read matches Ok(item) && item matches DataItemView::ExtensionsSupported(got)
                && got.len() == value.len() / 2 && (forall|i: int|
                0 <= i < got.len() ==> (#[trigger] got[i]).0 == value[2 * i] * 256 + value[2 * i
                    + 1])
        }),
{
    let v = DataItemView::ExtensionsSupported(ids).value();
    layout::lemma_id_octets_len(ids);
    assert forall|i: int| 0 <= i < ids.len() implies v[2 * i] * 256 + v[2 * i + 1] == (
    #[trigger] ids[i]).0 by {
        laws::lemma_id_position(ids, i);
        lemma_two(ids[i].0 as nat);
        let pair = v.subrange(2 * i, 2 * i + 2);
        assert(pair[0] == v[2 * i]);
        assert(pair[1] == v[2 * i + 1]);
    }
    let got = layout::ids_of(value);
    assert forall|i: int| 0 <= i < got.len() implies (#[trigger] got[i]).0 == value[2 * i] * 256
        + value[2 * i + 1] by {
        wire::lemma_from_be_two(value.subrange(2 * i, 2 * i + 2));
    }
}

/// Addresses are their octets: a link-layer address alone, an IP address behind
/// a flag that says whether it is added.
pub proof fn law_address_octets(item: DataItemView)
    ensures
        match item {
            DataItemView::MacAddress(MacAddress::Eui48(octets)) => item.value() == octets@,
            DataItemView::MacAddress(MacAddress::Eui64(octets)) => item.value() == octets@,
            DataItemView::Ipv4Address { add, addr } => {
                &&& item.value().len() == 5
                &&& item.value()[0] == if add {
                    1u8
                } else {
                    0u8
                }
                &&& item.value().skip(1) == addr.octets@
            },
            DataItemView::Ipv6Address { add, addr } => {
                &&& item.value().len() == 17
                &&& item.value()[0] == if add {
                    1u8
                } else {
                    0u8
                }
                &&& item.value().skip(1) == addr.octets@
            },
            _ => true,
        },
{
    match item {
        DataItemView::Ipv4Address { add, addr } => {
            assert(item.value().skip(1) =~= addr.octets@);
        },
        DataItemView::Ipv6Address { add, addr } => {
            assert(item.value().skip(1) =~= addr.octets@);
        },
        _ => {},
    }
}

/// Six octets are read as an EUI-48 address; five and seventeen as an IP
/// address behind a flag, of which the lowest bit counts.
pub proof fn law_address_is_read(value: Seq<u8>)
    ensures
        value.len() == 6 ==> ({
            let read = (RawDataItemView { type_id: DataItemType(7), value }).meaning();
            read matches Ok(item) && item matches DataItemView::MacAddress(mac) && mac is Eui48
                && mac.octets() == value
        }),
        value.len() == 5 ==> ({
            let read = (RawDataItemView { type_id: DataItemType(8), value }).meaning();
            read matches Ok(item) && item matches DataItemView::Ipv4Address { add, addr } && add == (
            value[0] % 2 == 1) && addr.octets@ == value.skip(1)
        }),
        value.len() == 17 ==> ({
            let read = (RawDataItemView { type_id: DataItemType(9), value }).meaning();
            read matches Ok(item) && item matches DataItemView::Ipv6Address { add, addr } && add == (
            value[0] % 2 == 1) && addr.octets@ == value.skip(1)
        }),
{
    if value.len() == 6 {
        laws::lemma_array_of_seq::<6>(value);
    }
    if value.len() == 5 {
        laws::lemma_array_of_seq::<4>(value.skip(1));
    }
    if value.len() == 17 {
        laws::lemma_array_of_seq::<16>(value.skip(1));
    }
}

/// An attached subnet is a flag, the network address and the prefix length.
pub proof fn law_subnet_octets(item: DataItemView)
    ensures
        match item {
            DataItemView::Ipv4AttachedSubnet { add, subnet: net } => {
                &&& item.value().len() == 6
                &&& item.value()[0] == if add {
                    1u8
                } else {
                    0u8
                }
                &&& item.value().subrange(1, 5) == subnet::network_octets(
                    net.addr.octets@,
                    net.prefix_len as int,
                )
                &&& item.value()[5] == net.prefix_len
            },
            DataItemView::Ipv6AttachedSubnet { add, subnet: net } => {
                &&& item.value().len() == 18
                &&& item.value()[0] == if add {
                    1u8
                } else {
                    0u8
                }
                &&& item.value().subrange(1, 17) == subnet::network_octets(
                    net.addr.octets@,
                    net.prefix_len as int,
                )
                &&& item.value()[17] == net.prefix_len
            },
            _ => true,
        },
{
    match item {
        DataItemView::Ipv4AttachedSubnet { add, subnet: net } => {
            assert(item.value().subrange(1, 5) =~= net.network());
        },
        DataItemView::Ipv6AttachedSubnet { add, subnet: net } => {
            assert(item.value().subrange(1, 17) =~= net.network());
        },
        _ => {},
    }
}

/// An attached subnet is read as the flag in the lowest bit, the address
/// without host bits and the prefix; a prefix longer than the address is an
/// error.
pub proof fn law_subnet_is_read(value: Seq<u8>)
    ensures
        value.len() == 6 ==> ({
            let read = (RawDataItemView { type_id: DataItemType(10), value }).meaning();
            if value[5] <= 32 {
                read matches Ok(item) && item matches DataItemView::Ipv4AttachedSubnet {
                    add,
                    subnet: net,
                } && add == (value[0] % 2 == 1) && net.prefix_len == value[5] && net.addr.octets@
                    == subnet::network_octets(value.subrange(1, 5), value[5] as int)
            } else {
                read == Err::<DataItemView, CodecErrorView>(
                    CodecErrorView::OutOfRange {
                        field: "ipv4_attached_subnet_prefix"@,
                        value: value[5] as u64,
                    },
                )
            }
        }),
        value.len() == 18 ==> ({
            let read = (RawDataItemView { type_id: DataItemType(11), value }).meaning();
            if value[17] <= 128 {
                read matches Ok(item) && item matches DataItemView::Ipv6AttachedSubnet {
                    add,
                    subnet: net,
                } && add == (value[0] % 2 == 1) && net.prefix_len == value[17] && net.addr.octets@
                    == subnet::network_octets(value.subrange(1, 17), value[17] as int)
            } else {
                read == Err::<DataItemView, CodecErrorView>(
                    CodecErrorView::OutOfRange {
                        field: "ipv6_attached_subnet_prefix"@,
                        value: value[17] as u64,
                    },
                )
            }
        }),
{
    if value.len() == 6 {
        laws::lemma_array_of_seq::<4>(
            subnet::network_octets(value.subrange(1, 5), value[5] as int),
        );
    }
    if value.len() == 18 {
        laws::lemma_array_of_seq::<16>(
            subnet::network_octets(value.subrange(1, 17), value[17] as int),
        );
    }
}

/// The lengths that a value may have, by the assigned number of its type; a
/// value of another length is an error that says which are permitted. A type
/// without an assigned number is passed on as it is.
pub proof fn law_permitted_lengths(raw: RawDataItemView)
    ensures
        ({
            let code = raw.type_id.0;
            let len = raw.value.len();
            let (permitted, rule) = if code == 1 || code == 4 {
                (len >= 1, ExpectedLenView::AtLeast(1))
            } else if code == 2 {
                (len == 5 || len == 7, ExpectedLenView::OneOf(seq![5usize, 7]))
            } else if code == 3 {
                (len == 17 || len == 19, ExpectedLenView::OneOf(seq![17usize, 19]))
            } else if code == 5 {
                (len == 4, ExpectedLenView::Exact(4))
            } else if code == 6 {
                (len % 2 == 0, ExpectedLenView::Multiple(2))
            } else if code == 7 || code == 10 {
                (len == 6, ExpectedLenView::Exact(6))
            } else if code == 8 {
                (len == 5, ExpectedLenView::Exact(5))
            } else if code == 9 {
                (len == 17, ExpectedLenView::Exact(17))
            } else if code == 11 {
                (len == 18, ExpectedLenView::Exact(18))
            } else if 12 <= code <= 16 {
                (len == 8, ExpectedLenView::Exact(8))
            } else if 17 <= code <= 19 {
                (len == 1, ExpectedLenView::Exact(1))
            } else {
                (len == 2, ExpectedLenView::Exact(2))
            };
            if 1 <= code <= 20 {
                if permitted {
                    !(raw.meaning() matches Err(CodecErrorView::InvalidDataItemLength { .. }))
                } else {
                    raw.meaning() == Err::<DataItemView, CodecErrorView>(
                        CodecErrorView::InvalidDataItemLength {
                            kind: raw.type_id,
                            expected: rule,
                            got: len,
                        },
                    )
                }
            } else {
                raw.meaning() == Ok::<DataItemView, CodecErrorView>(DataItemView::Unknown(raw))
            }
        }),
{
    layout::lemma_one_of(seq![5usize, 7], 0);
    layout::lemma_one_of(seq![5usize, 7], 1);
    layout::lemma_one_of(seq![17usize, 19], 0);
    layout::lemma_one_of(seq![17usize, 19], 1);
}

/// Besides percentages and spans, a data item is refused only when 16 bits
/// cannot count the octets of its value.
pub proof fn law_long_values_are_refused(item: DataItemView)
    ensures
        item.value().len() > 0xffff ==> item.refusal() == Some(
            CodecErrorView::OutOfRange {
                field: "data_item_value_length"@,
                value: if item.value().len() <= usize::MAX {
                    item.value().len() as u64
                } else {
                    usize::MAX as u64
                },
            },
        ),
        match item {
            DataItemView::HeartbeatInterval(_) => true,
            DataItemView::Latency(_) => true,
            DataItemView::Resources(_) => true,
            DataItemView::RelativeLinkQualityReceive(_) => true,
            DataItemView::RelativeLinkQualityTransmit(_) => true,
            _ => item.refusal() is Some <==> item.value().len() > 0xffff,
        },
{
}

/// A data item on the wire: two octets of type, two of length, and the value.
pub proof fn law_data_item_header(item: DataItemView)
    requires
        item.value().len() <= 0xffff,
    ensures
        item.encoding().len() == 4 + item.value().len(),
        item.encoding()[0] * 256 + item.encoding()[1] == item.type_id().0,
        item.encoding()[2] * 256 + item.encoding()[3] == item.value().len(),
        item.encoding().skip(4) == item.value(),
{
    lemma_two(item.type_id().0 as nat);
    lemma_two(item.value().len());
    assert(item.encoding().skip(4) =~= item.value());
}

/// A data item is taken off the head of octets by what its header says; where
/// they are too few, the error says how many are needed and how many there are.
pub proof fn law_data_item_is_taken_off(octets: Seq<u8>)
    ensures
        octets.len() < 4 ==> layout::raw_at(octets) == Err::<
            (RawDataItemView, Seq<u8>),
            CodecErrorView,
        >(CodecErrorView::Truncated { needed: 4, have: octets.len() }),
        octets.len() >= 4 ==> ({
            let len = octets[2] * 256 + octets[3];
            if octets.len() - 4 < len {
                layout::raw_at(octets) == Err::<(RawDataItemView, Seq<u8>), CodecErrorView>(
                    CodecErrorView::Truncated {
                        needed: len as nat,
                        have: (octets.len() - 4) as nat,
                    },
                )
            } else {
                layout::raw_at(octets) matches Ok(taken) && taken.0.type_id.0 == octets[0] * 256
                    + octets[1] && taken.0.value == octets.subrange(4, 4 + len) && taken.1
                    == octets.skip(4 + len)
            }
        }),
{
    if octets.len() >= 4 {
        let len = octets[2] * 256 + octets[3];
        wire::lemma_from_be_two(octets.take(2));
        wire::lemma_from_be_two(octets.subrange(2, 4));
        if octets.len() - 4 >= len {
            assert(octets.skip(4).take(len) =~= octets.subrange(4, 4 + len));
            assert(octets.skip(4).skip(len) =~= octets.skip(4 + len));
        }
    }
}

/// A body is its data items one behind the other, up to the last octet, and the
/// first that cannot be read decides the error.
pub proof fn law_body_is_read_item_by_item(body: Seq<u8>)
    ensures
        body.len() == 0 ==> layout::items_of(body) == Ok::<Seq<DataItemView>, CodecErrorView>(
            Seq::empty(),
        ),
        body.len() > 0 ==> match layout::raw_at(body) {
            Err(e) => layout::items_of(body) == Err::<Seq<DataItemView>, CodecErrorView>(e),
            Ok((raw, rest)) => match (raw.meaning(), layout::items_of(rest)) {
                (Err(e), _) => layout::items_of(body) == Err::<Seq<DataItemView>, CodecErrorView>(
                    e,
                ),
                (Ok(_), Err(e)) => layout::items_of(body) == Err::<
                    Seq<DataItemView>,
                    CodecErrorView,
                >(e),
                (Ok(item), Ok(items)) => layout::items_of(body) matches Ok(all) && all.len()
                    == items.len() + 1 && all[0] == item && all.skip(1) == items,
            },
        },
{
    if body.len() > 0 {
        if let Ok((raw, rest)) = layout::raw_at(body) {
            if let (Ok(item), Ok(items)) = (raw.meaning(), layout::items_of(rest)) {
                assert((seq![item] + items).skip(1) =~= items);
            }
        }
    }
}

/// One data item more makes a body longer by exactly its octets, behind all
/// others; no data items make none.
pub proof fn law_body_grows_by_each_item(items: Seq<DataItemView>, item: DataItemView)
    ensures
        layout::body_of(Seq::empty()) == Seq::<u8>::empty(),
        layout::body_of(items.push(item)) == layout::body_of(items) + item.encoding(),
        layout::first_refusal(Seq::empty()) is None,
        layout::first_refusal(items.push(item)) == if layout::first_refusal(items) is Some {
            layout::first_refusal(items)
        } else {
            item.refusal()
        },
{
    assert(items.push(item).drop_last() =~= items);
}

/// A message on the wire: two octets of type, two that count the body, and the
/// body. There is none exactly when a data item has none or 16 bits cannot count
/// the body.
pub proof fn law_message_header(message: MessageView)
    ensures
        ({
            let body = layout::body_of(message.data_items);
            match layout::first_refusal(message.data_items) {
                Some(e) => message.wire_form() == Err::<Seq<u8>, CodecErrorView>(e),
                None => if body.len() > 0xffff {
                    message.wire_form() == Err::<Seq<u8>, CodecErrorView>(
                        CodecErrorView::OutOfRange {
                            field: "message_body_length"@,
                            value: if body.len() <= 0xffff_ffff_ffff_ffff {
                                body.len() as u64
                            } else {
                                0xffff_ffff_ffff_ffff
                            },
                        },
                    )
                } else {
                    message.wire_form() matches Ok(octets) && octets.len() == 4 + body.len()
                        && octets[0] * 256 + octets[1] == message.message_type.0 && octets[2] * 256
                        + octets[3] == body.len() && octets.skip(4) == body
                },
            }
        }),
{
    let body = layout::body_of(message.data_items);
    lemma_two(message.message_type.0 as nat);
    if body.len() <= 0xffff {
        lemma_two(body.len());
        if let Ok(octets) = message.wire_form() {
            assert(octets.skip(4) =~= body);
        }
    }
}

/// A signal on the wire: the letters `DLEP`, two octets of type, two that count
/// the body, and the body. There is none exactly when a data item has none or 16
/// bits cannot count the body.
pub proof fn law_signal_header(signal: SignalView)
    ensures
        ({
            let body = layout::body_of(signal.data_items);
            match layout::first_refusal(signal.data_items) {
                Some(e) => signal.wire_form() == Err::<Seq<u8>, CodecErrorView>(e),
                None => if body.len() > 0xffff {
                    signal.wire_form() == Err::<Seq<u8>, CodecErrorView>(
                        CodecErrorView::OutOfRange {
                            field: "signal_body_length"@,
                            value: if body.len() <= 0xffff_ffff_ffff_ffff {
                                body.len() as u64
                            } else {
                                0xffff_ffff_ffff_ffff
                            },
                        },
                    )
                } else {
                    signal.wire_form() matches Ok(octets) && octets.len() == 8 + body.len()
                        && octets.take(4) == seq![0x44u8, 0x4c, 0x45, 0x50] && octets[4] * 256
                        + octets[5] == signal.signal_type.0 && octets[6] * 256 + octets[7]
                        == body.len() && octets.skip(8) == body
                },
            }
        }),
{
    let body = layout::body_of(signal.data_items);
    lemma_two(signal.signal_type.0 as nat);
    if body.len() <= 0xffff {
        lemma_two(body.len());
        if let Ok(octets) = signal.wire_form() {
            assert(octets.take(4) =~= seq![0x44u8, 0x4c, 0x45, 0x50]);
            assert(octets.skip(8) =~= body);
        }
    }
}

/// A message is read by its header: type, and as many octets of body as it says,
/// whatever follows them.
pub proof fn law_message_is_read(octets: Seq<u8>)
    ensures
        octets.len() < 4 ==> MessageView::read(octets) == Err::<MessageView, CodecErrorView>(
            CodecErrorView::Truncated { needed: 4, have: octets.len() },
        ),
        octets.len() >= 4 ==> ({
            let len = octets[2] * 256 + octets[3];
            if octets.len() - 4 < len {
                MessageView::read(octets) == Err::<MessageView, CodecErrorView>(
                    CodecErrorView::LengthMismatch {
                        declared: len as nat,
                        remaining: (octets.len() - 4) as nat,
                    },
                )
            } else {
                match layout::items_of(octets.subrange(4, 4 + len)) {
                    Err(e) => MessageView::read(octets) == Err::<MessageView, CodecErrorView>(e),
                    Ok(items) => MessageView::read(octets) matches Ok(message)
                        && message.message_type.0 == octets[0] * 256 + octets[1]
                        && message.data_items == items,
                }
            }
        }),
{
    if octets.len() >= 4 {
        let len = octets[2] * 256 + octets[3];
        wire::lemma_from_be_two(octets.take(2));
        wire::lemma_from_be_two(octets.skip(2).take(2));
        if octets.len() - 4 >= len {
            assert(octets.skip(2).skip(2).take(len) =~= octets.subrange(4, 4 + len));
        }
    }
}

/// A signal is read by its header, which begins with the letters `DLEP`: type,
/// and as many octets of body as it says, whatever follows them.
pub proof fn law_signal_is_read(octets: Seq<u8>)
    ensures
        octets.len() < 8 ==> SignalView::read(octets) == Err::<SignalView, CodecErrorView>(
            CodecErrorView::Truncated { needed: 8, have: octets.len() },
        ),
        octets.len() >= 8 && octets.take(4) != seq![0x44u8, 0x4c, 0x45, 0x50] ==> SignalView::read(
            octets,
        ) == Err::<SignalView, CodecErrorView>(CodecErrorView::MissingSignalPrefix),
        octets.len() >= 8 && octets.take(4) == seq![0x44u8, 0x4c, 0x45, 0x50] ==> ({
            let len = octets[6] * 256 + octets[7];
            if octets.len() - 8 < len {
                SignalView::read(octets) == Err::<SignalView, CodecErrorView>(
                    CodecErrorView::LengthMismatch {
                        declared: len as nat,
                        remaining: (octets.len() - 8) as nat,
                    },
                )
            } else {
                match layout::items_of(octets.subrange(8, 8 + len)) {
                    Err(e) => SignalView::read(octets) == Err::<SignalView, CodecErrorView>(e),
                    Ok(items) => SignalView::read(octets) matches Ok(signal)
                        && signal.signal_type.0 == octets[4] * 256 + octets[5]
                        && signal.data_items == items,
                }
            }
        }),
{
    assert(layout::SIGNAL_PREFIX@ =~= seq![0x44u8, 0x4c, 0x45, 0x50]);
    if octets.len() >= 8 {
        let len = octets[6] * 256 + octets[7];
        wire::lemma_from_be_two(octets.subrange(4, 6));
        wire::lemma_from_be_two(octets.skip(6).take(2));
        if octets.len() - 8 >= len {
            assert(octets.skip(6).skip(2).take(len) =~= octets.subrange(8, 8 + len));
        }
    }
}

} // verus!
