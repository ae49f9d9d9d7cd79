//! Encoding and decoding of data items, messages and signals.

use vstd::prelude::*;
use bytes::{Bytes, BytesMut};
use crate::proto::addr::{Ipv4Addr, Ipv6Addr};
use crate::proto::buffer;
use crate::proto::data_item;
use crate::proto::data_item::{ConnectionPointFlags, DataItem, DataItemView, PeerFlags, RawDataItem};
use crate::proto::duration::Duration;
use crate::proto::error::{CodecError, CodecErrorView, ExpectedLen, ExpectedLenView};
use crate::proto::field;
use crate::proto::layout;
use crate::proto::layout::{
    MESSAGE_HEADER_LEN, MIN_HEARTBEAT_INTERVAL_MS, SIGNAL_HEADER_LEN, SIGNAL_PREFIX,
};
use crate::proto::ids::{DataItemType, ExtensionId, MessageType, SignalType};
use crate::proto::mac::MacAddress;
use crate::proto::message::{Message, MessageView};
use crate::proto::signal::{Signal, SignalView};
use crate::proto::status::StatusCode;
use crate::proto::subnet::{Ipv4Net, Ipv6Net};
use crate::proto::wire;

verus! {

/// Octets of the longest data item: four of header, and as many of value as 16
/// bits can count.
pub const MAX_DATA_ITEM_LEN: usize = 65_539;

/// A result carries what is expected of it: the value, or the error.
pub open spec fn agrees<T: View>(
    r: Result<T, CodecError>,
    expected: Result<T::V, CodecErrorView>,
) -> bool {
    match expected {
        Ok(v) => r matches Ok(x) && x@ == v,
        Err(e) => r matches Err(x) && x@ == e,
    }
}

/// A check fails with the refusal, and passes when there is none.
pub open spec fn refused(r: Result<(), CodecError>, refusal: Option<CodecErrorView>) -> bool {
    match refusal {
        None => r is Ok,
        Some(e) => r matches Err(x) && x@ == e,
    }
}

pub fn ensure_len(have: usize, needed: usize) -> (r: Result<(), CodecError>)
    ensures
        refused(
            r,
            if have < needed {
                Some(CodecErrorView::Truncated { needed: needed as nat, have: have as nat })
            } else {
                None
            },
        ),
{
    if have < needed {
        Err(CodecError::Truncated { needed, have })
    } else {
        Ok(())
    }
}

pub fn expect_exact(kind: DataItemType, got: usize, expected: usize) -> (r: Result<(), CodecError>)
    ensures
        refused(
            r,
            if got == expected {
                None
            } else {
                Some(
                    CodecErrorView::InvalidDataItemLength {
                        kind,
                        expected: ExpectedLenView::Exact(expected as nat),
                        got: got as nat,
                    },
                )
            },
        ),
{
    if got == expected {
        Ok(())
    } else {
        Err(CodecError::InvalidDataItemLength { kind, expected: ExpectedLen::Exact(expected), got })
    }
}

/// The octet of a single-bit flag: the flag sits in the lowest bit, the other
/// bits are reserved and zero.
fn flag_to_octet(set: bool) -> (r: u8)
    ensures
        r == layout::flag_octet(set),
{
    if set {
        1
    } else {
        0
    }
}

/// A single-bit flag: the lowest bit of its octet. Reserved bits are ignored.
fn flag_from_octet(octet: u8) -> (r: bool)
    ensures
        r == layout::flag_set(octet),
{
    assert((octet & 1 != 0) == (octet % 2 == 1)) by (bit_vector);
    (octet & 1) != 0
}

pub fn encode_cp_flags(flags: ConnectionPointFlags) -> (r: u8)
    ensures
        r == layout::flag_octet(flags.use_tls),
{
    flag_to_octet(flags.use_tls)
}

pub fn decode_cp_flags(octet: u8) -> (r: ConnectionPointFlags)
    ensures
        r.use_tls == layout::flag_set(octet),
{
    ConnectionPointFlags { use_tls: flag_from_octet(octet) }
}

pub fn encode_peer_flags(flags: PeerFlags) -> (r: u8)
    ensures
        r == layout::flag_octet(flags.smi),
{
    flag_to_octet(flags.smi)
}

pub fn decode_peer_flags(octet: u8) -> (r: PeerFlags)
    ensures
        r.smi == layout::flag_set(octet),
{
    PeerFlags { smi: flag_from_octet(octet) }
}

pub fn check_percent(field: &'static str, pct: u8) -> (r: Result<(), CodecError>)
    ensures
        refused(r, layout::percent_refusal(field@, pct)),
{
    if pct > 100 {
        Err(CodecError::OutOfRange { field, value: pct as u64 })
    } else {
        Ok(())
    }
}

/// The value of a percentage data item: Resources, Relative Link Quality
/// Receive or Transmit. All three have the same shape, a single octet of at
/// most 100, and differ only in the field name that an error reports.
pub fn decode_percent(kind: DataItemType, value: &[u8], field: &'static str) -> (r: Result<
    u8,
    CodecError,
>)
    ensures
        if value@.len() != 1 {
            r matches Err(e) && e@ == (CodecErrorView::InvalidDataItemLength {
                kind,
                expected: ExpectedLenView::Exact(1),
                got: value@.len(),
            })
        } else {
            match layout::percent_of(field@, value@) {
                Ok(pct) => r matches Ok(x) && x == pct,
                Err(e) => r matches Err(x) && x@ == e,
            }
        },
{
    expect_exact(kind, value.len(), 1)?;
    let pct: u8 = value[0];
    check_percent(field, pct)?;
    Ok(pct)
}

/// The length as the 16 bits that count it on the wire, or an error where they
/// cannot.
pub fn u16_length(field: &'static str, len: usize) -> (r: Result<u16, CodecError>)
    ensures
        if len <= u16::MAX {
            r matches Ok(n) && n == len
        } else {
            r matches Err(e) && e@ == (CodecErrorView::OutOfRange {
                field: field@,
                value: len as u64,
            })
        },
{
    if len <= 65_535 {
        Ok(len as u16)
    } else {
        Err(CodecError::OutOfRange { field, value: len as u64 })
    }
}

fn check_heartbeat(ms: u128) -> (r: Result<(), CodecError>)
    ensures
        refused(r, layout::heartbeat_refusal(ms as nat)),
{
    if ms < MIN_HEARTBEAT_INTERVAL_MS as u128 || ms > 0xffff_ffff {
        let value: u64 = if ms <= 0xffff_ffff_ffff_ffff {
            ms as u64
        } else {
            u64::MAX
        };
        Err(CodecError::OutOfRange { field: field::HEARTBEAT_INTERVAL_MS, value })
    } else {
        Ok(())
    }
}

/// `N` octets of `value`, from position `at` on.
fn octets_at<const N: usize>(value: &[u8], at: usize) -> (r: [u8; N])
    requires
        at + N <= value@.len(),
    ensures
        r@ == value@.subrange(at as int, at + N),
        r == layout::array_of::<N>(value@.subrange(at as int, at + N)),
{
    let mut r: [u8; N] = [0u8;N];
    let mut i: usize = 0;
    let len: usize = value.len();
    while i < N
        invariant
            i <= N,
            at + N <= len,
            len == value@.len(),
            forall|j: int| 0 <= j < i ==> r@[j] == value@[at + j],
        decreases N - i,
    {
        r[i] = value[at + i];
        i = i + 1;
    }
    assert(r@ =~= value@.subrange(at as int, at + N));
    proof {
        layout::lemma_array_of(r);
    }
    r
}

impl RawDataItem {
    /// Append this data item to `out`: type, length and value. A value that 16
    /// bits cannot count the octets of is refused, and `out` left as it is.
    pub fn encode(&self, out: &mut BytesMut) -> (r: Result<(), CodecError>)
        requires
            buffer::buffer_content(*old(out)).len() + MAX_DATA_ITEM_LEN <= isize::MAX,
        ensures
            refused(r, DataItemView::Unknown(self@).refusal()),
            buffer::buffer_content(*final(out)) == if r is Ok {
                buffer::buffer_content(*old(out)) + DataItemView::Unknown(self@).encoding()
            } else {
                buffer::buffer_content(*old(out))
            },
    {
        let len: u16 = u16_length(field::DATA_ITEM_VALUE_LENGTH, self.value.len())?;
        proof {
            wire::lemma_be_len(self.type_id.0 as nat, 2);
            wire::lemma_be_len(len as nat, 2);
        }
        buffer::put_u16(out, self.type_id.0);
        buffer::put_u16(out, len);
        buffer::put_slice(out, buffer::bytes_slice(&self.value));
        assert(buffer::buffer_content(*out) =~= buffer::buffer_content(*old(out))
            + DataItemView::Unknown(self@).encoding());
        Ok(())
    }

    /// Take the data item at the head of `src`. On success `src` is what
    /// follows it. A header that is cut short is left in place; one that
    /// promises more octets than follow is consumed.
    pub fn decode(src: &mut Bytes) -> (r: Result<Self, CodecError>)
        ensures
            match layout::raw_at(buffer::bytes_content(*old(src))) {
                Ok((raw, rest)) => r matches Ok(x) && x@ == raw && buffer::bytes_content(
                    *final(src),
                ) == rest,
                Err(e) => r matches Err(x) && x@ == e && buffer::bytes_content(*final(src))
                    == if buffer::bytes_content(*old(src)).len() < 4 {
                    buffer::bytes_content(*old(src))
                } else {
                    buffer::bytes_content(*old(src)).skip(4)
                },
            },
    {
        let ghost octets = buffer::bytes_content(*src);
        ensure_len(src.len(), 4)?;
        let type_id = DataItemType(buffer::get_u16(src));
        let len: usize = buffer::get_u16(src) as usize;
        proof {
            assert(octets.skip(2).take(2) =~= octets.subrange(2, 4));
            assert(octets.skip(2).skip(2) =~= octets.skip(4));
        }
        ensure_len(src.len(), len)?;
        let value = src.split_to(len);
        Ok(RawDataItem { type_id, value })
    }
}

/// The value of every data item but text, extension ids and unknown ones has
/// at most nineteen octets.
proof fn lemma_value_len(item: DataItemView)
    ensures
        !(item is Status || item is PeerType || item is ExtensionsSupported || item is Unknown)
            ==> item.value().len() <= 19,
{
    match item {
        DataItemView::Ipv4ConnectionPoint { port, .. } => {
            if let Some(p) = port {
                wire::lemma_be_len(p as nat, 2);
            }
        },
        DataItemView::Ipv6ConnectionPoint { port, .. } => {
            if let Some(p) = port {
                wire::lemma_be_len(p as nat, 2);
            }
        },
        DataItemView::HeartbeatInterval(d) => wire::lemma_be_len(layout::millis(d), 4),
        DataItemView::MaxDataRateReceive(bps) => wire::lemma_be_len(bps as nat, 8),
        DataItemView::MaxDataRateTransmit(bps) => wire::lemma_be_len(bps as nat, 8),
        DataItemView::CurrentDataRateReceive(bps) => wire::lemma_be_len(bps as nat, 8),
        DataItemView::CurrentDataRateTransmit(bps) => wire::lemma_be_len(bps as nat, 8),
        DataItemView::Latency(d) => wire::lemma_be_len(layout::micros(d), 8),
        DataItemView::Mtu(mtu) => wire::lemma_be_len(mtu as nat, 2),
        _ => {},
    }
}

/// Append extension ids, two octets each.
fn put_ids(out: &mut BytesMut, ids: &Vec<ExtensionId>)
    requires
        2 * ids@.len() <= u16::MAX,
        buffer::buffer_content(*old(out)).len() + MAX_DATA_ITEM_LEN <= isize::MAX + 4,
    ensures
        buffer::buffer_content(*final(out)) == buffer::buffer_content(*old(out))
            + layout::id_octets(ids@),
{
    let mut i: usize = 0;
    assert(buffer::buffer_content(*out) =~= buffer::buffer_content(*out) + layout::id_octets(
        ids@.take(0),
    ));
    while i < ids.len()
        invariant
            i <= ids@.len(),
            2 * ids@.len() <= u16::MAX,
            buffer::buffer_content(*old(out)).len() + MAX_DATA_ITEM_LEN <= isize::MAX + 4,
            buffer::buffer_content(*out) == buffer::buffer_content(*old(out)) + layout::id_octets(
                ids@.take(i as int),
            ),
        decreases ids.len() - i,
    {
        proof {
            layout::lemma_id_octets_len(ids@.take(i as int));
            let next = ids@.take(i + 1);
            assert(next.drop_last() =~= ids@.take(i as int));
        }
        buffer::put_u16(out, ids[i].0);
        i = i + 1;
        assert(buffer::buffer_content(*out) =~= buffer::buffer_content(*old(out))
            + layout::id_octets(ids@.take(i as int)));
    }
    assert(ids@.take(i as int) =~= ids@);
}

impl DataItem {
    /// Append this data item to `out`: type, length and value. When the data
    /// item has no wire form, `out` is left as it was.
    ///
    /// Without a wire form are percentages above 100, heartbeat intervals below
    /// one second or beyond 32 bits of milliseconds, latencies beyond 64 bits
    /// of microseconds, and values too long for a 16-bit length. An attached
    /// subnet is written as its network address: host bits are cleared.
    pub fn encode(&self, out: &mut BytesMut) -> (r: Result<(), CodecError>)
        requires
            buffer::buffer_content(*old(out)).len() + MAX_DATA_ITEM_LEN <= isize::MAX,
        ensures
            refused(r, self@.refusal()),
            buffer::buffer_content(*final(out)) == if r is Ok {
                buffer::buffer_content(*old(out)) + self@.encoding()
            } else {
                buffer::buffer_content(*old(out))
            },
    {
        let restore_to: usize = out.len();
        match self.encode_into(out) {
            Ok(()) => Ok(()),
            Err(e) => {
                out.truncate(restore_to);
                Err(e)
            },
        }
    }

    /// Append this data item to `out`, or a part of it when it has no wire
    /// form.
    fn encode_into(&self, out: &mut BytesMut) -> (r: Result<(), CodecError>)
        requires
            buffer::buffer_content(*old(out)).len() + MAX_DATA_ITEM_LEN <= isize::MAX,
        ensures
            refused(r, self@.refusal()),
            r is Ok ==> buffer::buffer_content(*final(out)) == buffer::buffer_content(*old(out))
                + self@.encoding(),
            buffer::buffer_content(*old(out)).is_prefix_of(buffer::buffer_content(*final(out))),
    {
        let ghost before = buffer::buffer_content(*out);
        if let DataItem::Unknown(raw) = self {
            return raw.encode(out);
        }
        // The length of text and of extension ids is known beforehand: a value
        // that is too long is refused before any of it is copied.

        if let Some(projected) = self.projected_value_len() {
            u16_length(field::DATA_ITEM_VALUE_LENGTH, projected)?;
        }
        proof {
            lemma_value_len(self@);
            wire::lemma_be_len(self@.type_id().0 as nat, 2);
            wire::lemma_be_len(0, 2);
            wire::lemma_be_len(self@.value().len(), 2);
        }
        // The length is written as zero first and set when the value is there.
        buffer::put_u16(out, self.type_id().0);
        let len_pos: usize = out.len();
        buffer::put_u16(out, 0);
        let value_start: usize = out.len();
        self.encode_value(out)?;
        let value_len: usize = out.len() - value_start;
        let len: u16 = u16_length(field::DATA_ITEM_VALUE_LENGTH, value_len)?;
        buffer::set_u16(out, len_pos, len);
        assert(buffer::buffer_content(*out) =~= before + self@.encoding());
        Ok(())
    }

    /// Append the value of this data item to `out`, or a part of it when it
    /// has no wire form.
    fn encode_value(&self, out: &mut BytesMut) -> (r: Result<(), CodecError>)
        requires
            self !is Unknown,
            self@.value().len() <= u16::MAX,
            buffer::buffer_content(*old(out)).len() + u16::MAX <= isize::MAX,
        ensures
            refused(r, self@.refusal()),
            r is Ok ==> buffer::buffer_content(*final(out)) == buffer::buffer_content(*old(out))
                + self@.value(),
            buffer::buffer_content(*old(out)).is_prefix_of(buffer::buffer_content(*final(out))),
    {
        let ghost before = buffer::buffer_content(*out);
        match self {
            DataItem::Status { code, text } => {
                buffer::put_u8(out, code.0);
                buffer::put_slice(out, text.as_str().as_bytes());
            },
            DataItem::Ipv4ConnectionPoint { flags, addr, port } => {
                buffer::put_u8(out, encode_cp_flags(*flags));
                buffer::put_slice(out, addr.octets.as_slice());
                if let Some(p) = port {
                    buffer::put_u16(out, *p);
                }
            },
            DataItem::Ipv6ConnectionPoint { flags, addr, port } => {
                buffer::put_u8(out, encode_cp_flags(*flags));
                buffer::put_slice(out, addr.octets.as_slice());
                if let Some(p) = port {
                    buffer::put_u16(out, *p);
                }
            },
            DataItem::PeerType { flags, description } => {
                buffer::put_u8(out, encode_peer_flags(*flags));
                buffer::put_slice(out, description.as_str().as_bytes());
            },
            DataItem::HeartbeatInterval(d) => {
                let ms: u128 = d.as_millis();
                check_heartbeat(ms)?;
                buffer::put_u32(out, ms as u32);
            },
            DataItem::ExtensionsSupported(ids) => {
                proof {
                    layout::lemma_id_octets_len(ids@);
                }
                put_ids(out, ids);
            },
            DataItem::MacAddress(mac) => {
                buffer::put_slice(out, mac.as_bytes());
            },
            DataItem::Ipv4Address { add, addr } => {
                buffer::put_u8(out, flag_to_octet(*add));
                buffer::put_slice(out, addr.octets.as_slice());
            },
            DataItem::Ipv6Address { add, addr } => {
                buffer::put_u8(out, flag_to_octet(*add));
                buffer::put_slice(out, addr.octets.as_slice());
            },
            DataItem::Ipv4AttachedSubnet { add, subnet } => {
                buffer::put_u8(out, flag_to_octet(*add));
                buffer::put_slice(out, subnet.network().octets.as_slice());
                buffer::put_u8(out, subnet.prefix_len());
            },
            DataItem::Ipv6AttachedSubnet { add, subnet } => {
                buffer::put_u8(out, flag_to_octet(*add));
                buffer::put_slice(out, subnet.network().octets.as_slice());
                buffer::put_u8(out, subnet.prefix_len());
            },
            DataItem::MaxDataRateReceive(bps) => {
                buffer::put_u64(out, *bps);
            },
            DataItem::MaxDataRateTransmit(bps) => {
                buffer::put_u64(out, *bps);
            },
            DataItem::CurrentDataRateReceive(bps) => {
                buffer::put_u64(out, *bps);
            },
            DataItem::CurrentDataRateTransmit(bps) => {
                buffer::put_u64(out, *bps);
            },
            DataItem::Latency(d) => {
                let us: u128 = d.as_micros();
                if us > 0xffff_ffff_ffff_ffff {
                    return Err(
                        CodecError::OutOfRange { field: field::LATENCY_US, value: u64::MAX },
                    );
                }
                buffer::put_u64(out, us as u64);
            },
            DataItem::Resources(pct) => {
                check_percent(field::RESOURCES, *pct)?;
                buffer::put_u8(out, *pct);
            },
            DataItem::RelativeLinkQualityReceive(pct) => {
                check_percent(field::RLQ_RECEIVE, *pct)?;
                buffer::put_u8(out, *pct);
            },
            DataItem::RelativeLinkQualityTransmit(pct) => {
                check_percent(field::RLQ_TRANSMIT, *pct)?;
                buffer::put_u8(out, *pct);
            },
            DataItem::Mtu(mtu) => {
                buffer::put_u16(out, *mtu);
            },
            DataItem::Unknown(_) => {},
        }
        assert(buffer::buffer_content(*out) =~= before + self@.value());
        Ok(())
    }

    /// Length of the value where it depends on the length of text or of a
    /// list; `None` where the value is short whatever it holds.
    fn projected_value_len(&self) -> (r: Option<usize>)
        ensures
            r is Some <==> (self is Status || self is PeerType || self is ExtensionsSupported),
            r matches Some(n) ==> n == if self@.value().len() <= usize::MAX {
                self@.value().len()
            } else {
                usize::MAX as nat
            },
    {
        match self {
            DataItem::Status { text, .. } => Some(text.as_str().as_bytes().len().saturating_add(1)),
            DataItem::PeerType { description, .. } => Some(
                description.as_str().as_bytes().len().saturating_add(1),
            ),
            DataItem::ExtensionsSupported(ids) => {
                proof {
                    layout::lemma_id_octets_len(ids@);
                }
                match ids.len().checked_mul(2) {
                    Some(n) => Some(n),
                    None => Some(usize::MAX),
                }
            },
            _ => None,
        }
    }
}

/// Text from its octets.
fn text_from(octets: &[u8]) -> (r: Result<String, CodecError>)
    ensures
        agrees(r, layout::text_of(octets@)),
{
    let mut owned: Vec<u8> = Vec::new();
    owned.extend_from_slice(octets);
    assert(owned@ =~= octets@);
    match String::from_utf8(owned) {
        Ok(text) => Ok(text),
        Err(e) => Err(CodecError::InvalidUtf8(e)),
    }
}

/// Extension ids from their octets, two each.
fn ids_from(v: &[u8]) -> (r: Vec<ExtensionId>)
    requires
        v@.len() % 2 == 0,
    ensures
        r@ == layout::ids_of(v@),
{
    let len: usize = v.len();
    let mut ids: Vec<ExtensionId> = Vec::with_capacity(len / 2);
    let mut i: usize = 0;
    while i < len
        invariant
            len == v@.len(),
            len % 2 == 0,
            i % 2 == 0,
            i <= len,
            ids@.len() == i / 2,
            forall|j: int| 0 <= j < ids@.len() ==> ids@[j] == layout::ids_of(v@)[j],
        decreases len - i,
    {
        let id = ExtensionId(wire::u16_from_be(v[i], v[i + 1]));
        proof {
            assert(v@.subrange(i as int, i + 2) =~= seq![v@[i as int], v@[i + 1]]);
            assert(2 * (i as int / 2) == i);
        }
        ids.push(id);
        i = i + 2;
    }
    assert(ids@ =~= layout::ids_of(v@));
    ids
}

/// The port behind an address of `width` octets and its flags, if there is one.
fn port_from(v: &[u8], width: usize) -> (r: Option<u16>)
    requires
        width <= 16,
        v@.len() == width + 1 || v@.len() == width + 3,
    ensures
        r == layout::port_of(v@, width as int),
{
    if v.len() == width + 3 {
        assert(v@.skip(width + 1) =~= seq![v@[width + 1], v@[width + 2]]);
        Some(wire::u16_from_be(v[width + 1], v[width + 2]))
    } else {
        None
    }
}

impl DataItem {
    /// The typed form of a data item. A type id that is not known gives
    /// `Unknown`; a length or a value that the type does not permit is an
    /// error. Host bits of an attached subnet are cleared, so what is held in
    /// memory is what `encode` would write.
    pub fn decode(raw: RawDataItem) -> (r: Result<Self, CodecError>)
        ensures
            agrees(r, raw@.meaning()),
    {
        let kind = raw.type_id;
        let code: u16 = kind.0;
        let v: &[u8] = buffer::bytes_slice(&raw.value);
        let len: usize = v.len();
        proof {
            assert(v@.take(v@.len() as int) =~= v@);
            wire::lemma_widths();
            wire::lemma_be_of_from_be(v@);
        }
        if code == DataItemType::STATUS {
            if len < 1 {
                return Err(
                    CodecError::InvalidDataItemLength {
                        kind,
                        expected: ExpectedLen::AtLeast(1),
                        got: len,
                    },
                );
            }
            assert(v@.subrange(1, len as int) =~= v@.skip(1));
            let status = StatusCode(v[0]);
            let text = text_from(&v[1..len])?;
            Ok(DataItem::Status { code: status, text })
        } else if code == DataItemType::IPV4_CONNECTION_POINT {
            if len != 5 && len != 7 {
                let lens: &'static [usize] = &[5, 7];
                assert(lens@ =~= seq![5usize, 7]);
                return Err(
                    CodecError::InvalidDataItemLength {
                        kind,
                        expected: ExpectedLen::OneOf(lens),
                        got: len,
                    },
                );
            }
            proof {
                layout::lemma_one_of(
                    seq![5usize, 7],
                    if len == 5 {
                        0
                    } else {
                        1
                    },
                );
            }
            Ok(
                DataItem::Ipv4ConnectionPoint {
                    flags: decode_cp_flags(v[0]),
                    addr: Ipv4Addr { octets: octets_at(v, 1) },
                    port: port_from(v, 4),
                },
            )
        } else if code == DataItemType::IPV6_CONNECTION_POINT {
            if len != 17 && len != 19 {
                let lens: &'static [usize] = &[17, 19];
                assert(lens@ =~= seq![17usize, 19]);
                return Err(
                    CodecError::InvalidDataItemLength {
                        kind,
                        expected: ExpectedLen::OneOf(lens),
                        got: len,
                    },
                );
            }
            proof {
                layout::lemma_one_of(
                    seq![17usize, 19],
                    if len == 17 {
                        0
                    } else {
                        1
                    },
                );
            }
            Ok(
                DataItem::Ipv6ConnectionPoint {
                    flags: decode_cp_flags(v[0]),
                    addr: Ipv6Addr { octets: octets_at(v, 1) },
                    port: port_from(v, 16),
                },
            )
        } else if code == DataItemType::PEER_TYPE {
            if len < 1 {
                return Err(
                    CodecError::InvalidDataItemLength {
                        kind,
                        expected: ExpectedLen::AtLeast(1),
                        got: len,
                    },
                );
            }
            assert(v@.subrange(1, len as int) =~= v@.skip(1));
            let flags = decode_peer_flags(v[0]);
            let description = text_from(&v[1..len])?;
            Ok(DataItem::PeerType { flags, description })
        } else if code == DataItemType::HEARTBEAT_INTERVAL {
            expect_exact(kind, len, 4)?;
            let ms: u32 = wire::read_u32_be(v);
            check_heartbeat(ms as u128)?;
            Ok(DataItem::HeartbeatInterval(Duration::from_millis(ms as u64)))
        } else if code == DataItemType::EXTENSIONS_SUPPORTED {
            if len % 2 != 0 {
                return Err(
                    CodecError::InvalidDataItemLength {
                        kind,
                        expected: ExpectedLen::Multiple(2),
                        got: len,
                    },
                );
            }
            Ok(DataItem::ExtensionsSupported(ids_from(v)))
        } else if code == DataItemType::MAC_ADDRESS {
            // Exactly six octets (EUI-48).
            expect_exact(kind, len, 6)?;
            assert(v@.subrange(0, 6) =~= v@);
            Ok(DataItem::MacAddress(MacAddress::Eui48(octets_at(v, 0))))
        } else if code == DataItemType::IPV4_ADDRESS {
            expect_exact(kind, len, 5)?;
            assert(v@.subrange(1, 5) =~= v@.skip(1));
            Ok(
                DataItem::Ipv4Address {
                    add: flag_from_octet(v[0]),
                    addr: Ipv4Addr { octets: octets_at(v, 1) },
                },
            )
        } else if code == DataItemType::IPV6_ADDRESS {
            expect_exact(kind, len, 17)?;
            assert(v@.subrange(1, 17) =~= v@.skip(1));
            Ok(
                DataItem::Ipv6Address {
                    add: flag_from_octet(v[0]),
                    addr: Ipv6Addr { octets: octets_at(v, 1) },
                },
            )
        } else if code == DataItemType::IPV4_ATTACHED_SUBNET {
            expect_exact(kind, len, 6)?;
            let add = flag_from_octet(v[0]);
            let addr = Ipv4Addr { octets: octets_at(v, 1) };
            let prefix: u8 = v[5];
            match Ipv4Net::new(addr, prefix) {
                Some(net) => {
                    let subnet = net.trunc();
                    proof {
                        layout::lemma_array_of(subnet@.addr.octets);
                    }
                    Ok(DataItem::Ipv4AttachedSubnet { add, subnet })
                },
                None => Err(
                    CodecError::OutOfRange {
                        field: field::IPV4_ATTACHED_SUBNET_PREFIX,
                        value: prefix as u64,
                    },
                ),
            }
        } else if code == DataItemType::IPV6_ATTACHED_SUBNET {
            expect_exact(kind, len, 18)?;
            let add = flag_from_octet(v[0]);
            let addr = Ipv6Addr { octets: octets_at(v, 1) };
            let prefix: u8 = v[17];
            match Ipv6Net::new(addr, prefix) {
                Some(net) => {
                    let subnet = net.trunc();
                    proof {
                        layout::lemma_array_of(subnet@.addr.octets);
                    }
                    Ok(DataItem::Ipv6AttachedSubnet { add, subnet })
                },
                None => Err(
                    CodecError::OutOfRange {
                        field: field::IPV6_ATTACHED_SUBNET_PREFIX,
                        value: prefix as u64,
                    },
                ),
            }
        } else if code == DataItemType::MAXIMUM_DATA_RATE_RECEIVE {
            expect_exact(kind, len, 8)?;
            Ok(DataItem::MaxDataRateReceive(wire::read_u64_be(v)))
        } else if code == DataItemType::MAXIMUM_DATA_RATE_TRANSMIT {
            expect_exact(kind, len, 8)?;
            Ok(DataItem::MaxDataRateTransmit(wire::read_u64_be(v)))
        } else if code == DataItemType::CURRENT_DATA_RATE_RECEIVE {
            expect_exact(kind, len, 8)?;
            Ok(DataItem::CurrentDataRateReceive(wire::read_u64_be(v)))
        } else if code == DataItemType::CURRENT_DATA_RATE_TRANSMIT {
            expect_exact(kind, len, 8)?;
            Ok(DataItem::CurrentDataRateTransmit(wire::read_u64_be(v)))
        } else if code == DataItemType::LATENCY {
            expect_exact(kind, len, 8)?;
            Ok(DataItem::Latency(Duration::from_micros(wire::read_u64_be(v))))
        } else if code == DataItemType::RESOURCES {
            Ok(DataItem::Resources(decode_percent(kind, v, field::RESOURCES)?))
        } else if code == DataItemType::RELATIVE_LINK_QUALITY_RECEIVE {
            Ok(DataItem::RelativeLinkQualityReceive(decode_percent(kind, v, field::RLQ_RECEIVE)?))
        } else if code == DataItemType::RELATIVE_LINK_QUALITY_TRANSMIT {
            Ok(DataItem::RelativeLinkQualityTransmit(decode_percent(kind, v, field::RLQ_TRANSMIT)?))
        } else if code == DataItemType::MTU {
            expect_exact(kind, len, 2)?;
            assert(v@ =~= seq![v@[0], v@[1]]);
            Ok(DataItem::Mtu(wire::u16_from_be(v[0], v[1])))
        } else {
            Ok(DataItem::Unknown(raw))
        }
    }
}

/// What a list of data items says grows with the list.
proof fn lemma_item_views_take(items: Seq<DataItem>, i: int)
    requires
        0 <= i < items.len(),
    ensures
        data_item::item_views(items).take(i + 1).drop_last() == data_item::item_views(items).take(
            i,
        ),
        data_item::item_views(items).take(i + 1).last() == items[i]@,
{
    assert(data_item::item_views(items).take(i + 1).drop_last() =~= data_item::item_views(
        items,
    ).take(i));
}

/// The refusal of a data item in front is the refusal of the whole list.
proof fn lemma_first_refusal_stays(items: Seq<DataItemView>, i: int)
    requires
        0 <= i <= items.len(),
        layout::first_refusal(items.take(i)) is Some,
    ensures
        layout::first_refusal(items) == layout::first_refusal(items.take(i)),
    decreases items.len() - i,
{
    if i < items.len() {
        assert(items.take(i + 1).drop_last() =~= items.take(i));
        lemma_first_refusal_stays(items, i + 1);
    } else {
        assert(items.take(i) =~= items);
    }
}

/// The body that a list of data items makes, or why it has no wire form.
/// `field` is what an error calls a body that is too long for its length to be
/// written in 16 bits.
fn encode_body(items: &Vec<DataItem>, field: &'static str) -> (r: Result<BytesMut, CodecError>)
    ensures
        match layout::framed_body(data_item::item_views(items@), field@) {
            Ok(body) => r matches Ok(b) && buffer::buffer_content(b) == body,
            Err(e) => r matches Err(x) && x@ == e,
        },
{
    let ghost views = data_item::item_views(items@);
    let mut body = BytesMut::new();
    // Octets of all the data items so far. Beyond the limit nothing is kept of
    // them, but a refusal further back still has precedence.
    let mut total: u64 = 0;
    let mut i: usize = 0;
    assert(views.take(0) =~= Seq::<DataItemView>::empty());
    assert(buffer::buffer_content(body) =~= layout::body_of(views.take(0)));
    while i < items.len()
        invariant
            views == data_item::item_views(items@),
            i <= items@.len(),
            layout::first_refusal(views.take(i as int)) is None,
            total == layout::reported(layout::body_of(views.take(i as int)).len(), u64::MAX as nat),
            buffer::buffer_content(body).len() <= u16::MAX,
            total <= u16::MAX ==> buffer::buffer_content(body) == layout::body_of(
                views.take(i as int),
            ),
        decreases items.len() - i,
    {
        proof {
            lemma_item_views_take(items@, i as int);
        }
        let before: usize = body.len();
        let outcome = items[i].encode(&mut body);
        if let Err(e) = outcome {
            proof {
                lemma_first_refusal_stays(views, i + 1);
            }
            return Err(e);
        }
        let ghost added = items@[i as int]@.encoding();
        assert(layout::body_of(views.take(i + 1)) == layout::body_of(views.take(i as int)) + added);
        total = total.saturating_add((body.len() - before) as u64);
        if total > 65_535 {
            body.truncate(before);
        }
        i = i + 1;
    }
    assert(views.take(i as int) =~= views);
    if total > 65_535 {
        return Err(CodecError::OutOfRange { field, value: total });
    }
    Ok(body)
}

/// The data items of a body, up to its last octet.
fn decode_body(src: Bytes) -> (r: Result<Vec<DataItem>, CodecError>)
    ensures
        match layout::items_of(buffer::bytes_content(src)) {
            Ok(items) => r matches Ok(x) && data_item::item_views(x@) == items,
            Err(e) => r matches Err(x) && x@ == e,
        },
{
    let ghost all = buffer::bytes_content(src);
    let mut body = src;
    let mut data_items: Vec<DataItem> = Vec::new();
    assert(Seq::<DataItemView>::empty() =~= data_item::item_views(data_items@));
    while body.len() > 0
        invariant
            all == buffer::bytes_content(src),
            match layout::items_of(buffer::bytes_content(body)) {
                Ok(rest) => layout::items_of(all) == Ok::<Seq<DataItemView>, CodecErrorView>(
                    data_item::item_views(data_items@) + rest,
                ),
                Err(e) => layout::items_of(all) == Err::<Seq<DataItemView>, CodecErrorView>(e),
            },
        decreases buffer::bytes_content(body).len(),
    {
        let ghost done = data_item::item_views(data_items@);
        let raw = match RawDataItem::decode(&mut body) {
            Ok(raw) => raw,
            Err(e) => {
                return Err(e);
            },
        };
        let item = match DataItem::decode(raw) {
            Ok(item) => item,
            Err(e) => {
                return Err(e);
            },
        };
        data_items.push(item);
        proof {
            assert(data_item::item_views(data_items@) =~= done.push(item@));
            if let Ok(rest) = layout::items_of(buffer::bytes_content(body)) {
                assert(done + (seq![item@] + rest) =~= done.push(item@) + rest);
            }
        }
    }
    proof {
        assert(layout::items_of(buffer::bytes_content(body)) == Ok::<
            Seq<DataItemView>,
            CodecErrorView,
        >(Seq::empty()));
        assert(data_item::item_views(data_items@) + Seq::<DataItemView>::empty()
            =~= data_item::item_views(data_items@));
    }
    Ok(data_items)
}

/// The data items behind a header that ends with their length.
fn decode_items_behind(src: Bytes) -> (r: Result<Vec<DataItem>, CodecError>)
    requires
        buffer::bytes_content(src).len() >= 2,
    ensures
        match layout::items_behind(buffer::bytes_content(src)) {
            Ok(items) => r matches Ok(x) && data_item::item_views(x@) == items,
            Err(e) => r matches Err(x) && x@ == e,
        },
{
    let mut src = src;
    let declared: usize = buffer::get_u16(&mut src) as usize;
    let remaining: usize = src.len();
    if remaining < declared {
        return Err(CodecError::LengthMismatch { declared, remaining });
    }
    decode_body(src.split_to(declared))
}

impl Signal {
    /// The octets of this signal, in a fresh buffer, or why it has no wire
    /// form.
    pub fn encode(&self) -> (r: Result<BytesMut, CodecError>)
        ensures
            match self@.wire_form() {
                Ok(octets) => r matches Ok(b) && buffer::buffer_content(b) == octets,
                Err(e) => r matches Err(x) && x@ == e,
            },
    {
        let body = encode_body(&self.data_items, field::SIGNAL_BODY_LENGTH)?;
        let body_len: u16 = u16_length(field::SIGNAL_BODY_LENGTH, body.len())?;
        proof {
            wire::lemma_be_len(self.signal_type.0 as nat, 2);
            wire::lemma_be_len(body_len as nat, 2);
        }
        let mut out = BytesMut::with_capacity(SIGNAL_HEADER_LEN + body.len());
        let prefix: [u8; 4] = SIGNAL_PREFIX;
        buffer::put_slice(&mut out, prefix.as_slice());
        buffer::put_u16(&mut out, self.signal_type.0);
        buffer::put_u16(&mut out, body_len);
        buffer::put_buffer(&mut out, body);
        assert(buffer::buffer_content(out) =~= SIGNAL_PREFIX@ + wire::be(
            self.signal_type.0 as nat,
            2,
        ) + wire::be(body_len as nat, 2) + buffer::buffer_content(body));
        Ok(out)
    }

    /// The signal that `src` begins with, or why there is none.
    pub fn decode(src: Bytes) -> (r: Result<Self, CodecError>)
        ensures
            agrees(r, SignalView::read(buffer::bytes_content(src))),
    {
        let ghost octets = buffer::bytes_content(src);
        let mut src = src;
        ensure_len(src.len(), SIGNAL_HEADER_LEN)?;
        let prefix: [u8; 4] = buffer::copy_four(&mut src);
        let expected: [u8; 4] = SIGNAL_PREFIX;
        if !crate::proto::mac::octets_equal(&prefix, &expected) {
            assert(prefix@ != SIGNAL_PREFIX@) by {
                if prefix@ == SIGNAL_PREFIX@ {
                    assert(prefix =~= expected);
                }
            }
            return Err(CodecError::MissingSignalPrefix);
        }
        let signal_type = SignalType(buffer::get_u16(&mut src));
        proof {
            assert(octets.skip(4).take(2) =~= octets.subrange(4, 6));
            assert(octets.skip(4).skip(2) =~= octets.skip(6));
        }
        let data_items = decode_items_behind(src)?;
        Ok(Signal { signal_type, data_items })
    }
}

impl Message {
    /// The octets of this message, in a fresh buffer, or why it has no wire
    /// form.
    pub fn encode(&self) -> (r: Result<BytesMut, CodecError>)
        ensures
            match self@.wire_form() {
                Ok(octets) => r matches Ok(b) && buffer::buffer_content(b) == octets,
                Err(e) => r matches Err(x) && x@ == e,
            },
    {
        let body = encode_body(&self.data_items, field::MESSAGE_BODY_LENGTH)?;
        let body_len: u16 = u16_length(field::MESSAGE_BODY_LENGTH, body.len())?;
        proof {
            wire::lemma_be_len(self.message_type.0 as nat, 2);
            wire::lemma_be_len(body_len as nat, 2);
        }
        let mut out = BytesMut::with_capacity(MESSAGE_HEADER_LEN + body.len());
        buffer::put_u16(&mut out, self.message_type.0);
        buffer::put_u16(&mut out, body_len);
        buffer::put_buffer(&mut out, body);
        assert(buffer::buffer_content(out) =~= wire::be(self.message_type.0 as nat, 2) + wire::be(
            body_len as nat,
            2,
        ) + buffer::buffer_content(body));
        Ok(out)
    }

    /// The message that `src` begins with, or why there is none.
    pub fn decode(src: Bytes) -> (r: Result<Self, CodecError>)
        ensures
            agrees(r, MessageView::read(buffer::bytes_content(src))),
    {
        let mut src = src;
        ensure_len(src.len(), MESSAGE_HEADER_LEN)?;
        let message_type = MessageType(buffer::get_u16(&mut src));
        let data_items = decode_items_behind(src)?;
        Ok(Message { message_type, data_items })
    }
}

} // verus!
