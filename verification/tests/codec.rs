//! Octets and values of data items, signals and messages.

use bytes::{BufMut, Bytes, BytesMut};
use dlep::proto::addr::{Ipv4Addr, Ipv6Addr};
use dlep::proto::data_item::{ConnectionPointFlags, DataItem, PeerFlags, RawDataItem};
use dlep::proto::duration::Duration;
use dlep::proto::error::{CodecError, ExpectedLen};
use dlep::proto::ids::{DataItemType, ExtensionId, MessageType, SignalType};
use dlep::proto::mac::MacAddress;
use dlep::proto::message::Message;
use dlep::proto::signal::Signal;
use dlep::proto::status::StatusCode;
use dlep::proto::subnet::{Ipv4Net, Ipv6Net};

/// fe80::1
const FE80_1: Ipv6Addr = Ipv6Addr {
    octets: [0xfe, 0x80, 0, 0, 0, 0, 0, 0, 0, 0, 0, 0, 0, 0, 0, 1],
};

/// ::1
const LOCALHOST_V6: Ipv6Addr = Ipv6Addr {
    octets: [0, 0, 0, 0, 0, 0, 0, 0, 0, 0, 0, 0, 0, 0, 0, 1],
};

/// 2001:db8::
const DB8: Ipv6Addr = Ipv6Addr {
    octets: [0x20, 0x01, 0x0d, 0xb8, 0, 0, 0, 0, 0, 0, 0, 0, 0, 0, 0, 0],
};

/// 2001:db8::1
const DB8_1: Ipv6Addr = Ipv6Addr {
    octets: [0x20, 0x01, 0x0d, 0xb8, 0, 0, 0, 0, 0, 0, 0, 0, 0, 0, 0, 1],
};

/// 2001:db8::1234
const DB8_1234: Ipv6Addr = Ipv6Addr {
    octets: [0x20, 0x01, 0x0d, 0xb8, 0, 0, 0, 0, 0, 0, 0, 0, 0, 0, 0x12, 0x34],
};

fn encode_one(item: DataItem) -> Vec<u8> {
    let mut buf = BytesMut::new();
    item.encode(&mut buf).expect("encode should not fail");
    buf.to_vec()
}

fn decode_one(bytes: &[u8]) -> DataItem {
    let mut b = Bytes::copy_from_slice(bytes);
    let raw = RawDataItem::decode(&mut b).unwrap();
    DataItem::decode(raw).unwrap()
}

#[test]
fn empty_message_roundtrips() {
    let m = Message::new(MessageType(MessageType::HEARTBEAT));
    let bytes = m.encode().unwrap().freeze();
    let decoded = Message::decode(bytes).unwrap();
    assert_eq!(decoded.message_type, MessageType(MessageType::HEARTBEAT));
    assert!(decoded.data_items.is_empty());
}

#[test]
fn empty_signal_roundtrips() {
    let s = Signal::new(SignalType(SignalType::PEER_DISCOVERY));
    let bytes = s.encode().unwrap().freeze();
    let decoded = Signal::decode(bytes).unwrap();
    assert_eq!(decoded.signal_type, SignalType(SignalType::PEER_DISCOVERY));
}

#[test]
fn signal_rejects_bad_prefix() {
    let mut bad = BytesMut::from(&b"XLEP"[..]);
    bad.put_u16(1);
    bad.put_u16(0);
    let err = Signal::decode(bad.freeze()).unwrap_err();
    assert!(matches!(err, CodecError::MissingSignalPrefix));
}

// --- Per-variant byte-vector tests ---

#[test]
fn status_encodes_with_text() {
    let item = DataItem::Status {
        code: StatusCode(StatusCode::SUCCESS),
        text: "ok".into(),
    };
    // type=1, length=3, value=00 'o' 'k'
    assert_eq!(
        encode_one(item),
        vec![0x00, 0x01, 0x00, 0x03, 0x00, b'o', b'k']
    );
}

#[test]
fn status_roundtrips_terminate_code() {
    let item = DataItem::Status {
        code: StatusCode(StatusCode::TIMED_OUT),
        text: "deadline".into(),
    };
    let bytes = encode_one(item);
    let DataItem::Status { code, text } = decode_one(&bytes) else {
        panic!("wrong variant")
    };
    assert_eq!(code, StatusCode(StatusCode::TIMED_OUT));
    assert_eq!(text, "deadline");
}

#[test]
fn status_with_empty_text_roundtrips() {
    let item = DataItem::Status {
        code: StatusCode(StatusCode::SUCCESS),
        text: String::new(),
    };
    let bytes = encode_one(item);
    // type=1, length=1, value=00
    assert_eq!(bytes, vec![0x00, 0x01, 0x00, 0x01, 0x00]);
    let DataItem::Status { code, text } = decode_one(&bytes) else {
        panic!()
    };
    assert_eq!(code, StatusCode(StatusCode::SUCCESS));
    assert!(text.is_empty());
}

#[test]
fn status_with_zero_length_value_rejected() {
    let raw = RawDataItem {
        type_id: DataItemType(DataItemType::STATUS),
        value: Bytes::new(),
    };
    let err = DataItem::decode(raw).unwrap_err();
    assert!(matches!(
        err,
        CodecError::InvalidDataItemLength {
            kind: DataItemType(DataItemType::STATUS),
            ..
        }
    ));
}

#[test]
fn ipv4_connection_point_with_port_encodes() {
    let item = DataItem::Ipv4ConnectionPoint {
        flags: ConnectionPointFlags { use_tls: true },
        addr: Ipv4Addr::new(10, 0, 0, 1),
        port: Some(854),
    };
    // type=2, length=7, flags=01, addr=10.0.0.1, port=854 (0x0356)
    assert_eq!(
        encode_one(item),
        vec![0x00, 0x02, 0x00, 0x07, 0x01, 10, 0, 0, 1, 0x03, 0x56]
    );
}

#[test]
fn ipv4_connection_point_length_between_valid_forms_rejected() {
    // Valid lengths are 5 (no port) or 7 (with port). Length 6 is illegal
    // — but a strict "expected: 5" message would be misleading. Confirm
    // we report `OneOf([5, 7])`.
    let raw = RawDataItem {
        type_id: DataItemType(DataItemType::IPV4_CONNECTION_POINT),
        value: Bytes::from_static(&[0, 1, 2, 3, 4, 5]),
    };
    match DataItem::decode(raw).unwrap_err() {
        CodecError::InvalidDataItemLength {
            kind: DataItemType(DataItemType::IPV4_CONNECTION_POINT),
            expected: ExpectedLen::OneOf(&[5, 7]),
            got: 6,
        } => {}
        other => panic!("unexpected error: {other:?}"),
    }
}

#[test]
fn ipv6_connection_point_length_between_valid_forms_rejected() {
    let raw = RawDataItem {
        type_id: DataItemType(DataItemType::IPV6_CONNECTION_POINT),
        value: Bytes::from_static(&[0u8; 18]),
    };
    match DataItem::decode(raw).unwrap_err() {
        CodecError::InvalidDataItemLength {
            kind: DataItemType(DataItemType::IPV6_CONNECTION_POINT),
            expected: ExpectedLen::OneOf(&[17, 19]),
            got: 18,
        } => {}
        other => panic!("unexpected error: {other:?}"),
    }
}

#[test]
fn status_at_least_one_byte_error_carries_atleast() {
    let raw = RawDataItem {
        type_id: DataItemType(DataItemType::STATUS),
        value: Bytes::new(),
    };
    match DataItem::decode(raw).unwrap_err() {
        CodecError::InvalidDataItemLength {
            kind: DataItemType(DataItemType::STATUS),
            expected: ExpectedLen::AtLeast(1),
            got: 0,
        } => {}
        other => panic!("unexpected error: {other:?}"),
    }
}

#[test]
fn extensions_supported_odd_length_error_carries_multiple() {
    let raw = RawDataItem {
        type_id: DataItemType(DataItemType::EXTENSIONS_SUPPORTED),
        value: Bytes::from_static(&[0x00, 0x01, 0x00]),
    };
    match DataItem::decode(raw).unwrap_err() {
        CodecError::InvalidDataItemLength {
            kind: DataItemType(DataItemType::EXTENSIONS_SUPPORTED),
            expected: ExpectedLen::Multiple(2),
            got: 3,
        } => {}
        other => panic!("unexpected error: {other:?}"),
    }
}

#[test]
fn ipv4_connection_point_without_port_roundtrips() {
    let item = DataItem::Ipv4ConnectionPoint {
        flags: ConnectionPointFlags::default(),
        addr: Ipv4Addr::new(192, 168, 1, 1),
        port: None,
    };
    let bytes = encode_one(item);
    assert_eq!(bytes.len(), 4 + 5);
    let DataItem::Ipv4ConnectionPoint { flags, addr, port } = decode_one(&bytes) else {
        panic!()
    };
    assert!(!flags.use_tls);
    assert_eq!(addr, Ipv4Addr::new(192, 168, 1, 1));
    assert_eq!(port, None);
}

#[test]
fn ipv6_connection_point_with_port_roundtrips() {
    let item = DataItem::Ipv6ConnectionPoint {
        flags: ConnectionPointFlags { use_tls: true },
        addr: FE80_1,
        port: Some(854),
    };
    let bytes = encode_one(item);
    assert_eq!(bytes.len(), 4 + 19);
    let DataItem::Ipv6ConnectionPoint { flags, addr, port } = decode_one(&bytes) else {
        panic!()
    };
    assert!(flags.use_tls);
    assert_eq!(addr, FE80_1);
    assert_eq!(port, Some(854));
}

#[test]
fn ipv6_connection_point_without_port_roundtrips() {
    let item = DataItem::Ipv6ConnectionPoint {
        flags: ConnectionPointFlags::default(),
        addr: LOCALHOST_V6,
        port: None,
    };
    let bytes = encode_one(item);
    assert_eq!(bytes.len(), 4 + 17);
    let DataItem::Ipv6ConnectionPoint { port, .. } = decode_one(&bytes) else {
        panic!()
    };
    assert_eq!(port, None);
}

#[test]
fn peer_type_encodes() {
    let item = DataItem::PeerType {
        flags: PeerFlags { smi: true },
        description: "modem".into(),
    };
    // type=4, length=6, flags=01, "modem"
    assert_eq!(
        encode_one(item),
        vec![0x00, 0x04, 0x00, 0x06, 0x01, b'm', b'o', b'd', b'e', b'm']
    );
}

#[test]
fn peer_type_with_empty_description_roundtrips() {
    let item = DataItem::PeerType {
        flags: PeerFlags::default(),
        description: String::new(),
    };
    let bytes = encode_one(item);
    let DataItem::PeerType { flags, description } = decode_one(&bytes) else {
        panic!()
    };
    assert!(!flags.smi);
    assert!(description.is_empty());
}

#[test]
fn heartbeat_interval_encodes() {
    let item = DataItem::HeartbeatInterval(Duration::from_millis(60_000));
    // type=5, length=4, value=60000_u32_be (0x0000EA60)
    assert_eq!(
        encode_one(item),
        vec![0x00, 0x05, 0x00, 0x04, 0x00, 0x00, 0xEA, 0x60]
    );
}

#[test]
fn heartbeat_interval_overflow_rejected_on_encode() {
    let item = DataItem::HeartbeatInterval(Duration::from_secs(u64::MAX / 1000));
    let mut buf = BytesMut::new();
    let err = item.encode(&mut buf).unwrap_err();
    assert!(matches!(err, CodecError::OutOfRange { .. }));
    // On encode failure the buffer is restored to its starting length.
    assert!(buf.is_empty());
}

#[test]
fn heartbeat_interval_at_u32_max_encodes() {
    // u32::MAX milliseconds is the largest value the wire format can carry.
    let item = DataItem::HeartbeatInterval(Duration::from_millis(u32::MAX.into()));
    let bytes = encode_one(item);
    let DataItem::HeartbeatInterval(d) = decode_one(&bytes) else {
        panic!()
    };
    assert_eq!(d, Duration::from_millis(u32::MAX.into()));
}

#[test]
fn extensions_supported_encodes_three_ids() {
    let item = DataItem::ExtensionsSupported(vec![
        ExtensionId(1),
        ExtensionId(2),
        ExtensionId(0xFFFF),
    ]);
    // type=6, length=6, value=0001 0002 FFFF
    assert_eq!(
        encode_one(item),
        vec![0x00, 0x06, 0x00, 0x06, 0x00, 0x01, 0x00, 0x02, 0xFF, 0xFF]
    );
}

#[test]
fn extensions_supported_empty_roundtrips() {
    let item = DataItem::ExtensionsSupported(Vec::new());
    let bytes = encode_one(item);
    // type=6, length=0
    assert_eq!(bytes, vec![0x00, 0x06, 0x00, 0x00]);
    let DataItem::ExtensionsSupported(ids) = decode_one(&bytes) else {
        panic!()
    };
    assert!(ids.is_empty());
}

#[test]
fn extensions_supported_odd_length_rejected() {
    let raw = RawDataItem {
        type_id: DataItemType(DataItemType::EXTENSIONS_SUPPORTED),
        value: Bytes::from_static(&[0x00, 0x01, 0x00]),
    };
    let err = DataItem::decode(raw).unwrap_err();
    assert!(matches!(
        err,
        CodecError::InvalidDataItemLength {
            kind: DataItemType(DataItemType::EXTENSIONS_SUPPORTED),
            ..
        }
    ));
}

#[test]
fn mac_address_encodes() {
    let item = DataItem::MacAddress(MacAddress::new_eui48([0xDE, 0xAD, 0xBE, 0xEF, 0x00, 0x01]));
    // type=7, length=6
    assert_eq!(
        encode_one(item),
        vec![0x00, 0x07, 0x00, 0x06, 0xDE, 0xAD, 0xBE, 0xEF, 0x00, 0x01]
    );
}

#[test]
fn mac_address_wrong_length_rejected() {
    // EUI-48 only.
    let raw = RawDataItem {
        type_id: DataItemType(DataItemType::MAC_ADDRESS),
        value: Bytes::from_static(&[0u8; 8]),
    };
    assert!(matches!(
        DataItem::decode(raw).unwrap_err(),
        CodecError::InvalidDataItemLength { .. }
    ));
}

#[test]
fn ipv4_address_add_drop_flag_roundtrips() {
    let add = DataItem::Ipv4Address {
        add: true,
        addr: Ipv4Addr::new(1, 2, 3, 4),
    };
    let bytes = encode_one(add);
    assert_eq!(bytes, vec![0x00, 0x08, 0x00, 0x05, 0x01, 1, 2, 3, 4]);
    let DataItem::Ipv4Address { add, addr } = decode_one(&bytes) else {
        panic!()
    };
    assert!(add);
    assert_eq!(addr, Ipv4Addr::new(1, 2, 3, 4));

    let drop = DataItem::Ipv4Address {
        add: false,
        addr: Ipv4Addr::new(1, 2, 3, 4),
    };
    let bytes = encode_one(drop);
    assert_eq!(bytes[4], 0x00);
    let DataItem::Ipv4Address { add, .. } = decode_one(&bytes) else {
        panic!()
    };
    assert!(!add);
}

#[test]
fn ipv6_address_roundtrips() {
    let item = DataItem::Ipv6Address {
        add: true,
        addr: DB8_1,
    };
    let bytes = encode_one(item);
    assert_eq!(bytes.len(), 4 + 17);
    let DataItem::Ipv6Address { add, addr } = decode_one(&bytes) else {
        panic!()
    };
    assert!(add);
    assert_eq!(addr, DB8_1);
}

#[test]
fn ipv4_attached_subnet_encodes() {
    let item = DataItem::Ipv4AttachedSubnet {
        add: true,
        subnet: Ipv4Net::new(Ipv4Addr::new(10, 0, 0, 0), 24).unwrap(),
    };
    // type=10, length=6, flags=01, addr=10.0.0.0, prefix=24
    assert_eq!(
        encode_one(item),
        vec![0x00, 0x0A, 0x00, 0x06, 0x01, 10, 0, 0, 0, 24]
    );
}

#[test]
fn ipv4_attached_subnet_bad_prefix_rejected() {
    let raw = RawDataItem {
        type_id: DataItemType(DataItemType::IPV4_ATTACHED_SUBNET),
        // 33 is out of range for IPv4
        value: Bytes::from_static(&[0x01, 10, 0, 0, 0, 33]),
    };
    let err = DataItem::decode(raw).unwrap_err();
    assert!(matches!(err, CodecError::OutOfRange { .. }));
}

#[test]
fn ipv6_attached_subnet_roundtrips() {
    let item = DataItem::Ipv6AttachedSubnet {
        add: true,
        subnet: Ipv6Net::new(DB8, 32).unwrap(),
    };
    let bytes = encode_one(item);
    assert_eq!(bytes.len(), 4 + 18);
    let DataItem::Ipv6AttachedSubnet { add, subnet } = decode_one(&bytes) else {
        panic!()
    };
    assert!(add);
    assert_eq!(subnet, Ipv6Net::new(DB8, 32).unwrap());
}

#[test]
fn data_rate_variants_encode_as_u64() {
    let pairs = [
        (
            DataItem::MaxDataRateReceive(1_000_000_000),
            DataItemType(DataItemType::MAXIMUM_DATA_RATE_RECEIVE),
        ),
        (
            DataItem::MaxDataRateTransmit(1_000_000_000),
            DataItemType(DataItemType::MAXIMUM_DATA_RATE_TRANSMIT),
        ),
        (
            DataItem::CurrentDataRateReceive(500_000_000),
            DataItemType(DataItemType::CURRENT_DATA_RATE_RECEIVE),
        ),
        (
            DataItem::CurrentDataRateTransmit(500_000_000),
            DataItemType(DataItemType::CURRENT_DATA_RATE_TRANSMIT),
        ),
    ];
    for (item, ty) in pairs {
        let bytes = encode_one(item);
        assert_eq!(bytes.len(), 4 + 8);
        assert_eq!(u16::from_be_bytes([bytes[0], bytes[1]]), ty.0);
        assert_eq!(u16::from_be_bytes([bytes[2], bytes[3]]), 8);
    }
}

#[test]
fn latency_encodes_microseconds() {
    let item = DataItem::Latency(Duration::from_micros(0xDEAD_BEEF));
    let bytes = encode_one(item);
    // type=16, length=8
    assert_eq!(&bytes[..4], &[0x00, 0x10, 0x00, 0x08]);
    let DataItem::Latency(d) = decode_one(&bytes) else {
        panic!()
    };
    assert_eq!(d, Duration::from_micros(0xDEAD_BEEF));
}

#[test]
fn resources_encodes_single_byte() {
    let item = DataItem::Resources(75);
    // type=17, length=1, value=0x4B
    assert_eq!(encode_one(item), vec![0x00, 0x11, 0x00, 0x01, 0x4B]);
}

#[test]
fn resources_above_100_rejected_on_decode() {
    let raw = RawDataItem {
        type_id: DataItemType(DataItemType::RESOURCES),
        value: Bytes::from_static(&[150]),
    };
    let err = DataItem::decode(raw).unwrap_err();
    assert!(matches!(err, CodecError::OutOfRange { .. }));
}

#[test]
fn resources_above_100_rejected_on_encode() {
    let mut buf = BytesMut::new();
    let err = DataItem::Resources(150).encode(&mut buf).unwrap_err();
    assert!(matches!(err, CodecError::OutOfRange { .. }));
    // Buffer restored on error.
    assert!(buf.is_empty());
}

#[test]
fn rlq_above_100_rejected_on_encode() {
    for item in [
        DataItem::RelativeLinkQualityReceive(101),
        DataItem::RelativeLinkQualityTransmit(255),
    ] {
        let mut buf = BytesMut::new();
        let err = item.encode(&mut buf).unwrap_err();
        assert!(matches!(err, CodecError::OutOfRange { .. }));
        assert!(buf.is_empty());
    }
}

#[test]
fn latency_overflow_rejected_on_encode() {
    // Duration::from_nanos(Duration::MAX_NANOS) has more microseconds than fit in u64 — encode must
    // refuse rather than silently truncate. Buffer is restored on error,
    // including any pre-existing prefix.
    let mut buf = BytesMut::from(&b"prefix"[..]);
    let snapshot = buf.clone();
    let err = DataItem::Latency(Duration::from_nanos(Duration::MAX_NANOS))
        .encode(&mut buf)
        .unwrap_err();
    assert!(matches!(err, CodecError::OutOfRange { .. }));
    assert_eq!(buf, snapshot);
}

#[test]
fn heartbeat_interval_overflow_restores_nonempty_buffer() {
    // The HeartbeatInterval validation runs *after* the 4-byte TLV header
    // is written into `out` — confirm the wrapping `encode` undoes that
    // partial write even when `out` was non-empty going in.
    let mut buf = BytesMut::from(&b"existing"[..]);
    let snapshot = buf.clone();
    let item = DataItem::HeartbeatInterval(Duration::from_secs(u64::MAX / 1000));
    let err = item.encode(&mut buf).unwrap_err();
    assert!(matches!(err, CodecError::OutOfRange { .. }));
    assert_eq!(buf, snapshot);
}

#[test]
fn oversized_data_item_value_rejected() {
    // A Status with > 64 KiB of text overflows the 16-bit TLV length
    // field. Must surface as OutOfRange, not as a silently-truncated frame.
    let item = DataItem::Status {
        code: StatusCode(StatusCode::SUCCESS),
        text: "x".repeat(70_000),
    };
    let mut buf = BytesMut::new();
    let err = item.encode(&mut buf).unwrap_err();
    match err {
        CodecError::OutOfRange { field, value } => {
            assert_eq!(field, "data_item_value_length");
            assert!(value > u16::MAX as u64);
        }
        other => panic!("unexpected error: {other:?}"),
    }
    assert!(buf.is_empty());
}

#[test]
fn oversized_signal_body_rejected() {
    // Two large items together push the signal body past u16::MAX even
    // though each individual item fits. The frame-level length check must
    // catch this.
    let s = Signal::new(SignalType(SignalType::PEER_OFFER))
        .with_item(DataItem::Status {
            code: StatusCode(StatusCode::SUCCESS),
            text: "x".repeat(40_000),
        })
        .with_item(DataItem::Status {
            code: StatusCode(StatusCode::SUCCESS),
            text: "y".repeat(40_000),
        });
    match s.encode().unwrap_err() {
        CodecError::OutOfRange { field, .. } => {
            assert_eq!(field, "signal_body_length");
        }
        other => panic!("unexpected error: {other:?}"),
    }
}

#[test]
fn oversized_message_body_rejected() {
    let m = Message::new(MessageType(MessageType::SESSION_UPDATE))
        .with_item(DataItem::Status {
            code: StatusCode(StatusCode::SUCCESS),
            text: "x".repeat(40_000),
        })
        .with_item(DataItem::Status {
            code: StatusCode(StatusCode::SUCCESS),
            text: "y".repeat(40_000),
        });
    match m.encode().unwrap_err() {
        CodecError::OutOfRange { field, .. } => {
            assert_eq!(field, "message_body_length");
        }
        other => panic!("unexpected error: {other:?}"),
    }
}

#[test]
fn mtu_wrong_length_carries_exact() {
    // Round out the ExpectedLen variants: the three non-Exact forms have
    // direct assertions; this test pins the Exact(N) form too.
    let raw = RawDataItem {
        type_id: DataItemType(DataItemType::MTU),
        value: Bytes::from_static(&[0x05]),
    };
    match DataItem::decode(raw).unwrap_err() {
        CodecError::InvalidDataItemLength {
            kind: DataItemType(DataItemType::MTU),
            expected: ExpectedLen::Exact(2),
            got: 1,
        } => {}
        other => panic!("unexpected error: {other:?}"),
    }
}

#[test]
fn ipv4_attached_subnet_decode_normalizes_host_bits() {
    // Wire form carries `10.0.0.5/24` (host bits set). After decode, the
    // in-memory subnet must match the canonical `10.0.0.0/24`, so encode
    // and decode are symmetric. The `add` flag must survive truncation.
    let raw = RawDataItem {
        type_id: DataItemType(DataItemType::IPV4_ATTACHED_SUBNET),
        value: Bytes::from_static(&[0x01, 10, 0, 0, 5, 24]),
    };
    let DataItem::Ipv4AttachedSubnet { add, subnet } = DataItem::decode(raw).unwrap() else {
        panic!()
    };
    assert!(add);
    assert_eq!(subnet, Ipv4Net::new(Ipv4Addr::new(10, 0, 0, 0), 24).unwrap());
}

#[test]
fn ipv6_attached_subnet_decode_normalizes_host_bits() {
    // 2001:db8::1234/32 → 2001:db8::/32 after decode.
    let mut wire = vec![0x01u8];
    wire.extend_from_slice(&DB8_1234.octets);
    wire.push(32);
    let raw = RawDataItem {
        type_id: DataItemType(DataItemType::IPV6_ATTACHED_SUBNET),
        value: Bytes::from(wire),
    };
    let DataItem::Ipv6AttachedSubnet { add, subnet } = DataItem::decode(raw).unwrap() else {
        panic!()
    };
    assert!(add);
    assert_eq!(subnet, Ipv6Net::new(DB8, 32).unwrap());
}

#[test]
fn non_canonical_subnet_wire_bytes_round_trip_to_canonical() {
    // End-to-end contract: peer sends non-canonical subnet wire bytes,
    // we decode → re-encode, and the second wire form is canonical
    // (host bits zeroed). Locks in the symmetry property at the
    // boundary, not just inside decode and encode in isolation.
    let non_canonical = [0x01u8, 10, 0, 0, 5, 24];
    let canonical = [0x01u8, 10, 0, 0, 0, 24];

    let raw = RawDataItem {
        type_id: DataItemType(DataItemType::IPV4_ATTACHED_SUBNET),
        value: Bytes::copy_from_slice(&non_canonical),
    };
    let item = DataItem::decode(raw).unwrap();

    let mut out = BytesMut::new();
    item.encode(&mut out).unwrap();
    // Skip the 4-byte TLV header; compare just the value bytes.
    assert_eq!(&out[4..], &canonical[..]);
}

#[test]
fn oversized_peer_type_value_rejected() {
    let item = DataItem::PeerType {
        flags: PeerFlags::default(),
        description: "x".repeat(70_000),
    };
    let mut buf = BytesMut::new();
    let err = item.encode(&mut buf).unwrap_err();
    match err {
        CodecError::OutOfRange { field, value } => {
            assert_eq!(field, "data_item_value_length");
            assert!(value > u16::MAX as u64);
        }
        other => panic!("unexpected error: {other:?}"),
    }
    // Up-front check fires before any header is written.
    assert!(buf.is_empty());
}

#[test]
fn oversized_unknown_data_item_value_rejected() {
    // A value that 16 bits cannot count the octets of is refused, not cut.
    let item = DataItem::Unknown(RawDataItem {
        type_id: DataItemType(4242),
        value: Bytes::from(vec![0u8; 70_000]),
    });
    let mut buf = BytesMut::new();
    let err = item.encode(&mut buf).unwrap_err();
    match err {
        CodecError::OutOfRange { field, value } => {
            assert_eq!(field, "data_item_value_length");
            assert_eq!(value, 70_000);
        }
        other => panic!("unexpected error: {other:?}"),
    }
    // Buffer untouched on rejection.
    assert!(buf.is_empty());
}

#[test]
fn oversized_extensions_supported_value_rejected() {
    // > 32_768 ids overflows the 16-bit length field (each id is 2 bytes).
    let item = DataItem::ExtensionsSupported(vec![ExtensionId(0); 33_000]);
    let mut buf = BytesMut::new();
    let err = item.encode(&mut buf).unwrap_err();
    match err {
        CodecError::OutOfRange { field, value } => {
            assert_eq!(field, "data_item_value_length");
            assert!(value > u16::MAX as u64);
        }
        other => panic!("unexpected error: {other:?}"),
    }
    assert!(buf.is_empty());
}

#[test]
fn encode_failure_does_not_corrupt_existing_buffer() {
    // Pre-populate the buffer; encode failure must restore it byte-for-byte.
    let mut buf = BytesMut::from(&b"prefix"[..]);
    let snapshot = buf.clone();
    let err = DataItem::Resources(200).encode(&mut buf).unwrap_err();
    assert!(matches!(err, CodecError::OutOfRange { .. }));
    assert_eq!(buf, snapshot);
}

#[test]
fn signal_encode_propagates_data_item_error() {
    let s = Signal::new(SignalType(SignalType::PEER_OFFER)).with_item(DataItem::Resources(200));
    let err = s.encode().unwrap_err();
    assert!(matches!(err, CodecError::OutOfRange { .. }));
}

#[test]
fn message_encode_propagates_data_item_error() {
    let m = Message::new(MessageType(MessageType::SESSION_UPDATE))
        .with_item(DataItem::HeartbeatInterval(Duration::from_millis(1000)))
        .with_item(DataItem::RelativeLinkQualityReceive(120));
    let err = m.encode().unwrap_err();
    assert!(matches!(err, CodecError::OutOfRange { .. }));
}

#[test]
fn relative_link_quality_variants_roundtrip() {
    for v in [0u8, 50, 100] {
        let rx = DataItem::RelativeLinkQualityReceive(v);
        let DataItem::RelativeLinkQualityReceive(out) = decode_one(&encode_one(rx)) else {
            panic!()
        };
        assert_eq!(out, v);

        let tx = DataItem::RelativeLinkQualityTransmit(v);
        let DataItem::RelativeLinkQualityTransmit(out) = decode_one(&encode_one(tx)) else {
            panic!()
        };
        assert_eq!(out, v);
    }
}

#[test]
fn mtu_encodes() {
    let item = DataItem::Mtu(1500);
    // type=20, length=2, value=0x05DC
    assert_eq!(encode_one(item), vec![0x00, 0x14, 0x00, 0x02, 0x05, 0xDC]);
}

#[test]
fn unknown_data_item_passes_through() {
    // Unknown type id (4242) should round-trip verbatim through Unknown.
    let raw_in = RawDataItem {
        type_id: DataItemType(4242),
        value: Bytes::from_static(&[0xAA, 0xBB, 0xCC]),
    };
    let item = DataItem::decode(raw_in.clone()).unwrap();
    match &item {
        DataItem::Unknown(r) => {
            assert_eq!(r.type_id, DataItemType(4242));
            assert_eq!(&r.value[..], &[0xAA, 0xBB, 0xCC]);
        }
        _ => panic!("expected Unknown"),
    }
    // Encoded form preserves bytes exactly.
    let mut buf = BytesMut::new();
    item.encode(&mut buf).unwrap();
    assert_eq!(&buf[..], &[0x10, 0x92, 0x00, 0x03, 0xAA, 0xBB, 0xCC]);
}

#[test]
fn decoder_skips_unknown_data_items_inside_message() {
    // A message with one known (HeartbeatInterval) and one unknown item.
    let m = Message::new(MessageType(MessageType::SESSION_INITIALIZATION))
        .with_item(DataItem::HeartbeatInterval(Duration::from_millis(1000)))
        .with_item(DataItem::Unknown(RawDataItem {
            type_id: DataItemType(9999),
            value: Bytes::from_static(&[0x42]),
        }));
    let decoded = Message::decode(m.encode().unwrap().freeze()).unwrap();
    assert_eq!(decoded.message_type, MessageType(MessageType::SESSION_INITIALIZATION));
    assert_eq!(decoded.data_items.len(), 2);
    assert!(matches!(
        decoded.data_items[0],
        DataItem::HeartbeatInterval(_)
    ));
    assert!(matches!(decoded.data_items[1], DataItem::Unknown(_)));
}

#[test]
fn signal_with_multiple_unknown_items_round_trips() {
    // Mirrors the Message-side test: forward-compat must work on Signals
    // (Peer Offer / Peer Discovery) too.
    let s = Signal::new(SignalType(SignalType::PEER_OFFER))
        .with_item(DataItem::PeerType {
            flags: PeerFlags::default(),
            description: "router".into(),
        })
        .with_item(DataItem::Unknown(RawDataItem {
            type_id: DataItemType(7777),
            value: Bytes::from_static(&[1, 2, 3]),
        }))
        .with_item(DataItem::Unknown(RawDataItem {
            type_id: DataItemType(8888),
            value: Bytes::new(),
        }));
    let decoded = Signal::decode(s.encode().unwrap().freeze()).unwrap();
    assert_eq!(decoded.data_items.len(), 3);
    assert!(matches!(decoded.data_items[0], DataItem::PeerType { .. }));
    match &decoded.data_items[1] {
        DataItem::Unknown(r) => {
            assert_eq!(r.type_id, DataItemType(7777));
            assert_eq!(&r.value[..], &[1, 2, 3]);
        }
        _ => panic!(),
    }
    match &decoded.data_items[2] {
        DataItem::Unknown(r) => {
            assert_eq!(r.type_id, DataItemType(8888));
            assert!(r.value.is_empty());
        }
        _ => panic!(),
    }
}

#[test]
fn signal_with_multiple_items_preserves_order() {
    let s = Signal::new(SignalType(SignalType::PEER_OFFER))
        .with_item(DataItem::PeerType {
            flags: PeerFlags::default(),
            description: "router".into(),
        })
        .with_item(DataItem::Ipv4ConnectionPoint {
            flags: ConnectionPointFlags { use_tls: false },
            addr: Ipv4Addr::new(127, 0, 0, 1),
            port: Some(854),
        });
    let decoded = Signal::decode(s.encode().unwrap().freeze()).unwrap();
    assert_eq!(decoded.signal_type, SignalType(SignalType::PEER_OFFER));
    assert_eq!(decoded.data_items.len(), 2);
    assert!(matches!(decoded.data_items[0], DataItem::PeerType { .. }));
    assert!(matches!(
        decoded.data_items[1],
        DataItem::Ipv4ConnectionPoint { .. }
    ));
}

#[test]
fn truncated_message_buffer_rejected() {
    // declared length 4 but only 2 bytes follow
    let mut buf = BytesMut::new();
    buf.put_u16(MessageType::HEARTBEAT);
    buf.put_u16(4);
    buf.put_u8(0xAB);
    buf.put_u8(0xCD);
    let err = Message::decode(buf.freeze()).unwrap_err();
    assert!(matches!(err, CodecError::LengthMismatch { .. }));
}

#[test]
fn truncated_signal_header_rejected() {
    let buf = Bytes::from_static(b"DLE");
    let err = Signal::decode(buf).unwrap_err();
    assert!(matches!(err, CodecError::Truncated { .. }));
}

#[test]
fn invalid_utf8_in_status_text_rejected() {
    // Status code 0 followed by an invalid UTF-8 sequence (0xFF is never valid).
    let raw = RawDataItem {
        type_id: DataItemType(DataItemType::STATUS),
        value: Bytes::from_static(&[0x00, 0xFF, 0xFE]),
    };
    let err = DataItem::decode(raw).unwrap_err();
    assert!(matches!(err, CodecError::InvalidUtf8(_)));
}
