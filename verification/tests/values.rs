//! Values that pass the wire, those that do not, and the small types.

use bytes::{Bytes, BytesMut};
use dlep::fsm::mac_map::MacMap;
use dlep::fsm::transaction::{PendingRequest, RequestKind, TransactionTracker};
use dlep::proto::addr::{Ipv4Addr, Ipv6Addr};
use dlep::proto::data_item::{ConnectionPointFlags, DataItem, PeerFlags, RawDataItem};
use dlep::proto::duration::Duration;
use dlep::proto::error::{CodecError, ExpectedLen};
use dlep::proto::ids::{DataItemType, ExtensionId, MessageType, SignalType};
use dlep::proto::layout::{MESSAGE_HEADER_LEN, SIGNAL_HEADER_LEN};
use dlep::proto::mac::MacAddress;
use dlep::proto::message::Message;
use dlep::proto::metrics::LinkMetrics;
use dlep::proto::signal::Signal;
use dlep::proto::status::StatusCode;
use dlep::proto::subnet::{Ipv4Net, Ipv6Net};

/// A deterministic stream of numbers.
struct Numbers(u64);

impl Numbers {
    fn next(&mut self) -> u64 {
        self.0 = self
            .0
            .wrapping_mul(6_364_136_223_846_793_005)
            .wrapping_add(1_442_695_040_888_963_407);
        self.0 >> 16
    }

    fn octets(&mut self, n: usize) -> Vec<u8> {
        (0..n).map(|_| self.next() as u8).collect()
    }

    fn v4(&mut self) -> Ipv4Addr {
        let o = self.octets(4);
        Ipv4Addr::new(o[0], o[1], o[2], o[3])
    }

    fn v6(&mut self) -> Ipv6Addr {
        let mut octets = [0u8; 16];
        octets.copy_from_slice(&self.octets(16));
        Ipv6Addr { octets }
    }

    fn text(&mut self) -> String {
        let n = self.next() % 32;
        (0..n)
            .map(|_| (0x20 + (self.next() % 0x5f) as u8) as char)
            .collect()
    }

    fn port(&mut self) -> Option<u16> {
        if self.next() % 2 == 0 {
            Some(self.next() as u16)
        } else {
            None
        }
    }

    /// A data item of any type, within the limits of the wire.
    fn item(&mut self) -> DataItem {
        let add = self.next() % 2 == 0;
        match self.next() % 21 {
            0 => DataItem::Status {
                code: StatusCode(self.next() as u8),
                text: self.text(),
            },
            1 => DataItem::Ipv4ConnectionPoint {
                flags: ConnectionPointFlags { use_tls: add },
                addr: self.v4(),
                port: self.port(),
            },
            2 => DataItem::Ipv6ConnectionPoint {
                flags: ConnectionPointFlags { use_tls: add },
                addr: self.v6(),
                port: self.port(),
            },
            3 => DataItem::PeerType {
                flags: PeerFlags { smi: add },
                description: self.text(),
            },
            4 => DataItem::HeartbeatInterval(Duration::from_millis(
                1_000 + self.next() % (u32::MAX as u64 - 999),
            )),
            5 => {
                let n = self.next() % 16;
                DataItem::ExtensionsSupported(
                    (0..n).map(|_| ExtensionId(self.next() as u16)).collect(),
                )
            }
            6 => {
                let mut octets = [0u8; 6];
                octets.copy_from_slice(&self.octets(6));
                DataItem::MacAddress(MacAddress::Eui48(octets))
            }
            7 => DataItem::Ipv4Address {
                add,
                addr: self.v4(),
            },
            8 => DataItem::Ipv6Address {
                add,
                addr: self.v6(),
            },
            9 => DataItem::Ipv4AttachedSubnet {
                add,
                subnet: Ipv4Net::new(self.v4(), (self.next() % 33) as u8)
                    .unwrap()
                    .trunc(),
            },
            10 => DataItem::Ipv6AttachedSubnet {
                add,
                subnet: Ipv6Net::new(self.v6(), (self.next() % 129) as u8)
                    .unwrap()
                    .trunc(),
            },
            11 => DataItem::MaxDataRateReceive(self.next() << 16),
            12 => DataItem::MaxDataRateTransmit(self.next() << 16),
            13 => DataItem::CurrentDataRateReceive(self.next() << 16),
            14 => DataItem::CurrentDataRateTransmit(u64::MAX),
            15 => DataItem::Latency(Duration::from_micros(self.next() << 16)),
            16 => DataItem::Resources((self.next() % 101) as u8),
            17 => DataItem::RelativeLinkQualityReceive((self.next() % 101) as u8),
            18 => DataItem::RelativeLinkQualityTransmit((self.next() % 101) as u8),
            19 => DataItem::Mtu(self.next() as u16),
            _ => DataItem::Unknown(RawDataItem {
                type_id: DataItemType([0u16, 21, 100, 1000, 0xFFFF][(self.next() % 5) as usize]),
                value: {
                    let n = (self.next() % 32) as usize;
                    Bytes::from(self.octets(n))
                },
            }),
        }
    }
}

fn debug(item: &DataItem) -> String {
    format!("{item:?}")
}

#[test]
fn data_item_roundtrips() {
    let mut numbers = Numbers(1);
    for _ in 0..500 {
        let item = numbers.item();
        let mut buf = BytesMut::new();
        item.encode(&mut buf).expect("encode");
        let mut bytes = buf.freeze();
        let raw = RawDataItem::decode(&mut bytes).expect("raw decode");
        assert!(bytes.is_empty(), "extra bytes after one item");
        let back = DataItem::decode(raw).expect("typed decode");
        assert_eq!(debug(&item), debug(&back));
    }
}

#[test]
fn message_roundtrips() {
    let mut numbers = Numbers(2);
    for _ in 0..100 {
        let ty = numbers.next() as u16;
        let n = numbers.next() % 6;
        let items: Vec<DataItem> = (0..n).map(|_| numbers.item()).collect();
        let mut m = Message::new(MessageType(ty));
        for it in &items {
            m = m.with_item(it.clone());
        }
        let decoded = Message::decode(m.encode().unwrap().freeze()).expect("message decode");
        assert_eq!(decoded.message_type, MessageType(ty));
        assert_eq!(decoded.data_items.len(), items.len());
        for (a, b) in items.iter().zip(decoded.data_items.iter()) {
            assert_eq!(debug(a), debug(b));
        }
    }
}

#[test]
fn signal_roundtrips() {
    let mut numbers = Numbers(3);
    for _ in 0..100 {
        let ty = numbers.next() as u16;
        let n = numbers.next() % 6;
        let items: Vec<DataItem> = (0..n).map(|_| numbers.item()).collect();
        let mut s = Signal::new(SignalType(ty));
        for it in &items {
            s = s.with_item(it.clone());
        }
        let decoded = Signal::decode(s.encode().unwrap().freeze()).expect("signal decode");
        assert_eq!(decoded.signal_type, SignalType(ty));
        assert_eq!(decoded.data_items.len(), items.len());
        for (a, b) in items.iter().zip(decoded.data_items.iter()) {
            assert_eq!(debug(a), debug(b));
        }
    }
}

#[test]
fn signal_decode_never_panics() {
    let mut numbers = Numbers(4);
    for _ in 0..500 {
        let n = (numbers.next() % 2048) as usize;
        let _ = Signal::decode(Bytes::from(numbers.octets(n)));
    }
}

#[test]
fn message_decode_never_panics() {
    let mut numbers = Numbers(5);
    for _ in 0..500 {
        let n = (numbers.next() % 2048) as usize;
        let _ = Message::decode(Bytes::from(numbers.octets(n)));
    }
}

#[test]
fn signal_with_valid_header_never_panics() {
    let mut numbers = Numbers(6);
    for _ in 0..500 {
        let n = (numbers.next() % 512) as usize;
        let body = numbers.octets(n);
        let mut buf = BytesMut::with_capacity(SIGNAL_HEADER_LEN + body.len());
        buf.extend_from_slice(b"DLEP");
        buf.extend_from_slice(&(numbers.next() as u16).to_be_bytes());
        buf.extend_from_slice(&(body.len() as u16).to_be_bytes());
        buf.extend_from_slice(&body);
        let _ = Signal::decode(buf.freeze());
    }
}

#[test]
fn message_with_valid_header_never_panics() {
    let mut numbers = Numbers(7);
    for _ in 0..500 {
        let n = (numbers.next() % 512) as usize;
        let body = numbers.octets(n);
        let mut buf = BytesMut::with_capacity(MESSAGE_HEADER_LEN + body.len());
        buf.extend_from_slice(&(numbers.next() as u16).to_be_bytes());
        buf.extend_from_slice(&(body.len() as u16).to_be_bytes());
        buf.extend_from_slice(&body);
        let _ = Message::decode(buf.freeze());
    }
}

fn raw(type_id: u16, value: &[u8]) -> RawDataItem {
    RawDataItem {
        type_id: DataItemType(type_id),
        value: Bytes::copy_from_slice(value),
    }
}

#[test]
fn what_was_decoded_encodes_and_decodes_to_itself() {
    // Host bits and spare flag bits do not survive the first decoding.
    for value in [
        raw(DataItemType::IPV4_ATTACHED_SUBNET, &[0xFF, 10, 9, 8, 7, 13]),
        raw(DataItemType::PEER_TYPE, &[0xFE, b'm']),
        raw(DataItemType::EXTENSIONS_SUPPORTED, &[1, 2, 3, 4]),
        raw(31_000, &[]),
    ] {
        let item = DataItem::decode(value).unwrap();
        let mut out = BytesMut::new();
        item.encode(&mut out).unwrap();
        let again = DataItem::decode(RawDataItem::decode(&mut out.freeze()).unwrap()).unwrap();
        assert_eq!(debug(&item), debug(&again));
    }
}

#[test]
fn items_behind_one_another_are_taken_one_by_one() {
    let mut out = BytesMut::new();
    DataItem::Mtu(1500).encode(&mut out).unwrap();
    DataItem::Resources(7).encode(&mut out).unwrap();
    let mut bytes = out.freeze();
    let first = RawDataItem::decode(&mut bytes).unwrap();
    assert_eq!(first.type_id, DataItemType(DataItemType::MTU));
    assert_eq!(&first.value[..], &[0x05, 0xDC]);
    let second = RawDataItem::decode(&mut bytes).unwrap();
    assert_eq!(&second.value[..], &[7]);
    assert!(matches!(
        RawDataItem::decode(&mut bytes).unwrap_err(),
        CodecError::Truncated { needed: 4, have: 0 }
    ));
}

#[test]
fn raw_item_that_is_cut_short_is_refused() {
    let mut bytes = Bytes::from_static(&[0x00, 0x14, 0x00, 0x02, 0x05]);
    assert!(matches!(
        RawDataItem::decode(&mut bytes).unwrap_err(),
        CodecError::Truncated { needed: 2, have: 1 }
    ));
}

#[test]
fn message_may_be_longer_than_its_body() {
    let mut octets = Message::new(MessageType(MessageType::HEARTBEAT))
        .encode()
        .unwrap();
    octets.extend_from_slice(&[1, 2, 3]);
    assert!(Message::decode(octets.freeze()).unwrap().data_items.is_empty());
    assert!(matches!(
        Message::decode(Bytes::from_static(&[0, 16, 0])).unwrap_err(),
        CodecError::Truncated { needed: 4, have: 3 }
    ));
    assert!(matches!(
        Message::decode(Bytes::from_static(&[0, 16, 0, 5, 9])).unwrap_err(),
        CodecError::LengthMismatch { declared: 5, remaining: 1 }
    ));
}

#[test]
fn eight_octet_addresses_are_written_and_not_read() {
    let item = DataItem::MacAddress(MacAddress::new_eui64([1, 2, 3, 4, 5, 6, 7, 8]));
    let mut out = BytesMut::new();
    item.encode(&mut out).unwrap();
    assert_eq!(&out[..], &[0, 7, 0, 8, 1, 2, 3, 4, 5, 6, 7, 8]);
    let back = DataItem::decode(RawDataItem::decode(&mut out.freeze()).unwrap());
    assert!(matches!(
        back.unwrap_err(),
        CodecError::InvalidDataItemLength {
            kind: DataItemType(DataItemType::MAC_ADDRESS),
            expected: ExpectedLen::Exact(6),
            got: 8,
        }
    ));
}

#[test]
fn heartbeat_interval_below_a_second_is_refused_both_ways() {
    let mut out = BytesMut::new();
    let err = DataItem::HeartbeatInterval(Duration::from_millis(999))
        .encode(&mut out)
        .unwrap_err();
    assert!(matches!(err, CodecError::OutOfRange { value: 999, .. }));
    assert!(out.is_empty());
    let err = DataItem::decode(raw(DataItemType::HEARTBEAT_INTERVAL, &[0, 0, 0, 0])).unwrap_err();
    assert!(matches!(err, CodecError::OutOfRange { value: 0, .. }));
    let ok = DataItem::decode(raw(DataItemType::HEARTBEAT_INTERVAL, &[0, 0, 3, 0xE8])).unwrap();
    assert!(matches!(
        ok,
        DataItem::HeartbeatInterval(d) if d == Duration::from_millis(1_000)
    ));
}

#[test]
fn text_must_be_utf8() {
    let item = DataItem::decode(raw(DataItemType::STATUS, "\u{0}h\u{e9}\u{20ac}".as_bytes()));
    assert!(matches!(
        item.unwrap(),
        DataItem::Status { text, .. } if text == "h\u{e9}\u{20ac}"
    ));
    assert!(matches!(
        DataItem::decode(raw(DataItemType::PEER_TYPE, &[0, 0xC3])).unwrap_err(),
        CodecError::InvalidUtf8(_)
    ));
}

#[test]
fn refused_text_is_handed_back() {
    for (kind, value) in [
        (DataItemType::STATUS, [130, 0x61, 0xFF]),
        (DataItemType::PEER_TYPE, [0, 0x61, 0xFF]),
    ] {
        match DataItem::decode(raw(kind, &value)) {
            Err(CodecError::InvalidUtf8(e)) => assert_eq!(e.as_bytes(), &[0x61, 0xFF]),
            other => panic!("expected InvalidUtf8, got {other:?}"),
        }
    }
}

#[test]
fn subnets_know_their_network() {
    let net = Ipv4Net::new(Ipv4Addr::new(192, 168, 77, 5), 20).unwrap();
    assert_eq!(net.addr(), Ipv4Addr::new(192, 168, 77, 5));
    assert_eq!(net.prefix_len(), 20);
    assert_eq!(net.network(), Ipv4Addr::new(192, 168, 64, 0));
    assert_eq!(net.trunc().addr(), Ipv4Addr::new(192, 168, 64, 0));
    assert_eq!(net.trunc().trunc(), net.trunc());
    assert!(net != net.trunc());
    assert!(Ipv4Net::new(Ipv4Addr::new(0, 0, 0, 0), 33).is_none());
    assert_eq!(
        Ipv4Net::new(Ipv4Addr::new(1, 2, 3, 4), 0).unwrap().network(),
        Ipv4Addr::new(0, 0, 0, 0)
    );
    assert_eq!(
        Ipv4Net::new(Ipv4Addr::new(1, 2, 3, 4), 32).unwrap().network(),
        Ipv4Addr::new(1, 2, 3, 4)
    );

    let mut octets = [0xFFu8; 16];
    let net = Ipv6Net::new(Ipv6Addr { octets }, 60).unwrap();
    octets = [0; 16];
    octets[..7].fill(0xFF);
    octets[7] = 0xF0;
    assert_eq!(net.network(), Ipv6Addr { octets });
    assert_eq!(net.trunc().prefix_len(), 60);
    assert!(Ipv6Net::new(Ipv6Addr { octets }, 129).is_none());
}

#[test]
fn request_about_a_destination_is_one_at_a_time() {
    let mac = MacAddress::new_eui48([1, 2, 3, 4, 5, 6]);
    let other = MacAddress::new_eui48([1, 2, 3, 4, 5, 7]);
    let mut tx = TransactionTracker::default();
    assert!(!tx.destination_busy(&mac));
    assert!(tx.open_destination(mac, RequestKind::DestinationUp).is_ok());
    assert!(tx.destination_busy(&mac));
    assert!(!tx.destination_busy(&other));
    assert_eq!(
        tx.open_destination(mac, RequestKind::DestinationDown),
        Err(PendingRequest {
            kind: RequestKind::DestinationUp
        })
    );
    assert!(tx
        .open_destination(other, RequestKind::DestinationDown)
        .is_ok());
    assert_eq!(
        tx.close_destination(&mac),
        Some(PendingRequest {
            kind: RequestKind::DestinationUp
        })
    );
    assert_eq!(tx.close_destination(&mac), None);
    assert!(tx.destination_busy(&other));
}

#[test]
fn request_of_the_session_is_one_at_a_time() {
    let mut tx = TransactionTracker::default();
    assert!(!tx.session_busy());
    assert!(tx.open_session(RequestKind::SessionUpdate).is_ok());
    assert!(tx.session_busy());
    assert_eq!(
        tx.open_session(RequestKind::SessionTermination),
        Err(PendingRequest {
            kind: RequestKind::SessionUpdate
        })
    );
    assert_eq!(
        tx.close_session(),
        Some(PendingRequest {
            kind: RequestKind::SessionUpdate
        })
    );
    assert_eq!(tx.close_session(), None);
}

#[test]
fn map_keeps_addresses_of_both_lengths_apart() {
    let short = MacAddress::new_eui48([0, 0, 0, 0, 1, 0]);
    let long = MacAddress::new_eui64([0, 0, 0, 0, 0, 0, 1, 0]);
    let mut map = MacMap::new();
    assert_eq!(map.insert(short, "short"), None);
    assert_eq!(map.insert(long, "long"), None);
    assert_eq!(map.insert(short, "again"), Some("short"));
    assert_eq!(map.get(&short), Some(&"again"));
    assert_eq!(map.remove(&short), Some("again"));
    assert!(!map.contains_key(&short));
    assert_eq!(map.get(&long), Some(&"long"));
}

#[test]
fn status_codes_from_128_end_the_session() {
    assert!(!StatusCode(127).terminates_session());
    assert!(StatusCode(128).terminates_session());
    assert!(!StatusCode(StatusCode::REQUEST_DENIED).terminates_session());
    assert!(StatusCode(StatusCode::INVALID_DATA).terminates_session());
}

#[test]
fn spans_of_time() {
    assert_eq!(Duration::from_millis(2).as_micros(), 2_000);
    assert_eq!(Duration::from_micros(2_999).as_millis(), 2);
    assert_eq!(Duration::from_secs(1), Duration::from_millis(1_000));
    assert_eq!(
        Duration::from_millis(60_000).checked_mul(2),
        Some(Duration::from_millis(120_000))
    );
    let most = Duration::from_nanos(Duration::MAX_NANOS);
    assert_eq!(most.checked_mul(1), Some(most));
    assert_eq!(most.checked_mul(2), None);
    assert_eq!(LinkMetrics::default().latency, Duration::from_nanos(0));
}

#[test]
fn mac_addresses_know_their_format() {
    let short = MacAddress::from([1, 2, 3, 4, 5, 6]);
    assert!(short.is_eui48() && !short.is_eui64());
    assert_eq!(short.len(), 6);
    assert_eq!(short.as_bytes(), &[1, 2, 3, 4, 5, 6]);
    let long = MacAddress::from([1, 2, 3, 4, 5, 6, 7, 8]);
    assert!(long.is_eui64());
    assert_eq!(long.len(), 8);
    assert!(short != long);
    assert_eq!(
        MacAddress::Eui64(MacAddress::BROADCAST_EUI64).as_bytes(),
        &[0xff; 8]
    );
    assert_eq!(MacAddress::BROADCAST_EUI48, MacAddress::BROADCAST);
}
