//! Messages in a stream, signals in datagrams.

use bytes::{BufMut, BytesMut};
use dlep::net::framed::{MessageCodec, SignalCodec};
use dlep::proto::data_item::{DataItem, PeerFlags};
use dlep::proto::duration::Duration;
use dlep::proto::error::CodecError;
use dlep::proto::ids::{MessageType, SignalType};
use dlep::proto::message::Message;
use dlep::proto::signal::Signal;

fn heartbeat() -> Message {
    Message::new(MessageType(MessageType::HEARTBEAT))
}

fn initialization() -> Message {
    Message::new(MessageType(MessageType::SESSION_INITIALIZATION))
        .with_item(DataItem::HeartbeatInterval(Duration::from_millis(60_000)))
        .with_item(DataItem::PeerType {
            flags: PeerFlags::default(),
            description: "router".to_string(),
        })
}

#[test]
fn encoded_message_has_this_form() {
    let mut stream = BytesMut::new();
    MessageCodec.encode(heartbeat(), &mut stream).unwrap();
    assert_eq!(&stream[..], &[0x00, 0x10, 0x00, 0x00]);
}

#[test]
fn messages_arrive_in_the_order_sent() {
    let mut codec = MessageCodec;
    let mut stream = BytesMut::new();
    codec.encode(initialization(), &mut stream).unwrap();
    codec.encode(heartbeat(), &mut stream).unwrap();

    let first = codec.decode(&mut stream).unwrap().unwrap();
    assert_eq!(
        first.message_type,
        MessageType(MessageType::SESSION_INITIALIZATION)
    );
    assert_eq!(first.data_items.len(), 2);
    assert!(matches!(
        &first.data_items[1],
        DataItem::PeerType { description, .. } if description == "router"
    ));
    let second = codec.decode(&mut stream).unwrap().unwrap();
    assert_eq!(second.message_type, MessageType(MessageType::HEARTBEAT));
    assert!(second.data_items.is_empty());
    assert!(stream.is_empty());
    assert!(codec.decode(&mut stream).unwrap().is_none());
}

#[test]
fn every_part_of_a_message_is_waited_for() {
    let mut codec = MessageCodec;
    let mut whole = BytesMut::new();
    codec.encode(initialization(), &mut whole).unwrap();
    for n in 0..whole.len() {
        let mut part = BytesMut::from(&whole[..n]);
        assert!(codec.decode(&mut part).unwrap().is_none());
        assert_eq!(&part[..], &whole[..n], "a part must stay as it is");
    }
    assert!(codec.decode(&mut whole).unwrap().is_some());
}

#[test]
fn frame_that_is_no_message_is_taken_out() {
    let mut codec = MessageCodec;
    let mut stream = BytesMut::new();
    // A body of two octets, which is no data item.
    stream.put_u16(MessageType::HEARTBEAT);
    stream.put_u16(2);
    stream.put_u16(0xABCD);
    codec.encode(heartbeat(), &mut stream).unwrap();

    let err = codec.decode(&mut stream).unwrap_err();
    assert!(matches!(err, CodecError::Truncated { needed: 4, have: 2 }));
    let next = codec.decode(&mut stream).unwrap().unwrap();
    assert_eq!(next.message_type, MessageType(MessageType::HEARTBEAT));
}

#[test]
fn message_without_wire_form_leaves_the_stream_alone() {
    let mut stream = BytesMut::from(&b"before"[..]);
    let refused = heartbeat().with_item(DataItem::Resources(101));
    let err = MessageCodec.encode(refused, &mut stream).unwrap_err();
    assert!(matches!(
        err,
        CodecError::OutOfRange { field: _, value: 101 }
    ));
    assert_eq!(&stream[..], b"before");
}

#[test]
fn datagram_carries_one_signal() {
    let signal = Signal::new(SignalType(SignalType::PEER_DISCOVERY)).with_item(
        DataItem::PeerType {
            flags: PeerFlags { smi: true },
            description: "r".to_string(),
        },
    );
    let datagram = SignalCodec.encode_datagram(&signal).unwrap();
    assert_eq!(
        &datagram[..],
        &[
            b'D', b'L', b'E', b'P', 0x00, 0x01, 0x00, 0x06, 0x00, 0x04, 0x00, 0x02, 0x01, b'r'
        ]
    );
    let decoded = SignalCodec.decode_datagram(datagram).unwrap();
    assert_eq!(decoded.signal_type, SignalType(SignalType::PEER_DISCOVERY));
    assert!(matches!(
        &decoded.data_items[0],
        DataItem::PeerType { flags, description } if flags.smi && description == "r"
    ));
}

#[test]
fn datagram_with_another_prefix_is_no_signal() {
    let err = SignalCodec
        .decode_datagram(BytesMut::from(&b"DLEQ\x00\x01\x00\x00"[..]))
        .unwrap_err();
    assert!(matches!(err, CodecError::MissingSignalPrefix));
}

#[test]
fn signal_without_wire_form_gives_no_datagram() {
    let signal = Signal::new(SignalType(SignalType::PEER_OFFER))
        .with_item(DataItem::RelativeLinkQualityReceive(200));
    assert!(matches!(
        SignalCodec.encode_datagram(&signal).unwrap_err(),
        CodecError::OutOfRange { value: 200, .. }
    ));
}
