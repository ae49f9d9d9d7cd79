//! Messages about destinations: what is built can be read.

use dlep::fsm::events::{DestinationAddrs, LinkMetrics};
use dlep::fsm::session_common::{
    build_destination_down, build_destination_down_response, build_destination_up,
    build_destination_up_response, build_destination_update, extract_destination_addrs,
    extract_destination_mac, extract_link_metrics, extract_status,
};
use dlep::proto::addr::{Ipv4Addr, Ipv6Addr};
use dlep::proto::data_item::DataItem;
use dlep::proto::duration::Duration;
use dlep::proto::ids::MessageType;
use dlep::proto::mac::MacAddress;
use dlep::proto::status::StatusCode;
use dlep::proto::subnet::Ipv4Net;

/// ::1
const LOCALHOST_V6: Ipv6Addr = Ipv6Addr {
    octets: [0, 0, 0, 0, 0, 0, 0, 0, 0, 0, 0, 0, 0, 0, 0, 1],
};

fn sample_metrics() -> LinkMetrics {
    LinkMetrics {
        max_data_rate_rx_bps: 100_000_000,
        max_data_rate_tx_bps: 100_000_000,
        current_data_rate_rx_bps: 50_000_000,
        current_data_rate_tx_bps: 50_000_000,
        latency: Duration::from_micros(2_500),
        resources: 80,
        rlq_rx: 95,
        rlq_tx: 95,
        mtu: 1500,
    }
}

fn mac() -> MacAddress {
    MacAddress::new_eui48([1, 2, 3, 4, 5, 6])
}

#[test]
fn destination_up_carries_mac_and_metrics() {
    let metrics = sample_metrics();
    let msg = build_destination_up(mac(), &metrics, &DestinationAddrs::default());
    assert_eq!(msg.message_type, MessageType(MessageType::DESTINATION_UP));
    assert!(matches!(
        msg.data_items.first(),
        Some(DataItem::MacAddress(_))
    ));
    let extracted = extract_link_metrics(&msg).expect("metrics present");
    assert_eq!(extracted.current_data_rate_rx_bps, 50_000_000);
    assert_eq!(extracted.latency, Duration::from_micros(2_500));
    assert_eq!(extracted.mtu, 1500);
}

#[test]
fn destination_up_response_round_trip() {
    let msg = build_destination_up_response(mac(), StatusCode(StatusCode::SUCCESS));
    assert_eq!(msg.message_type, MessageType(MessageType::DESTINATION_UP_RESPONSE));
    assert_eq!(extract_destination_mac(&msg), Some(mac()));
    assert_eq!(extract_status(&msg), Some(StatusCode(StatusCode::SUCCESS)));
}

#[test]
fn destination_down_round_trip() {
    let msg = build_destination_down(mac(), StatusCode(StatusCode::SHUTTING_DOWN));
    assert_eq!(msg.message_type, MessageType(MessageType::DESTINATION_DOWN));
    assert_eq!(extract_destination_mac(&msg), Some(mac()));
    assert_eq!(extract_status(&msg), Some(StatusCode(StatusCode::SHUTTING_DOWN)));

    let resp = build_destination_down_response(mac(), StatusCode(StatusCode::SUCCESS));
    assert_eq!(resp.message_type, MessageType(MessageType::DESTINATION_DOWN_RESPONSE));
    assert_eq!(extract_destination_mac(&resp), Some(mac()));
    assert_eq!(extract_status(&resp), Some(StatusCode(StatusCode::SUCCESS)));
}

#[test]
fn destination_update_carries_metrics_only() {
    let metrics = sample_metrics();
    let msg = build_destination_update(mac(), &metrics);
    assert_eq!(msg.message_type, MessageType(MessageType::DESTINATION_UPDATE));
    assert_eq!(extract_destination_mac(&msg), Some(mac()));
    let extracted = extract_link_metrics(&msg).expect("metrics present");
    assert_eq!(extracted.current_data_rate_tx_bps, 50_000_000);
}

#[test]
fn extract_addrs_collects_v4_v6_and_subnets() {
    let addrs = DestinationAddrs {
        v4: vec![Ipv4Addr::new(10, 0, 0, 1)],
        v6: vec![LOCALHOST_V6],
        v4_subnets: vec![Ipv4Net::new(Ipv4Addr::new(10, 0, 0, 0), 24).unwrap()],
        v6_subnets: vec![],
    };
    let msg = build_destination_up(mac(), &sample_metrics(), &addrs);
    let parsed = extract_destination_addrs(&msg);
    assert_eq!(parsed.v4, vec![Ipv4Addr::new(10, 0, 0, 1)]);
    assert_eq!(parsed.v6, vec![LOCALHOST_V6]);
    assert_eq!(parsed.v4_subnets.len(), 1);
    assert!(parsed.v6_subnets.is_empty());
}
