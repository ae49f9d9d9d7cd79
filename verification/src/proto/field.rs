//! Names of the fields that `CodecError::OutOfRange` reports.

use vstd::prelude::*;

verus! {

pub const HEARTBEAT_INTERVAL_MS: &'static str = "heartbeat_interval_ms";

pub const LATENCY_US: &'static str = "latency_us";

pub const RESOURCES: &'static str = "resources";

pub const RLQ_RECEIVE: &'static str = "relative_link_quality_receive";

pub const RLQ_TRANSMIT: &'static str = "relative_link_quality_transmit";

pub const IPV4_ATTACHED_SUBNET_PREFIX: &'static str = "ipv4_attached_subnet_prefix";

pub const IPV6_ATTACHED_SUBNET_PREFIX: &'static str = "ipv6_attached_subnet_prefix";

pub const DATA_ITEM_VALUE_LENGTH: &'static str = "data_item_value_length";

pub const SIGNAL_BODY_LENGTH: &'static str = "signal_body_length";

pub const MESSAGE_BODY_LENGTH: &'static str = "message_body_length";

} // verus!
