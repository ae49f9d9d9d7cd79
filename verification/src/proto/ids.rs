//! Type-id newtypes for signals, messages, data items and extensions.
//!
//! Every identifier on the wire is 16 bits wide. A newtype for each family
//! keeps a message type from being passed where a data item type is meant.
//! The associated constants are the assigned numbers themselves, so
//! `MessageType(MessageType::HEARTBEAT)` is the Heartbeat message type.

use vstd::prelude::*;
use vstd::std_specs::convert::FromSpecImpl;

verus! {

/// Signal type on the UDP discovery channel.
#[derive(Clone, Copy, Debug, PartialEq, Eq, Structural, Hash, PartialOrd, Ord)]
pub struct SignalType(pub u16);

impl SignalType {
    pub const PEER_DISCOVERY: u16 = 1;

    pub const PEER_OFFER: u16 = 2;
}

impl From<u16> for SignalType {
    fn from(v: u16) -> (r: Self) {
        SignalType(v)
    }
}

impl FromSpecImpl<u16> for SignalType {
    open spec fn obeys_from_spec() -> bool {
        true
    }

    open spec fn from_spec(v: u16) -> Self {
        SignalType(v)
    }
}

impl From<SignalType> for u16 {
    fn from(v: SignalType) -> (r: u16) {
        v.0
    }
}

impl FromSpecImpl<SignalType> for u16 {
    open spec fn obeys_from_spec() -> bool {
        true
    }

    open spec fn from_spec(v: SignalType) -> u16 {
        v.0
    }
}

/// Message type on the TCP session channel.
#[derive(Clone, Copy, Debug, PartialEq, Eq, Structural, Hash, PartialOrd, Ord)]
pub struct MessageType(pub u16);

impl MessageType {
    pub const SESSION_INITIALIZATION: u16 = 1;

    pub const SESSION_INITIALIZATION_RESPONSE: u16 = 2;

    pub const SESSION_UPDATE: u16 = 3;

    pub const SESSION_UPDATE_RESPONSE: u16 = 4;

    pub const SESSION_TERMINATION: u16 = 5;

    pub const SESSION_TERMINATION_RESPONSE: u16 = 6;

    pub const DESTINATION_UP: u16 = 7;

    pub const DESTINATION_UP_RESPONSE: u16 = 8;

    pub const DESTINATION_ANNOUNCE: u16 = 9;

    pub const DESTINATION_ANNOUNCE_RESPONSE: u16 = 10;

    pub const DESTINATION_DOWN: u16 = 11;

    pub const DESTINATION_DOWN_RESPONSE: u16 = 12;

    pub const DESTINATION_UPDATE: u16 = 13;

    pub const LINK_CHARACTERISTICS_REQUEST: u16 = 14;

    pub const LINK_CHARACTERISTICS_RESPONSE: u16 = 15;

    pub const HEARTBEAT: u16 = 16;
}

impl From<u16> for MessageType {
    fn from(v: u16) -> (r: Self) {
        MessageType(v)
    }
}

impl FromSpecImpl<u16> for MessageType {
    open spec fn obeys_from_spec() -> bool {
        true
    }

    open spec fn from_spec(v: u16) -> Self {
        MessageType(v)
    }
}

impl From<MessageType> for u16 {
    fn from(v: MessageType) -> (r: u16) {
        v.0
    }
}

impl FromSpecImpl<MessageType> for u16 {
    open spec fn obeys_from_spec() -> bool {
        true
    }

    open spec fn from_spec(v: MessageType) -> u16 {
        v.0
    }
}

/// Data item type inside a message or signal.
#[derive(Clone, Copy, Debug, PartialEq, Eq, Structural, Hash, PartialOrd, Ord)]
pub struct DataItemType(pub u16);

impl DataItemType {
    pub const STATUS: u16 = 1;

    pub const IPV4_CONNECTION_POINT: u16 = 2;

    pub const IPV6_CONNECTION_POINT: u16 = 3;

    pub const PEER_TYPE: u16 = 4;

    pub const HEARTBEAT_INTERVAL: u16 = 5;

    pub const EXTENSIONS_SUPPORTED: u16 = 6;

    pub const MAC_ADDRESS: u16 = 7;

    pub const IPV4_ADDRESS: u16 = 8;

    pub const IPV6_ADDRESS: u16 = 9;

    pub const IPV4_ATTACHED_SUBNET: u16 = 10;

    pub const IPV6_ATTACHED_SUBNET: u16 = 11;

    pub const MAXIMUM_DATA_RATE_RECEIVE: u16 = 12;

    pub const MAXIMUM_DATA_RATE_TRANSMIT: u16 = 13;

    pub const CURRENT_DATA_RATE_RECEIVE: u16 = 14;

    pub const CURRENT_DATA_RATE_TRANSMIT: u16 = 15;

    pub const LATENCY: u16 = 16;

    pub const RESOURCES: u16 = 17;

    pub const RELATIVE_LINK_QUALITY_RECEIVE: u16 = 18;

    pub const RELATIVE_LINK_QUALITY_TRANSMIT: u16 = 19;

    pub const MTU: u16 = 20;
}

impl From<u16> for DataItemType {
    fn from(v: u16) -> (r: Self) {
        DataItemType(v)
    }
}

impl FromSpecImpl<u16> for DataItemType {
    open spec fn obeys_from_spec() -> bool {
        true
    }

    open spec fn from_spec(v: u16) -> Self {
        DataItemType(v)
    }
}

impl From<DataItemType> for u16 {
    fn from(v: DataItemType) -> (r: u16) {
        v.0
    }
}

impl FromSpecImpl<DataItemType> for u16 {
    open spec fn obeys_from_spec() -> bool {
        true
    }

    open spec fn from_spec(v: DataItemType) -> u16 {
        v.0
    }
}

/// Extension identifier advertised in `Extensions Supported`.
#[derive(Clone, Copy, Debug, PartialEq, Eq, Structural, Hash, PartialOrd, Ord)]
pub struct ExtensionId(pub u16);

impl From<u16> for ExtensionId {
    fn from(v: u16) -> (r: Self) {
        ExtensionId(v)
    }
}

impl FromSpecImpl<u16> for ExtensionId {
    open spec fn obeys_from_spec() -> bool {
        true
    }

    open spec fn from_spec(v: u16) -> Self {
        ExtensionId(v)
    }
}

impl From<ExtensionId> for u16 {
    fn from(v: ExtensionId) -> (r: u16) {
        v.0
    }
}

impl FromSpecImpl<ExtensionId> for u16 {
    open spec fn obeys_from_spec() -> bool {
        true
    }

    open spec fn from_spec(v: ExtensionId) -> u16 {
        v.0
    }
}

} // verus!
