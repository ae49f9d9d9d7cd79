//! Commands, errors and channel sizes of the daemons.

use vstd::prelude::*;
use crate::fsm::events::{DestinationAddrs, DestinationAddrsView, LinkMetrics};
use crate::proto::error::CodecError;
use crate::proto::mac::MacAddress;
use crate::proto::status::StatusCode;

verus! {

/// Events that a subscriber may lag behind before it loses the oldest.
pub const EVENT_CHANNEL_CAPACITY: usize = 256;

/// Commands that may wait for a session.
pub const COMMAND_CHANNEL_CAPACITY: usize = 64;

/// What the daemons refuse.
#[derive(Debug)]
pub enum DaemonError {
    ShuttingDown,
    Config(String),
    Codec(CodecError),
}

/// The result is a configuration error with this text.
pub open spec fn is_config_error<T>(r: Result<T, DaemonError>, text: Seq<char>) -> bool {
    r matches Err(DaemonError::Config(said)) && said@ == text
}

/// What a daemon asks of a session.
#[derive(Clone, Debug)]
pub enum SessionCommand {
    Shutdown { reason: StatusCode },
    AddDestination { mac: MacAddress, metrics: LinkMetrics, addrs: DestinationAddrs },
    UpdateDestination { mac: MacAddress, metrics: LinkMetrics },
    DropDestination { mac: MacAddress, reason: StatusCode },
}

#[verifier::ext_equal]
pub enum SessionCommandView {
    Shutdown { reason: StatusCode },
    AddDestination { mac: MacAddress, metrics: LinkMetrics, addrs: DestinationAddrsView },
    UpdateDestination { mac: MacAddress, metrics: LinkMetrics },
    DropDestination { mac: MacAddress, reason: StatusCode },
}

impl View for SessionCommand {
    type V = SessionCommandView;

    open spec fn view(&self) -> SessionCommandView {
        match *self {
            SessionCommand::Shutdown { reason } => SessionCommandView::Shutdown { reason },
            SessionCommand::AddDestination { mac, metrics, addrs } => {
                SessionCommandView::AddDestination { mac, metrics, addrs: addrs@ }
            },
            SessionCommand::UpdateDestination { mac, metrics } => {
                SessionCommandView::UpdateDestination { mac, metrics }
            },
            SessionCommand::DropDestination { mac, reason } => {
                SessionCommandView::DropDestination { mac, reason }
            },
        }
    }
}

} // verus!
