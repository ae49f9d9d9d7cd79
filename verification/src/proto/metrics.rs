//! Link metrics of a destination.

use vstd::prelude::*;
use crate::proto::duration::Duration;

verus! {

/// The metric data items of a destination, as one plain value.
#[derive(Clone, Copy, Debug, PartialEq, Eq, Structural)]
pub struct LinkMetrics {
    pub max_data_rate_rx_bps: u64,
    pub max_data_rate_tx_bps: u64,
    pub current_data_rate_rx_bps: u64,
    pub current_data_rate_tx_bps: u64,
    pub latency: Duration,
    pub resources: u8,
    pub rlq_rx: u8,
    pub rlq_tx: u8,
    pub mtu: u16,
}

impl LinkMetrics {
    /// Metrics that report nothing.
    pub open spec fn zero() -> Self {
        LinkMetrics {
            max_data_rate_rx_bps: 0,
            max_data_rate_tx_bps: 0,
            current_data_rate_rx_bps: 0,
            current_data_rate_tx_bps: 0,
            latency: Duration { nanos: 0 },
            resources: 0,
            rlq_rx: 0,
            rlq_tx: 0,
            mtu: 0,
        }
    }
}

impl Default for LinkMetrics {
    fn default() -> (r: Self)
        ensures
            r == LinkMetrics::zero(),
    {
        LinkMetrics {
            max_data_rate_rx_bps: 0,
            max_data_rate_tx_bps: 0,
            current_data_rate_rx_bps: 0,
            current_data_rate_tx_bps: 0,
            latency: Duration { nanos: 0 },
            resources: 0,
            rlq_rx: 0,
            rlq_tx: 0,
            mtu: 0,
        }
    }
}

} // verus!
