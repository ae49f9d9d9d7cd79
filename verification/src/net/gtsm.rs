//! Generalized TTL security.

use vstd::prelude::*;

verus! {

/// The only TTL that an inbound packet may have. A packet that was forwarded
/// even once arrives with less.
pub const REQUIRED_TTL: u8 = 255;

/// Whether a packet with this TTL comes from the same link.
pub fn is_gtsm_valid(ttl: u8) -> (r: bool)
    ensures
        r == (ttl == 255),
{
    ttl == REQUIRED_TTL
}

} // verus!
