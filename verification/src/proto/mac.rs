//! Link-layer addresses that identify destinations.

use vstd::prelude::*;
use vstd::std_specs::cmp::PartialEqSpecImpl;
use vstd::std_specs::convert::FromSpecImpl;

verus! {

/// MAC address of a destination: EUI-48 (6 octets) or EUI-64 (8 octets).
/// All destinations of one session share one format.
#[derive(Clone, Copy, Eq, Hash, PartialOrd, Ord)]
pub enum MacAddress {
    Eui48([u8; 6]),
    Eui64([u8; 8]),
}

impl MacAddress {
    /// Octets of the 6-octet broadcast address.
    pub const BROADCAST_EUI48: [u8; 6] = [0xff, 0xff, 0xff, 0xff, 0xff, 0xff];

    /// Octets of the 8-octet broadcast address.
    pub const BROADCAST_EUI64: [u8; 8] = [0xff, 0xff, 0xff, 0xff, 0xff, 0xff, 0xff, 0xff];

    /// Octets of the broadcast address, unless eight are asked for.
    pub const BROADCAST: [u8; 6] = [0xff, 0xff, 0xff, 0xff, 0xff, 0xff];

    /// The octets of the address, in transmission order.
    pub open spec fn octets(self) -> Seq<u8> {
        match self {
            MacAddress::Eui48(o) => o@,
            MacAddress::Eui64(o) => o@,
        }
    }

    pub fn new_eui48(octets: [u8; 6]) -> (r: Self)
        ensures
            r == MacAddress::Eui48(octets),
    {
        MacAddress::Eui48(octets)
    }

    pub fn new_eui64(octets: [u8; 8]) -> (r: Self)
        ensures
            r == MacAddress::Eui64(octets),
    {
        MacAddress::Eui64(octets)
    }

    /// Octets in network byte order. Length is 6 for EUI-48, 8 for EUI-64.
    pub fn as_bytes(&self) -> (r: &[u8])
        ensures
            r@ == self.octets(),
    {
        match self {
            MacAddress::Eui48(o) => o.as_slice(),
            MacAddress::Eui64(o) => o.as_slice(),
        }
    }

    /// Length in octets.
    pub fn len(&self) -> (r: usize)
        ensures
            r == self.octets().len(),
            r == if *self is Eui48 { 6usize } else { 8usize },
    {
        match self {
            MacAddress::Eui48(_) => 6,
            MacAddress::Eui64(_) => 8,
        }
    }

    /// `true` if this is an EUI-48 (6-octet) address.
    pub fn is_eui48(&self) -> (r: bool)
        ensures
            r == (*self is Eui48),
    {
        match self {
            MacAddress::Eui48(_) => true,
            MacAddress::Eui64(_) => false,
        }
    }

    /// `true` if this is an EUI-64 (8-octet) address.
    pub fn is_eui64(&self) -> (r: bool)
        ensures
            r == (*self is Eui64),
    {
        match self {
            MacAddress::Eui48(_) => false,
            MacAddress::Eui64(_) => true,
        }
    }
}

/// Two arrays are equal when they agree octet by octet.
pub fn octets_equal<const N: usize>(a: &[u8; N], b: &[u8; N]) -> (r: bool)
    ensures
        r == (*a == *b),
{
    let mut i: usize = 0;
    while i < N
        invariant
            i <= N,
            forall|j: int| 0 <= j < i ==> a[j] == b[j],
        decreases N - i,
    {
        if a[i] != b[i] {
            return false;
        }
        i = i + 1;
    }
    assert(*a =~= *b);
    true
}

impl PartialEq for MacAddress {
    fn eq(&self, other: &Self) -> (r: bool) {
        match (self, other) {
            (MacAddress::Eui48(a), MacAddress::Eui48(b)) => octets_equal(a, b),
            (MacAddress::Eui64(a), MacAddress::Eui64(b)) => octets_equal(a, b),
            _ => false,
        }
    }
}

impl PartialEqSpecImpl for MacAddress {
    open spec fn obeys_eq_spec() -> bool {
        true
    }

    open spec fn eq_spec(&self, other: &Self) -> bool {
        *self == *other
    }
}

impl From<[u8; 6]> for MacAddress {
    fn from(v: [u8; 6]) -> (r: Self) {
        MacAddress::Eui48(v)
    }
}

impl FromSpecImpl<[u8; 6]> for MacAddress {
    open spec fn obeys_from_spec() -> bool {
        true
    }

    open spec fn from_spec(v: [u8; 6]) -> Self {
        MacAddress::Eui48(v)
    }
}

impl From<[u8; 8]> for MacAddress {
    fn from(v: [u8; 8]) -> (r: Self) {
        MacAddress::Eui64(v)
    }
}

impl FromSpecImpl<[u8; 8]> for MacAddress {
    open spec fn obeys_from_spec() -> bool {
        true
    }

    open spec fn from_spec(v: [u8; 8]) -> Self {
        MacAddress::Eui64(v)
    }
}

} // verus!
