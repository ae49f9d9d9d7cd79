//! Attached subnets: an address and the number of its leading bits that name
//! the network.

use vstd::prelude::*;
use vstd::arithmetic::power2::pow2;
use vstd::std_specs::cmp::PartialEqSpecImpl;
use crate::proto::addr::{Ipv4Addr, Ipv6Addr};

verus! {

/// The octet at `index` of the network address with `prefix` leading bits:
/// bits behind the prefix are cleared, the others are those of `octet`.
pub open spec fn network_octet(octet: u8, index: int, prefix: int) -> u8 {
    if prefix >= 8 * index + 8 {
        octet
    } else if prefix <= 8 * index {
        0
    } else {
        let unit = pow2((8 * index + 8 - prefix) as nat);
        (octet - octet as nat % unit) as u8
    }
}

/// The address with every bit behind the first `prefix` ones cleared.
pub open spec fn network_octets(octets: Seq<u8>, prefix: int) -> Seq<u8> {
    Seq::new(octets.len(), |i: int| network_octet(octets[i], i, prefix))
}

/// `ipnet::Ipv4Net::new` followed by `network` on the net it made: the
/// constructor takes a prefix of at most 32 and refuses every other, and the
/// network address is the given one with the bits behind the prefix cleared.
#[verifier::external_body]
fn ipv4_network(octets: [u8; 4], prefix_len: u8) -> (r: Option<[u8; 4]>)
    ensures
        r is Some <==> prefix_len <= 32,
        r matches Some(network) ==> network@ == network_octets(octets@, prefix_len as int),
{
    match ipnet::Ipv4Net::new(octets.into(), prefix_len) {
        Ok(net) => Some(net.network().octets()),
        Err(_) => None,
    }
}

/// `ipnet::Ipv6Net::new` followed by `network` on the net it made: the
/// constructor takes a prefix of at most 128 and refuses every other, and the
/// network address is the given one with the bits behind the prefix cleared.
#[verifier::external_body]
fn ipv6_network(octets: [u8; 16], prefix_len: u8) -> (r: Option<[u8; 16]>)
    ensures
        r is Some <==> prefix_len <= 128,
        r matches Some(network) ==> network@ == network_octets(octets@, prefix_len as int),
{
    match ipnet::Ipv6Net::new(octets.into(), prefix_len) {
        Ok(net) => Some(net.network().octets()),
        Err(_) => None,
    }
}

/// What an IPv4 subnet is: an address, which may carry host bits, and a
/// prefix length.
pub struct Ipv4NetView {
    pub addr: Ipv4Addr,
    pub prefix_len: u8,
}

impl Ipv4NetView {
    /// Whether the prefix length is one that an IPv4 address can have.
    pub open spec fn valid(self) -> bool {
        self.prefix_len <= 32
    }

    /// Octets of the network address.
    pub open spec fn network(self) -> Seq<u8> {
        network_octets(self.addr.octets@, self.prefix_len as int)
    }

    /// Whether every bit behind the prefix is clear.
    pub open spec fn canonical(self) -> bool {
        self.network() == self.addr.octets@
    }
}

/// IPv4 subnet. The address may carry host bits; `network` and `trunc` clear
/// them.
#[derive(Clone, Copy, Debug, Eq, Hash)]
pub struct Ipv4Net {
    addr: Ipv4Addr,
    prefix_len: u8,
}

impl View for Ipv4Net {
    type V = Ipv4NetView;

    closed spec fn view(&self) -> Ipv4NetView {
        Ipv4NetView { addr: self.addr, prefix_len: self.prefix_len }
    }
}

impl Ipv4Net {
    #[verifier::type_invariant]
    spec fn inv(self) -> bool {
        self.prefix_len <= 32
    }

    /// The subnet of `addr` with the given prefix length, or `None` when the
    /// prefix is longer than the address.
    pub fn new(addr: Ipv4Addr, prefix_len: u8) -> (r: Option<Self>)
        ensures
            r is Some <==> prefix_len <= 32,
            r matches Some(net) ==> net@ == (Ipv4NetView { addr, prefix_len }),
    {
        match ipv4_network(addr.octets, prefix_len) {
            Some(_) => Some(Ipv4Net { addr, prefix_len }),
            None => None,
        }
    }

    pub fn addr(&self) -> (r: Ipv4Addr)
        ensures
            r == self@.addr,
    {
        self.addr
    }

    pub fn prefix_len(&self) -> (r: u8)
        ensures
            r == self@.prefix_len,
            self@.valid(),
    {
        proof {
            use_type_invariant(self);
        }
        self.prefix_len
    }

    /// The address with host bits cleared.
    pub fn network(&self) -> (r: Ipv4Addr)
        ensures
            r.octets@ == self@.network(),
    {
        proof {
            use_type_invariant(self);
        }
        match ipv4_network(self.addr.octets, self.prefix_len) {
            Some(octets) => Ipv4Addr { octets },
            None => self.addr,
        }
    }

    /// The same subnet with host bits cleared.
    pub fn trunc(&self) -> (r: Self)
        ensures
            r@.addr.octets@ == self@.network(),
            r@.prefix_len == self@.prefix_len,
    {
        proof {
            use_type_invariant(self);
        }
        Ipv4Net { addr: self.network(), prefix_len: self.prefix_len }
    }
}

impl PartialEq for Ipv4Net {
    fn eq(&self, other: &Self) -> (r: bool) {
        self.addr == other.addr && self.prefix_len == other.prefix_len
    }
}

impl PartialEqSpecImpl for Ipv4Net {
    open spec fn obeys_eq_spec() -> bool {
        true
    }

    open spec fn eq_spec(&self, other: &Self) -> bool {
        self@ == other@
    }
}

/// What an IPv6 subnet is: an address, which may carry host bits, and a
/// prefix length.
pub struct Ipv6NetView {
    pub addr: Ipv6Addr,
    pub prefix_len: u8,
}

impl Ipv6NetView {
    /// Whether the prefix length is one that an IPv6 address can have.
    pub open spec fn valid(self) -> bool {
        self.prefix_len <= 128
    }

    /// Octets of the network address.
    pub open spec fn network(self) -> Seq<u8> {
        network_octets(self.addr.octets@, self.prefix_len as int)
    }

    /// Whether every bit behind the prefix is clear.
    pub open spec fn canonical(self) -> bool {
        self.network() == self.addr.octets@
    }
}

/// IPv6 subnet. The address may carry host bits; `network` and `trunc` clear
/// them.
#[derive(Clone, Copy, Debug, Eq, Hash)]
pub struct Ipv6Net {
    addr: Ipv6Addr,
    prefix_len: u8,
}

impl View for Ipv6Net {
    type V = Ipv6NetView;

    closed spec fn view(&self) -> Ipv6NetView {
        Ipv6NetView { addr: self.addr, prefix_len: self.prefix_len }
    }
}

impl Ipv6Net {
    #[verifier::type_invariant]
    spec fn inv(self) -> bool {
        self.prefix_len <= 128
    }

    /// The subnet of `addr` with the given prefix length, or `None` when the
    /// prefix is longer than the address.
    pub fn new(addr: Ipv6Addr, prefix_len: u8) -> (r: Option<Self>)
        ensures
            r is Some <==> prefix_len <= 128,
            r matches Some(net) ==> net@ == (Ipv6NetView { addr, prefix_len }),
    {
        match ipv6_network(addr.octets, prefix_len) {
            Some(_) => Some(Ipv6Net { addr, prefix_len }),
            None => None,
        }
    }

    pub fn addr(&self) -> (r: Ipv6Addr)
        ensures
            r == self@.addr,
    {
        self.addr
    }

    pub fn prefix_len(&self) -> (r: u8)
        ensures
            r == self@.prefix_len,
            self@.valid(),
    {
        proof {
            use_type_invariant(self);
        }
        self.prefix_len
    }

    /// The address with host bits cleared.
    pub fn network(&self) -> (r: Ipv6Addr)
        ensures
            r.octets@ == self@.network(),
    {
        proof {
            use_type_invariant(self);
        }
        match ipv6_network(self.addr.octets, self.prefix_len) {
            Some(octets) => Ipv6Addr { octets },
            None => self.addr,
        }
    }

    /// The same subnet with host bits cleared.
    pub fn trunc(&self) -> (r: Self)
        ensures
            r@.addr.octets@ == self@.network(),
            r@.prefix_len == self@.prefix_len,
    {
        proof {
            use_type_invariant(self);
        }
        Ipv6Net { addr: self.network(), prefix_len: self.prefix_len }
    }
}

impl PartialEq for Ipv6Net {
    fn eq(&self, other: &Self) -> (r: bool) {
        self.addr == other.addr && self.prefix_len == other.prefix_len
    }
}

impl PartialEqSpecImpl for Ipv6Net {
    open spec fn obeys_eq_spec() -> bool {
        true
    }

    open spec fn eq_spec(&self, other: &Self) -> bool {
        self@ == other@
    }
}

/// Clearing host bits twice is clearing them once: what `trunc` gives back is
/// canonical.
pub proof fn lemma_network_idempotent(octets: Seq<u8>, prefix: int)
    ensures
        network_octets(network_octets(octets, prefix), prefix) == network_octets(octets, prefix),
{
    let once = network_octets(octets, prefix);
    assert forall|i: int| 0 <= i < octets.len() implies network_octet(
        #[trigger] once[i],
        i,
        prefix,
    ) == once[i] by {
        if 8 * i < prefix < 8 * i + 8 {
            let unit = pow2((8 * i + 8 - prefix) as nat) as int;
            vstd::arithmetic::power2::lemma_pow2_pos((8 * i + 8 - prefix) as nat);
            let x = octets[i] as int;
            vstd::arithmetic::div_mod::lemma_fundamental_div_mod(x, unit);
            vstd::arithmetic::div_mod::lemma_mod_bound(x, unit);
            vstd::arithmetic::div_mod::lemma_mod_decreases(octets[i] as nat, unit as nat);
            assert(x - x % unit == unit * (x / unit));
            vstd::arithmetic::div_mod::lemma_mod_multiples_basic(x / unit, unit);
            assert((x - x % unit) % unit == 0) by {
                assert(unit * (x / unit) == (x / unit) * unit) by (nonlinear_arith);
            }
            assert(once[i] as int == x - x % unit);
        }
    }
    assert(network_octets(once, prefix) =~= once);
}

} // verus!
