//! Maps from link-layer addresses.

use vstd::prelude::*;
use std::collections::HashMap;
use crate::proto::mac::MacAddress;
use crate::proto::wire;

verus! {

broadcast use vstd::std_specs::hash::group_hash_axioms;

impl MacAddress {
    /// A number that stands for the address. EUI-64 addresses have the 65th bit
    /// set, so no two addresses have the same number.
    pub open spec fn number(self) -> u128 {
        match self {
            MacAddress::Eui48(_) => wire::from_be(self.octets()) as u128,
            MacAddress::Eui64(_) => (0x1_0000_0000_0000_0000 + wire::from_be(
                self.octets(),
            )) as u128,
        }
    }
}

/// The number in six or eight octets fits in 64 bits.
proof fn lemma_octets_fit(octets: Seq<u8>)
    requires
        octets.len() <= 8,
    ensures
        wire::from_be(octets) < 0x1_0000_0000_0000_0000,
{
    wire::lemma_widths();
    wire::lemma_be_of_from_be(octets);
    vstd::arithmetic::power::lemma_pow_increases(256, octets.len(), 8);
}

/// Addresses with the same number are the same address.
proof fn lemma_number_injective(a: MacAddress, b: MacAddress)
    requires
        a.number() == b.number(),
    ensures
        a == b,
{
    lemma_octets_fit(a.octets());
    lemma_octets_fit(b.octets());
    wire::lemma_be_of_from_be(a.octets());
    wire::lemma_be_of_from_be(b.octets());
    match (a, b) {
        (MacAddress::Eui48(x), MacAddress::Eui48(y)) => {
            assert(x =~= y);
        },
        (MacAddress::Eui64(x), MacAddress::Eui64(y)) => {
            assert(x =~= y);
        },
        _ => {},
    }
}

/// The number of an address.
fn number_of(mac: &MacAddress) -> (r: u128)
    ensures
        r == mac.number(),
{
    let octets = mac.as_bytes();
    let mut acc: u128 = 0;
    let mut i: usize = 0;
    assert(octets@.take(0) =~= Seq::<u8>::empty());
    while i < octets.len()
        invariant
            i <= octets@.len() <= 8,
            acc == wire::from_be(octets@.take(i as int)),
        decreases octets.len() - i,
    {
        proof {
            lemma_octets_fit(octets@.take(i as int));
            assert(octets@.take(i + 1).drop_last() =~= octets@.take(i as int));
        }
        acc = acc * 256 + octets[i] as u128;
        i = i + 1;
    }
    assert(octets@.take(i as int) =~= octets@);
    proof {
        lemma_octets_fit(octets@);
    }
    match mac {
        MacAddress::Eui48(_) => acc,
        MacAddress::Eui64(_) => 0x1_0000_0000_0000_0000 + acc,
    }
}

/// Map from link-layer addresses to values, kept under the numbers of the
/// addresses.
#[derive(Debug)]
pub struct MacMap<V> {
    entries: HashMap<u128, V>,
}

impl<V> View for MacMap<V> {
    type V = Map<MacAddress, V>;

    closed spec fn view(&self) -> Map<MacAddress, V> {
        Map::new(
            |mac: MacAddress| self.entries@.contains_key(mac.number()),
            |mac: MacAddress| self.entries@[mac.number()],
        )
    }
}

impl<V> MacMap<V> {
    pub fn new() -> (r: Self)
        ensures
            r@ == Map::<MacAddress, V>::empty(),
    {
        let r = MacMap { entries: HashMap::new() };
        assert(r@ =~= Map::<MacAddress, V>::empty());
        r
    }

    pub fn contains_key(&self, mac: &MacAddress) -> (r: bool)
        ensures
            r == self@.contains_key(*mac),
    {
        self.entries.contains_key(&number_of(mac))
    }

    pub fn get(&self, mac: &MacAddress) -> (r: Option<&V>)
        ensures
            match r {
                Some(v) => self@.contains_key(*mac) && *v == self@[*mac],
                None => !self@.contains_key(*mac),
            },
    {
        self.entries.get(&number_of(mac))
    }

    /// Put `value` under `mac`; a value that was there is given back.
    pub fn insert(&mut self, mac: MacAddress, value: V) -> (r: Option<V>)
        ensures
            final(self)@ == old(self)@.insert(mac, value),
            match r {
                Some(v) => old(self)@.contains_key(mac) && v == old(self)@[mac],
                None => !old(self)@.contains_key(mac),
            },
    {
        let ghost before = self@;
        let r = self.entries.insert(number_of(&mac), value);
        proof {
            assert forall|m: MacAddress| m != mac implies m.number() != mac.number() by {
                if m.number() == mac.number() {
                    lemma_number_injective(m, mac);
                }
            }
            assert(self@ =~= before.insert(mac, value));
        }
        r
    }

    /// Take the value under `mac` out.
    pub fn remove(&mut self, mac: &MacAddress) -> (r: Option<V>)
        ensures
            final(self)@ == old(self)@.remove(*mac),
            match r {
                Some(v) => old(self)@.contains_key(*mac) && v == old(self)@[*mac],
                None => !old(self)@.contains_key(*mac),
            },
    {
        let ghost before = self@;
        let r = self.entries.remove(&number_of(mac));
        proof {
            assert forall|m: MacAddress| m != *mac implies m.number() != mac.number() by {
                if m.number() == mac.number() {
                    lemma_number_injective(m, *mac);
                }
            }
            assert(self@ =~= before.remove(*mac));
        }
        r
    }
}

impl<V> Default for MacMap<V> {
    fn default() -> (r: Self)
        ensures
            r@ == Map::<MacAddress, V>::empty(),
    {
        MacMap::new()
    }
}

} // verus!
