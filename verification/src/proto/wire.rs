//! Big-endian integers as octet sequences.

use vstd::prelude::*;
use vstd::arithmetic::power::pow;

verus! {

/// The `width` octets of `n`, most significant first. What does not fit is
/// dropped from the front.
pub open spec fn be(n: nat, width: nat) -> Seq<u8>
    decreases width,
{
    if width == 0 {
        Seq::empty()
    } else {
        be(n / 256, (width - 1) as nat).push((n % 256) as u8)
    }
}

/// The number whose octets are `s`, most significant first.
pub open spec fn from_be(s: Seq<u8>) -> nat
    decreases s.len(),
{
    if s.len() == 0 {
        0
    } else {
        from_be(s.drop_last()) * 256 + s.last() as nat
    }
}

pub proof fn lemma_be_len(n: nat, width: nat)
    ensures
        be(n, width).len() == width,
    decreases width,
{
    if width > 0 {
        lemma_be_len(n / 256, (width - 1) as nat);
    }
}

/// Reading back what was written gives the number, when it fits.
pub proof fn lemma_from_be_of_be(n: nat, width: nat)
    requires
        n < pow(256, width),
    ensures
        from_be(be(n, width)) == n,
    decreases width,
{
    vstd::arithmetic::power::lemma_pow0(256);
    if width > 0 {
        let rest = (width - 1) as nat;
        vstd::arithmetic::power::lemma_pow_adds(256, rest, 1);
        vstd::arithmetic::power::lemma_pow1(256);
        assert(n / 256 < pow(256, rest));
        lemma_from_be_of_be(n / 256, rest);
        assert(be(n, width).drop_last() =~= be(n / 256, rest));
    }
}

/// Writing what was read gives the octets back.
pub proof fn lemma_be_of_from_be(s: Seq<u8>)
    ensures
        be(from_be(s), s.len()) == s,
        from_be(s) < pow(256, s.len()),
    decreases s.len(),
{
    vstd::arithmetic::power::lemma_pow0(256);
    if s.len() > 0 {
        let rest = (s.len() - 1) as nat;
        vstd::arithmetic::power::lemma_pow_adds(256, rest, 1);
        vstd::arithmetic::power::lemma_pow1(256);
        lemma_be_of_from_be(s.drop_last());
        let high = from_be(s.drop_last());
        let low = s.last() as nat;
        assert((high * 256 + low) / 256 == high);
        assert((high * 256 + low) % 256 == low);
        assert(be(from_be(s), s.len()) =~= s);
    }
}

/// The widths that occur on the wire, with the bounds of the machine integers
/// that hold them.
pub proof fn lemma_widths()
    ensures
        pow(256, 1) == 0x100,
        pow(256, 2) == 0x1_0000,
        pow(256, 4) == 0x1_0000_0000,
        pow(256, 8) == 0x1_0000_0000_0000_0000,
{
    vstd::arithmetic::power::lemma_pow1(256);
    vstd::arithmetic::power::lemma_pow_adds(256, 1, 1);
    vstd::arithmetic::power::lemma_pow_adds(256, 2, 2);
    vstd::arithmetic::power::lemma_pow_adds(256, 4, 4);
    let two = pow(256, 2);
    let four = pow(256, 4);
    assert(two * two == 0x1_0000_0000) by (nonlinear_arith)
        requires
            two == 0x1_0000,
    ;
    assert(four * four == 0x1_0000_0000_0000_0000) by (nonlinear_arith)
        requires
            four == 0x1_0000_0000,
    ;
}

/// Two octets, most significant first.
pub proof fn lemma_from_be_two(s: Seq<u8>)
    requires
        s.len() == 2,
    ensures
        from_be(s) == s[0] * 256 + s[1],
{
    reveal_with_fuel(from_be, 3);
    assert(s.drop_last().last() == s[0]);
}

/// The number in two octets, most significant first.
pub fn u16_from_be(high: u8, low: u8) -> (r: u16)
    ensures
        r == from_be(seq![high, low]),
{
    proof {
        lemma_from_be_two(seq![high, low]);
    }
    high as u16 * 256 + low as u16
}

/// The number in the first four octets of `value`, most significant first.
pub fn read_u32_be(value: &[u8]) -> (r: u32)
    requires
        value@.len() >= 4,
    ensures
        r == from_be(value@.take(4)),
{
    let mut acc: u32 = 0;
    let mut i: usize = 0;
    proof {
        lemma_widths();
    }
    while i < 4
        invariant
            i <= 4,
            value@.len() >= 4,
            acc == from_be(value@.take(i as int)),
            pow(256, 4) == 0x1_0000_0000,
        decreases 4 - i,
    {
        proof {
            let next = value@.take(i + 1);
            assert(next.drop_last() =~= value@.take(i as int));
            lemma_be_of_from_be(next);
            vstd::arithmetic::power::lemma_pow_increases(256, (i + 1) as nat, 4);
        }
        acc = acc * 256 + value[i] as u32;
        i = i + 1;
    }
    acc
}

/// The number in the first eight octets of `value`, most significant first.
pub fn read_u64_be(value: &[u8]) -> (r: u64)
    requires
        value@.len() >= 8,
    ensures
        r == from_be(value@.take(8)),
{
    let mut acc: u64 = 0;
    let mut i: usize = 0;
    proof {
        lemma_widths();
    }
    while i < 8
        invariant
            i <= 8,
            value@.len() >= 8,
            acc == from_be(value@.take(i as int)),
            pow(256, 8) == 0x1_0000_0000_0000_0000,
        decreases 8 - i,
    {
        proof {
            let next = value@.take(i + 1);
            assert(next.drop_last() =~= value@.take(i as int));
            lemma_be_of_from_be(next);
            vstd::arithmetic::power::lemma_pow_increases(256, (i + 1) as nat, 8);
        }
        acc = acc * 256 + value[i] as u64;
        i = i + 1;
    }
    acc
}

} // verus!
