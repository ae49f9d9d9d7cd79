//! How addresses and permitted lengths read.

use vstd::prelude::*;
use crate::proto::error::{ExpectedLen, ExpectedLenView};
use crate::proto::mac::MacAddress;

verus! {

/// `String::push` appends one character.
pub assume_specification[ String::push ](s: &mut String, ch: char)
    ensures
        final(s)@ == old(s)@.push(ch),
;

/// `std::fmt::Formatter`, through which a value is written.
#[verifier::external_type_specification]
#[verifier::external_body]
pub struct ExFormatter<'a>(std::fmt::Formatter<'a>);

/// `std::fmt::Error`, which says only that writing failed.
#[verifier::external_type_specification]
#[verifier::external_body]
pub struct ExFmtError(std::fmt::Error);

/// The text that was written through a formatter so far.
pub uninterp spec fn written(f: std::fmt::Formatter<'_>) -> Seq<char>;

/// `Formatter::write_str` writes a text behind what was written before. Whether
/// it succeeds is up to the buffer behind the formatter; what stands there
/// after a failure is left unsaid.
pub assume_specification<'a>[ std::fmt::Formatter::<'a>::write_str ](
    f: &mut std::fmt::Formatter<'a>,
    data: &str,
) -> (r: Result<(), std::fmt::Error>)
    ensures
        r is Ok ==> written(*final(f)) == written(*old(f)) + data@,
;

/// The hexadecimal digit of a number below sixteen.
pub open spec fn hex_digit(n: int) -> char {
    if n < 10 {
        (48 + n) as char
    } else {
        (87 + n) as char
    }
}

/// Octets as two hexadecimal digits each, with colons between them.
pub open spec fn hex_text(octets: Seq<u8>) -> Seq<char>
    decreases octets.len(),
{
    if octets.len() == 0 {
        Seq::empty()
    } else {
        let front = hex_text(octets.drop_last());
        let joined = if octets.len() == 1 {
            front
        } else {
            front.push(':')
        };
        joined.push(hex_digit(octets.last() as int / 16)).push(hex_digit(octets.last() as int % 16))
    }
}

/// The decimal digits of a number.
pub open spec fn decimal_text(n: nat) -> Seq<char>
    decreases n,
{
    if n < 10 {
        seq![(48 + n) as char]
    } else {
        decimal_text(n / 10).push((48 + n % 10) as char)
    }
}

/// Numbers with commas and spaces between them.
pub open spec fn list_text(ns: Seq<usize>) -> Seq<char>
    decreases ns.len(),
{
    if ns.len() == 0 {
        Seq::empty()
    } else if ns.len() == 1 {
        decimal_text(ns[0] as nat)
    } else {
        list_text(ns.drop_last()) + seq![',', ' '] + decimal_text(ns.last() as nat)
    }
}

fn digit_char(n: u8) -> (r: char)
    requires
        n < 16,
    ensures
        r == hex_digit(n as int),
{
    if n < 10 {
        (48 + n) as char
    } else {
        (87 + n) as char
    }
}

fn push_decimal(s: &mut String, n: usize)
    ensures
        final(s)@ == old(s)@ + decimal_text(n as nat),
    decreases n,
{
    if n >= 10 {
        push_decimal(s, n / 10);
    }
    s.push((48 + (n % 10) as u8) as char);
    assert(s@ =~= old(s)@ + decimal_text(n as nat));
}

impl MacAddress {
    /// The address in the usual notation, such as `de:ad:be:ef:00:01`.
    pub fn to_text(&self) -> (r: String)
        ensures
            r@ == hex_text(self.octets()),
    {
        let octets = self.as_bytes();
        let mut s = String::new();
        let mut i: usize = 0;
        assert(s@ =~= hex_text(octets@.take(0)));
        while i < octets.len()
            invariant
                i <= octets@.len(),
                s@ == hex_text(octets@.take(i as int)),
            decreases octets.len() - i,
        {
            assert(octets@.take(i + 1).drop_last() =~= octets@.take(i as int));
            if i > 0 {
                s.push(':');
            }
            s.push(digit_char(octets[i] / 16));
            s.push(digit_char(octets[i] % 16));
            i = i + 1;
        }
        assert(octets@.take(i as int) =~= octets@);
        s
    }
}

/// How an address with these octets reads in a diagnostic.
pub open spec fn mac_debug_text(octets: Seq<u8>) -> Seq<char> {
    ("MacAddress("@ + hex_text(octets)).push(')')
}

impl MacAddress {
    /// The address for a diagnostic, such as `MacAddress(de:ad:be:ef:00:01)`.
    pub fn to_debug_text(&self) -> (r: String)
        ensures
            r@ == mac_debug_text(self.octets()),
    {
        let mut s = "MacAddress(".to_owned();
        s.append(self.to_text().as_str());
        s.push(')');
        s
    }
}

impl std::fmt::Debug for MacAddress {
    fn fmt(&self, f: &mut std::fmt::Formatter<'_>) -> (r: Result<(), std::fmt::Error>)
        ensures
            r is Ok ==> written(*final(f)) == written(*old(f)) + mac_debug_text(self.octets()),
    {
        let text = self.to_debug_text();
        f.write_str(text.as_str())
    }
}

impl ExpectedLenView {
    /// How a rule reads in an error.
    pub open spec fn text(self) -> Seq<char> {
        match self {
            ExpectedLenView::Exact(n) => decimal_text(n),
            ExpectedLenView::AtLeast(n) => "at least "@ + decimal_text(n),
            ExpectedLenView::OneOf(ns) => ("one of ["@ + list_text(ns)).push(']'),
            ExpectedLenView::Multiple(n) => "a multiple of "@ + decimal_text(n),
        }
    }
}

impl ExpectedLen {
    /// How the rule reads in an error: `2`, `at least 1`, `one of [5, 7]` or `a
    /// multiple of 2`.
    pub fn to_text(&self) -> (r: String)
        ensures
            r@ == self@.text(),
    {
        match self {
            ExpectedLen::Exact(n) => {
                let mut s = String::new();
                push_decimal(&mut s, *n);
                assert(s@ =~= decimal_text(*n as nat));
                s
            },
            ExpectedLen::AtLeast(n) => {
                let mut s = "at least ".to_owned();
                push_decimal(&mut s, *n);
                s
            },
            ExpectedLen::OneOf(ns) => {
                let mut s = "one of [".to_owned();
                let mut i: usize = 0;
                assert(s@ =~= "one of ["@ + list_text(ns@.take(0)));
                while i < ns.len()
                    invariant
                        i <= ns@.len(),
                        s@ == "one of ["@ + list_text(ns@.take(i as int)),
                    decreases ns.len() - i,
                {
                    assert(ns@.take(i + 1).drop_last() =~= ns@.take(i as int));
                    if i > 0 {
                        s.push(',');
                        s.push(' ');
                    }
                    push_decimal(&mut s, ns[i]);
                    i = i + 1;
                    assert(s@ =~= "one of ["@ + list_text(ns@.take(i as int)));
                }
                assert(ns@.take(i as int) =~= ns@);
                s.push(']');
                s
            },
            ExpectedLen::Multiple(n) => {
                let mut s = "a multiple of ".to_owned();
                push_decimal(&mut s, *n);
                s
            },
        }
    }
}

} // verus!
