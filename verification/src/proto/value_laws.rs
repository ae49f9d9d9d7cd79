//! What the values of the protocol mean: codes, spans, addresses and their
//! text.

use vstd::prelude::*;
use vstd::arithmetic::power2::pow2;
use crate::proto::duration::Duration;
use crate::proto::error::ExpectedLenView;
use crate::proto::ids::{MessageType, SignalType};
use crate::proto::mac::MacAddress;
use crate::proto::metrics::LinkMetrics;
use crate::proto::status::StatusCode;
use crate::proto::subnet;
use crate::proto::text;

verus! {

/// Status codes end a session from 128 on, and only those.
pub proof fn law_codes_that_terminate(code: StatusCode, answer: bool)
    requires
        call_ensures(StatusCode::terminates_session, (code,), answer),
    ensures
        answer == (code.0 >= 128),
{
}

/// The assigned status codes.
pub proof fn law_status_numbers()
    ensures
        StatusCode::SUCCESS == 0,
        StatusCode::NOT_INTERESTED == 1,
        StatusCode::REQUEST_DENIED == 2,
        StatusCode::INCONSISTENT_DATA == 3,
        StatusCode::UNKNOWN_MESSAGE == 128,
        StatusCode::UNEXPECTED_MESSAGE == 129,
        StatusCode::INVALID_DATA == 130,
        StatusCode::INVALID_DESTINATION == 131,
        StatusCode::TIMED_OUT == 132,
        StatusCode::SHUTTING_DOWN == 255,
{
}

/// The assigned message and signal types.
pub proof fn law_message_numbers()
    ensures
        SignalType::PEER_DISCOVERY == 1,
        SignalType::PEER_OFFER == 2,
        MessageType::SESSION_INITIALIZATION == 1,
        MessageType::SESSION_INITIALIZATION_RESPONSE == 2,
        MessageType::SESSION_UPDATE == 3,
        MessageType::SESSION_UPDATE_RESPONSE == 4,
        MessageType::SESSION_TERMINATION == 5,
        MessageType::SESSION_TERMINATION_RESPONSE == 6,
        MessageType::DESTINATION_UP == 7,
        MessageType::DESTINATION_UP_RESPONSE == 8,
        MessageType::DESTINATION_ANNOUNCE == 9,
        MessageType::DESTINATION_ANNOUNCE_RESPONSE == 10,
        MessageType::DESTINATION_DOWN == 11,
        MessageType::DESTINATION_DOWN_RESPONSE == 12,
        MessageType::DESTINATION_UPDATE == 13,
        MessageType::LINK_CHARACTERISTICS_REQUEST == 14,
        MessageType::LINK_CHARACTERISTICS_RESPONSE == 15,
        MessageType::HEARTBEAT == 16,
{
}

/// Spans made of seconds, milliseconds, microseconds and nanoseconds are so
/// many nanoseconds.
pub proof fn law_spans_of_units(
    n: u64,
    nanos: u128,
    of_nanos: Duration,
    of_micros: Duration,
    of_millis: Duration,
    of_secs: Duration,
)
    requires
        call_ensures(Duration::from_nanos, (nanos,), of_nanos),
        call_ensures(Duration::from_micros, (n,), of_micros),
        call_ensures(Duration::from_millis, (n,), of_millis),
        call_ensures(Duration::from_secs, (n,), of_secs),
    ensures
        of_nanos.nanos == nanos,
        of_micros.nanos == n * 1_000,
        of_millis.nanos == n * 1_000_000,
        of_secs.nanos == n * 1_000_000_000,
{
}

/// A span in units drops what is less than one unit.
pub proof fn law_units_of_spans(d: Duration, micros: u128, millis: u128)
    requires
        call_ensures(Duration::as_micros, (&d,), micros),
        call_ensures(Duration::as_millis, (&d,), millis),
    ensures
        micros * 1_000 <= d.nanos < micros * 1_000 + 1_000,
        millis * 1_000_000 <= d.nanos < millis * 1_000_000 + 1_000_000,
{
}

/// A span several times over is that many times as long, unless it is longer
/// than 64 bits of seconds can count.
pub proof fn law_multiples_of_spans(d: Duration, factor: u32, product: Option<Duration>)
    requires
        call_ensures(Duration::checked_mul, (d, factor), product),
    ensures
        match product {
            Some(longer) => longer.nanos == d.nanos * factor && longer.nanos / 1_000_000_000
                <= 0xffff_ffff_ffff_ffff,
            None => d.nanos * factor >= 0x1_0000_0000_0000_0000 * 1_000_000_000,
        },
{
}

/// An address is its octets, in order: six of an EUI-48, eight of an EUI-64.
pub proof fn law_mac_octets(short: [u8; 6], long: [u8; 8])
    ensures
        MacAddress::Eui48(short).octets() == short@,
        MacAddress::Eui64(long).octets() == long@,
        MacAddress::BROADCAST@ == seq![0xffu8, 0xff, 0xff, 0xff, 0xff, 0xff],
        MacAddress::BROADCAST_EUI48@ == seq![0xffu8, 0xff, 0xff, 0xff, 0xff, 0xff],
        MacAddress::BROADCAST_EUI64@ == seq![0xffu8, 0xff, 0xff, 0xff, 0xff, 0xff, 0xff, 0xff],
{
}

/// Clearing host bits keeps the bits of the prefix and no other: each octet
/// agrees with the original in as many leading bits as the prefix reaches, and
/// the bits behind are zero.
pub proof fn law_network_keeps_the_prefix(octets: Seq<u8>, prefix: int, i: int)
    requires
        0 <= i < octets.len(),
        0 <= prefix,
    ensures
        subnet::network_octets(octets, prefix).len() == octets.len(),
        ({
            let reached = prefix - 8 * i;
            let octet = octets[i] as int;
            let network = subnet::network_octets(octets, prefix)[i] as int;
            if reached >= 8 {
                network == octet
            } else if reached <= 0 {
                network == 0
            } else {
                let unit = pow2((8 - reached) as nat) as int;
                network / unit == octet / unit && network % unit == 0
            }
        }),
{
    let reached = prefix - 8 * i;
    if 0 < reached < 8 {
        let unit = pow2((8 - reached) as nat) as int;
        vstd::arithmetic::power2::lemma_pow2_pos((8 - reached) as nat);
        let x = octets[i] as int;
        vstd::arithmetic::div_mod::lemma_fundamental_div_mod(x, unit);
        vstd::arithmetic::div_mod::lemma_mod_bound(x, unit);
        vstd::arithmetic::div_mod::lemma_mod_decreases(octets[i] as nat, unit as nat);
        assert(x - x % unit == (x / unit) * unit) by {
            assert(unit * (x / unit) == (x / unit) * unit) by (nonlinear_arith);
        }
        vstd::arithmetic::div_mod::lemma_div_multiples_vanish(x / unit, unit);
        vstd::arithmetic::div_mod::lemma_mod_multiples_basic(x / unit, unit);
        assert(unit * (x / unit) == (x / unit) * unit) by (nonlinear_arith);
        let network = subnet::network_octets(octets, prefix)[i] as int;
        assert(8 * i + 8 - prefix == 8 - reached);
        assert(network == x - x % unit);
        assert(network / unit == x / unit);
        assert(network % unit == 0);
    }
}

/// Octets read as two hexadecimal digits each, in lower case, with a colon
/// between one and the next.
pub proof fn law_hexadecimal_text(octets: Seq<u8>, octet: u8)
    ensures
        text::hex_text(Seq::empty()) == Seq::<char>::empty(),
        ({
            let digits = "0123456789abcdef"@;
            let before = text::hex_text(octets);
            let pair = seq![digits[octet as int / 16], digits[octet as int % 16]];
            text::hex_text(octets.push(octet)) == if octets.len() == 0 {
                pair
            } else {
                before + seq![':'] + pair
            }
        }),
{
    reveal_strlit("0123456789abcdef");
    assert(octets.push(octet).drop_last() =~= octets);
    let digits = "0123456789abcdef"@;
    assert forall|n: int| 0 <= n < 16 implies #[trigger] digits[n] == text::hex_digit(n) by {
    }
    let pair = seq![digits[octet as int / 16], digits[octet as int % 16]];
    assert(text::hex_text(octets.push(octet)) =~= if octets.len() == 0 {
        pair
    } else {
        text::hex_text(octets) + seq![':'] + pair
    });
}

/// A number reads as its decimal digits: one digit below ten, and otherwise
/// those of a tenth of it and the remaining one.
pub proof fn law_decimal_text(tens: nat, ones: nat)
    requires
        ones < 10,
    ensures
        ({
            let digit = "0123456789"@[ones as int];
            &&& text::decimal_text(ones) == seq![digit]
            &&& tens > 0 ==> text::decimal_text(10 * tens + ones) == text::decimal_text(
                tens,
            ).push(digit)
        }),
{
    reveal_strlit("0123456789");
    assert((10 * tens + ones) / 10 == tens);
    assert((10 * tens + ones) % 10 == ones);
}

/// How the permitted lengths read.
pub proof fn law_text_of_lengths(n: nat, ns: Seq<usize>, m: usize)
    ensures
        ExpectedLenView::Exact(n).text() == text::decimal_text(n),
        ExpectedLenView::AtLeast(n).text() == "at least "@ + text::decimal_text(n),
        ExpectedLenView::Multiple(n).text() == "a multiple of "@ + text::decimal_text(n),
        ExpectedLenView::OneOf(ns).text() == "one of ["@ + text::list_text(ns) + "]"@,
        text::list_text(Seq::empty()) == Seq::<char>::empty(),
        text::list_text(ns.push(m)) == if ns.len() == 0 {
            text::decimal_text(m as nat)
        } else {
            text::list_text(ns) + ", "@ + text::decimal_text(m as nat)
        },
{
    reveal_strlit("]");
    reveal_strlit(", ");
    assert(ExpectedLenView::OneOf(ns).text() =~= "one of ["@ + text::list_text(ns) + "]"@);
    assert(ns.push(m).drop_last() =~= ns);
    assert(seq![',', ' '] =~= ", "@);
}

/// How an address reads in a diagnostic.
pub proof fn law_text_in_diagnostics(octets: Seq<u8>)
    ensures
        text::mac_debug_text(octets) == "MacAddress("@ + text::hex_text(octets) + ")"@,
{
    reveal_strlit(")");
    assert(text::mac_debug_text(octets) =~= "MacAddress("@ + text::hex_text(octets) + ")"@);
}

/// Metrics that nobody reported are zero.
pub proof fn law_unreported_metrics(m: LinkMetrics)
    requires
        m == LinkMetrics::zero(),
    ensures
        m.max_data_rate_rx_bps == 0,
        m.max_data_rate_tx_bps == 0,
        m.current_data_rate_rx_bps == 0,
        m.current_data_rate_tx_bps == 0,
        m.latency.nanos == 0,
        m.resources == 0,
        m.rlq_rx == 0,
        m.rlq_tx == 0,
        m.mtu == 0,
{
}

} // verus!
