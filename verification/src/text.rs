//! Writing numbers and IP addresses as text.

use crate::address::{IpAddress, IpValue};
use crate::number::Radix;
use vstd::prelude::*;
use vstd::string::StringExecFns;

verus! {

/// The character for the digit `d`; lower case for the digits from ten on.
pub open spec fn spec_digit_char(d: int) -> char {
    if d < 10 {
        (48 + d) as char
    } else {
        (87 + d) as char
    }
}

/// `n` written in base `radix`, without leading zeros.
pub open spec fn spec_numeral(n: int, radix: int) -> Seq<char>
    decreases n,
{
    if n < radix || radix < 2 {
        seq![spec_digit_char(n)]
    } else {
        proof {
            assert(0 <= n / radix < n) by (nonlinear_arith)
                requires
                    n >= radix,
                    radix >= 2,
            ;
        }
        spec_numeral(n / radix, radix).push(spec_digit_char(n % radix))
    }
}

/// The one-character text for the digit `d`.
fn digit_str(d: u32) -> (r: &'static str)
    requires
        d < 16,
    ensures
        r@ == seq![spec_digit_char(d as int)],
{
    proof {
        reveal_strlit("0");
        reveal_strlit("1");
        reveal_strlit("2");
        reveal_strlit("3");
        reveal_strlit("4");
        reveal_strlit("5");
        reveal_strlit("6");
        reveal_strlit("7");
        reveal_strlit("8");
        reveal_strlit("9");
        reveal_strlit("a");
        reveal_strlit("b");
        reveal_strlit("c");
        reveal_strlit("d");
        reveal_strlit("e");
        reveal_strlit("f");
    }
    let r = match d {
        0 => "0",
        1 => "1",
        2 => "2",
        3 => "3",
        4 => "4",
        5 => "5",
        6 => "6",
        7 => "7",
        8 => "8",
        9 => "9",
        10 => "a",
        11 => "b",
        12 => "c",
        13 => "d",
        14 => "e",
        _ => "f",
    };
    assert(r@ =~= seq![spec_digit_char(d as int)]);
    r
}

/// Appends `n`, written in base `radix`, to `out`.
pub fn push_numeral(out: &mut String, n: u32, radix: Radix)
    ensures
        final(out)@ == old(out)@ + spec_numeral(n as int, radix.spec_base()),
    decreases n,
{
    let base = radix.base() as u32;
    if n >= base {
        push_numeral(out, n / base, radix);
        out.append(digit_str(n % base));
        assert(out@ =~= old(out)@ + spec_numeral(n as int / base as int, base as int).push(
            spec_digit_char(n as int % base as int),
        ));
    } else {
        out.append(digit_str(n));
        assert(out@ =~= old(out)@ + seq![spec_digit_char(n as int)]);
    }
}

/// An IPv4 address as text: its four octets in decimal with dots between
/// them.
pub open spec fn spec_ipv4_text(octets: Seq<u8>) -> Seq<char> {
    spec_numeral(octets[0] as int, 10).push('.') + spec_numeral(octets[1] as int, 10).push('.')
        + spec_numeral(octets[2] as int, 10).push('.') + spec_numeral(octets[3] as int, 10)
}

/// Groups as text: each in hexadecimal, with colons between them.
pub open spec fn spec_groups_text(groups: Seq<u16>) -> Seq<char>
    decreases groups.len(),
{
    if groups.len() == 0 {
        Seq::empty()
    } else if groups.len() == 1 {
        spec_numeral(groups[0] as int, 16)
    } else {
        spec_groups_text(groups.drop_last()).push(':') + spec_numeral(groups.last() as int, 16)
    }
}

/// How many groups of zero follow one another from position `i` on.
pub open spec fn spec_zero_run(groups: Seq<u16>, i: int) -> int
    decreases groups.len() - i,
{
    if 0 <= i < groups.len() && groups[i] == 0 {
        1 + spec_zero_run(groups, i + 1)
    } else {
        0
    }
}

/// The longest run of zero groups among those that start before position
/// `n`, as its start and its length; the first one of those that are longest.
pub open spec fn spec_longest_zero_run(groups: Seq<u16>, n: int) -> (int, int)
    decreases n,
{
    if n <= 0 {
        (0, 0)
    } else {
        let before = spec_longest_zero_run(groups, n - 1);
        let here = spec_zero_run(groups, n - 1);
        if here > before.1 {
            (n - 1, here)
        } else {
            before
        }
    }
}

/// Whether the segments are those of an IPv4 address mapped into IPv6: five
/// segments of zero and one of `ffff` before the address.
pub open spec fn spec_is_ipv4_mapped(segments: Seq<u16>) -> bool {
    &&& segments[0] == 0
    &&& segments[1] == 0
    &&& segments[2] == 0
    &&& segments[3] == 0
    &&& segments[4] == 0
    &&& segments[5] == 0xffff
}

/// The octets that the last two segments hold.
pub open spec fn spec_mapped_octets(segments: Seq<u16>) -> Seq<u8> {
    seq![
        (segments[6] / 256) as u8,
        (segments[6] % 256) as u8,
        (segments[7] / 256) as u8,
        (segments[7] % 256) as u8,
    ]
}

/// An IPv6 address as text. A mapped IPv4 address is written as `::ffff:`
/// and the dotted quad. Otherwise the segments are written in hexadecimal with
/// colons between them, and the first longest run of two or more segments of
/// zero is written as `::`.
pub open spec fn spec_ipv6_text(segments: Seq<u16>) -> Seq<char> {
    if spec_is_ipv4_mapped(segments) {
        seq![':', ':', 'f', 'f', 'f', 'f', ':'] + spec_ipv4_text(spec_mapped_octets(segments))
    } else {
        let run = spec_longest_zero_run(segments, 8);
        if run.1 > 1 {
            spec_groups_text(segments.subrange(0, run.0)).push(':').push(':') + spec_groups_text(
                segments.subrange(run.0 + run.1, 8),
            )
        } else {
            spec_groups_text(segments)
        }
    }
}

/// Appends an IPv4 address to `out`.
pub fn push_ipv4(out: &mut String, octets: &[u8; 4])
    ensures
        final(out)@ == old(out)@ + spec_ipv4_text(octets@),
{
    proof {
        reveal_strlit(".");
    }
    push_numeral(out, octets[0] as u32, Radix::Decimal);
    out.append(".");
    push_numeral(out, octets[1] as u32, Radix::Decimal);
    out.append(".");
    push_numeral(out, octets[2] as u32, Radix::Decimal);
    out.append(".");
    push_numeral(out, octets[3] as u32, Radix::Decimal);
    assert(out@ =~= old(out)@ + spec_ipv4_text(octets@));
}

/// Appends the segments from position `from` up to position `to` to `out`.
fn push_groups(out: &mut String, segments: &[u16; 8], from: usize, to: usize)
    requires
        from <= to <= 8,
    ensures
        final(out)@ == old(out)@ + spec_groups_text(segments@.subrange(from as int, to as int)),
{
    let mut k: usize = from;
    while k < to
        invariant
            from <= k <= to <= 8,
            out@ == old(out)@ + spec_groups_text(segments@.subrange(from as int, k as int)),
        decreases to - k,
    {
        if k > from {
            proof {
                reveal_strlit(":");
            }
            out.append(":");
        }
        push_numeral(out, segments[k] as u32, Radix::Hexadecimal);
        proof {
            let next = segments@.subrange(from as int, k as int + 1);
            assert(next.drop_last() =~= segments@.subrange(from as int, k as int));
            assert(next.last() == segments@[k as int]);
            assert(next[0] == segments@[from as int]);
            if k > from {
                assert(next.len() >= 2);
                assert(spec_groups_text(next) == spec_groups_text(next.drop_last()).push(':')
                    + spec_numeral(next.last() as int, 16));
            } else {
                assert(next.len() == 1);
                assert(spec_groups_text(next.drop_last()) =~= Seq::<char>::empty());
                assert(spec_groups_text(next) == spec_numeral(next[0] as int, 16));
            }
            assert(out@ =~= old(out)@ + spec_groups_text(next));
        }
        k = k + 1;
    }
}

/// How many segments of zero follow one another from position `i` on.
fn zero_run(segments: &[u16; 8], i: usize) -> (n: usize)
    requires
        i <= 8,
    ensures
        n == spec_zero_run(segments@, i as int),
        i + n <= 8,
    decreases 8 - i,
{
    if i < 8 && segments[i] == 0 {
        1 + zero_run(segments, i + 1)
    } else {
        0
    }
}

/// The first longest run of segments of zero: its start and its length.
pub fn longest_zero_run(segments: &[u16; 8]) -> (r: (usize, usize))
    ensures
        (r.0 as int, r.1 as int) == spec_longest_zero_run(segments@, 8),
        r.0 + r.1 <= 8,
{
    let mut best: (usize, usize) = (0, 0);
    let mut n: usize = 0;
    while n < 8
        invariant
            n <= 8,
            (best.0 as int, best.1 as int) == spec_longest_zero_run(segments@, n as int),
            best.0 + best.1 <= 8,
        decreases 8 - n,
    {
        let here = zero_run(segments, n);
        if here > best.1 {
            best = (n, here);
        }
        n = n + 1;
    }
    best
}

/// Whether the segments are those of an IPv4 address mapped into IPv6.
pub fn is_ipv4_mapped(segments: &[u16; 8]) -> (r: bool)
    ensures
        r == spec_is_ipv4_mapped(segments@),
{
    segments[0] == 0 && segments[1] == 0 && segments[2] == 0 && segments[3] == 0 && segments[4]
        == 0 && segments[5] == 0xffff
}

/// Appends an IPv6 address to `out`.
pub fn push_ipv6(out: &mut String, segments: &[u16; 8])
    ensures
        final(out)@ == old(out)@ + spec_ipv6_text(segments@),
{
    if is_ipv4_mapped(segments) {
        let octets: [u8; 4] = [
            (segments[6] / 256) as u8,
            (segments[6] % 256) as u8,
            (segments[7] / 256) as u8,
            (segments[7] % 256) as u8,
        ];
        assert(octets@ =~= spec_mapped_octets(segments@));
        proof {
            reveal_strlit("::ffff:");
        }
        out.append("::ffff:");
        push_ipv4(out, &octets);
        assert(out@ =~= old(out)@ + spec_ipv6_text(segments@));
    } else {
        let (start, len) = longest_zero_run(segments);
        if len > 1 {
            proof {
                reveal_strlit("::");
            }
            push_groups(out, segments, 0, start);
            out.append("::");
            push_groups(out, segments, start + len, 8);
            assert(out@ =~= old(out)@ + spec_ipv6_text(segments@));
        } else {
            push_groups(out, segments, 0, 8);
            assert(segments@.subrange(0, 8) =~= segments@);
        }
    }
}

/// An IP address as text.
pub open spec fn spec_ip_text(ip: IpValue) -> Seq<char> {
    match ip {
        IpValue::V4(octets) => spec_ipv4_text(octets),
        IpValue::V6(segments) => spec_ipv6_text(segments),
    }
}

/// A port as text: its number in decimal.
pub open spec fn spec_port_text(port: u16) -> Seq<char> {
    spec_numeral(port as int, 10)
}

/// An IP address as text.
pub fn ip_text(ip: &IpAddress) -> (r: String)
    ensures
        r@ == spec_ip_text(ip@),
{
    let mut out = String::new();
    match ip {
        IpAddress::V4(octets) => push_ipv4(&mut out, octets),
        IpAddress::V6(segments) => push_ipv6(&mut out, segments),
    }
    assert(out@ =~= spec_ip_text(ip@));
    out
}

/// A port as text.
pub fn port_text(port: u16) -> (r: String)
    ensures
        r@ == spec_port_text(port),
{
    let mut out = String::new();
    push_numeral(&mut out, port as u32, Radix::Decimal);
    assert(out@ =~= spec_port_text(port));
    out
}

} // verus!
