//! What was written as text is read back as the same value.

use crate::address::{
    spec_char, spec_dot_octet, spec_ipv4, spec_octet, spec_port, spec_server_info, spec_socket_addr,
    spec_socket_v4, IpValue, SocketValue,
};
use crate::number::{lemma_run_end_from_inside, run_end, run_value, spec_digit, spec_number};
use crate::text::{spec_digit_char, spec_ipv4_text, spec_numeral, spec_port_text};
use vstd::prelude::*;
use vstd::utf8::{encode_utf8, is_ascii_chars, is_ascii_chars_encode_utf8};

verus! {

/// Whether `s` holds the characters of `text`, one byte each, from position
/// `i` on.
pub open spec fn spec_written_at(s: Seq<u8>, i: int, text: Seq<char>) -> bool {
    &&& 0 <= i
    &&& i + text.len() <= s.len()
    &&& forall|k: int| 0 <= k < text.len() ==> s[i + k] == #[trigger] text[k] as u8
}

/// A number in decimal is made of decimal digits, at least one, and starts
/// with a zero only where it is zero. A number below a thousand takes at most
/// three digits.
pub proof fn lemma_decimal_shape(n: int)
    requires
        0 <= n,
    ensures
        spec_numeral(n, 10).len() >= 1,
        forall|k: int|
            0 <= k < spec_numeral(n, 10).len() ==> 48 <= #[trigger] spec_numeral(n, 10)[k] as int
                <= 57,
        n >= 1 ==> spec_numeral(n, 10)[0] as int != 48,
        n < 10 <==> spec_numeral(n, 10).len() == 1,
        n < 1000 ==> spec_numeral(n, 10).len() <= 3,
    decreases n,
{
    if n >= 10 {
        lemma_decimal_shape(n / 10);
        let shorter = spec_numeral(n / 10, 10);
        let whole = spec_numeral(n, 10);
        assert(whole == shorter.push(spec_digit_char(n % 10)));
        assert forall|k: int| 0 <= k < whole.len() implies 48 <= #[trigger] whole[k] as int
            <= 57 by {
            if k < shorter.len() {
                assert(whole[k] == shorter[k]);
            }
        }
        assert(whole[0] == shorter[0]);
        if n < 1000 {
            if n >= 100 {
                lemma_decimal_shape(n / 100);
                assert(n / 10 / 10 == n / 100);
            }
        }
    }
}

/// The digits of a number written in decimal spell that number.
pub proof fn lemma_decimal_value(s: Seq<u8>, i: int, n: int)
    requires
        0 <= n,
        spec_written_at(s, i, spec_numeral(n, 10)),
    ensures
        run_value(s, i, i + spec_numeral(n, 10).len(), 10) == n,
        forall|k: int|
            i <= k < i + spec_numeral(n, 10).len() ==> spec_digit(#[trigger] s[k], 10) is Some,
    decreases n,
{
    let whole = spec_numeral(n, 10);
    lemma_decimal_shape(n);
    assert forall|k: int| i <= k < i + whole.len() implies spec_digit(#[trigger] s[k], 10)
        is Some by {
        assert(s[i + (k - i)] == whole[k - i] as u8);
    }
    if n >= 10 {
        let shorter = spec_numeral(n / 10, 10);
        assert(whole == shorter.push(spec_digit_char(n % 10)));
        assert forall|k: int| 0 <= k < shorter.len() implies s[i + k] == #[trigger] shorter[k]
            as u8 by {
            assert(whole[k] == shorter[k]);
        }
        lemma_decimal_value(s, i, n / 10);
        let last = i + whole.len() - 1;
        assert(s[i + (whole.len() - 1)] == whole[whole.len() - 1] as u8);
        assert(whole[whole.len() - 1] == spec_digit_char(n % 10));
        assert(spec_digit(s[last], 10) == Some(n % 10));
        assert(run_value(s, i, i + whole.len(), 10) == run_value(s, i, last, 10) * 10
            + spec_digit(s[last], 10).unwrap());
    } else {
        assert(whole == seq![spec_digit_char(n)]);
        assert(s[i + 0] == whole[0] as u8);
        assert(run_value(s, i, i, 10) == 0);
        assert(run_value(s, i, i + 1, 10) == run_value(s, i, i, 10) * 10 + spec_digit(
            s[i],
            10,
        ).unwrap());
    }
}

/// A number written in decimal at position `i`, with no digit behind it, is
/// read back there, provided that it is within the limits of the reader.
pub proof fn lemma_decimal_reads_back(
    s: Seq<u8>,
    i: int,
    n: int,
    max_digits: Option<int>,
    allow_zero_prefix: bool,
    max_value: int,
)
    requires
        0 <= n <= max_value,
        spec_written_at(s, i, spec_numeral(n, 10)),
        i + spec_numeral(n, 10).len() == s.len() || spec_digit(
            s[i + spec_numeral(n, 10).len()],
            10,
        ) is None,
        max_digits matches Some(m) ==> spec_numeral(n, 10).len() <= m,
    ensures
        spec_number(s, i, 10, max_digits, allow_zero_prefix, max_value) == Some(
            (n, i + spec_numeral(n, 10).len()),
        ),
{
    let end = i + spec_numeral(n, 10).len();
    lemma_decimal_shape(n);
    lemma_decimal_value(s, i, n);
    lemma_run_end_from_inside(s, i, end, 10);
    assert(run_end(s, end, 10) == end);
    assert(s[i + 0] == spec_numeral(n, 10)[0] as u8);
}

/// The text of a socket address: an IPv4 address, a colon and a port.
pub open spec fn spec_ipv4_socket_text(octets: Seq<u8>, port: u16) -> Seq<char> {
    spec_ipv4_text(octets).push(':') + spec_port_text(port)
}

/// ASCII text followed by ASCII text is ASCII text.
pub proof fn lemma_ascii_concat(x: Seq<char>, y: Seq<char>)
    requires
        is_ascii_chars(x),
        is_ascii_chars(y),
    ensures
        is_ascii_chars(x + y),
{
    assert forall|k: int| 0 <= k < (x + y).len() implies '\0' <= #[trigger] (x + y)[k]
        <= '\u{7f}' by {
        if k < x.len() {
            assert((x + y)[k] == x[k]);
        } else {
            assert((x + y)[k] == y[k - x.len()]);
        }
    }
}

/// A number written in decimal is ASCII text.
pub proof fn lemma_decimal_is_ascii(n: int)
    requires
        0 <= n,
    ensures
        is_ascii_chars(spec_numeral(n, 10)),
{
    lemma_decimal_shape(n);
    assert forall|k: int| 0 <= k < spec_numeral(n, 10).len() implies '\0' <= #[trigger] spec_numeral(
        n,
        10,
    )[k] <= '\u{7f}' by {
        assert(48 <= spec_numeral(n, 10)[k] as int <= 57);
    }
}

/// The text of an IPv4 socket address is ASCII text.
pub proof fn lemma_ipv4_socket_text_is_ascii(octets: Seq<u8>, port: u16)
    requires
        octets.len() == 4,
    ensures
        is_ascii_chars(spec_ipv4_socket_text(octets, port)),
{
    let a = spec_numeral(octets[0] as int, 10);
    let b = spec_numeral(octets[1] as int, 10);
    let c = spec_numeral(octets[2] as int, 10);
    let d = spec_numeral(octets[3] as int, 10);
    let p = spec_numeral(port as int, 10);
    lemma_decimal_is_ascii(octets[0] as int);
    lemma_decimal_is_ascii(octets[1] as int);
    lemma_decimal_is_ascii(octets[2] as int);
    lemma_decimal_is_ascii(octets[3] as int);
    lemma_decimal_is_ascii(port as int);
    let dot = seq!['.'];
    let colon = seq![':'];
    assert(is_ascii_chars(dot));
    assert(is_ascii_chars(colon));
    lemma_ascii_concat(a, dot);
    lemma_ascii_concat(a + dot, b);
    lemma_ascii_concat(a + dot + b, dot);
    lemma_ascii_concat(a + dot + b + dot, c);
    lemma_ascii_concat(a + dot + b + dot + c, dot);
    lemma_ascii_concat(a + dot + b + dot + c + dot, d);
    lemma_ascii_concat(a + dot + b + dot + c + dot + d, colon);
    lemma_ascii_concat(a + dot + b + dot + c + dot + d + colon, p);
    assert(spec_ipv4_socket_text(octets, port) =~= a + dot + b + dot + c + dot + d + colon + p);
}

/// Where ASCII text is made of three parts, its bytes hold the middle part
/// behind the first.
pub proof fn lemma_part_is_written(text: Seq<char>, front: Seq<char>, part: Seq<char>, back: Seq<char>)
    requires
        is_ascii_chars(text),
        text == front + part + back,
    ensures
        encode_utf8(text).len() == text.len(),
        spec_written_at(encode_utf8(text), front.len() as int, part),
{
    is_ascii_chars_encode_utf8(text);
    let s = encode_utf8(text);
    assert forall|k: int| 0 <= k < part.len() implies s[front.len() + k] == #[trigger] part[k]
        as u8 by {
        assert(text[front.len() + k] == part[k]);
        assert(text[front.len() + k] as u8 == encode_utf8(text)[front.len() + k]);
    }
}

/// A number written in decimal in the middle of ASCII text, with no digit
/// behind it, is read back from the bytes of the text, and the byte behind it
/// is the character behind it.
pub proof fn lemma_decimal_in_text(
    text: Seq<char>,
    front: Seq<char>,
    n: int,
    back: Seq<char>,
    max_digits: Option<int>,
    allow_zero_prefix: bool,
    max_value: int,
)
    requires
        is_ascii_chars(text),
        text == front + spec_numeral(n, 10) + back,
        0 <= n <= max_value,
        max_digits matches Some(m) ==> n < 1000 && m >= 3,
        back.len() > 0 ==> back[0] == '.' || back[0] == ':',
    ensures
        encode_utf8(text).len() == text.len(),
        spec_number(
            encode_utf8(text),
            front.len() as int,
            10,
            max_digits,
            allow_zero_prefix,
            max_value,
        ) == Some((n, (front.len() + spec_numeral(n, 10).len()) as int)),
        back.len() > 0 ==> encode_utf8(text)[(front.len() + spec_numeral(n, 10).len()) as int]
            == back[0] as u8,
{
    let part = spec_numeral(n, 10);
    let s = encode_utf8(text);
    lemma_part_is_written(text, front, part, back);
    lemma_decimal_shape(n);
    if back.len() > 0 {
        is_ascii_chars_encode_utf8(text);
        let at = (front.len() + part.len()) as int;
        assert(text[at] == back[0]);
        assert(text[at] as u8 == encode_utf8(text)[at]);
    }
    lemma_decimal_reads_back(s, front.len() as int, n, max_digits, allow_zero_prefix, max_value);
}

/// An IPv4 address and a port, written as text with a colon between them,
/// are read back as the socket address that they are.
pub proof fn lemma_ipv4_socket_reads_back(octets: Seq<u8>, port: u16)
    requires
        octets.len() == 4,
    ensures
        spec_socket_addr(encode_utf8(spec_ipv4_socket_text(octets, port))) == Some(
            SocketValue { ip: IpValue::V4(octets), port, scope_id: 0 },
        ),
{
    let a = spec_numeral(octets[0] as int, 10);
    let b = spec_numeral(octets[1] as int, 10);
    let c = spec_numeral(octets[2] as int, 10);
    let d = spec_numeral(octets[3] as int, 10);
    let p = spec_numeral(port as int, 10);
    let dot = seq!['.'];
    let colon = seq![':'];
    let text = spec_ipv4_socket_text(octets, port);
    let s = encode_utf8(text);
    let i1 = a.len() as int;
    let i2 = i1 + 1 + b.len();
    let i3 = i2 + 1 + c.len();
    let i4 = i3 + 1 + d.len();
    let empty = Seq::<char>::empty();
    lemma_ipv4_socket_text_is_ascii(octets, port);
    assert(spec_octet(s, 0) == Some((octets[0] as int, i1)) && s[i1] == 46) by {
        let back = dot + b + dot + c + dot + d + colon + p;
        assert(text =~= empty + a + back);
        lemma_decimal_in_text(text, empty, octets[0] as int, back, Some(3), false, 255);
    }
    assert(spec_octet(s, i1 + 1) == Some((octets[1] as int, i2)) && s[i2] == 46) by {
        let back = dot + c + dot + d + colon + p;
        assert(text =~= (a + dot) + b + back);
        lemma_decimal_in_text(text, a + dot, octets[1] as int, back, Some(3), false, 255);
    }
    assert(spec_octet(s, i2 + 1) == Some((octets[2] as int, i3)) && s[i3] == 46) by {
        let back = dot + d + colon + p;
        assert(text =~= (a + dot + b + dot) + c + back);
        lemma_decimal_in_text(text, a + dot + b + dot, octets[2] as int, back, Some(3), false, 255);
    }
    assert(spec_octet(s, i3 + 1) == Some((octets[3] as int, i4)) && s[i4] == 58) by {
        let back = colon + p;
        assert(text =~= (a + dot + b + dot + c + dot) + d + back);
        lemma_decimal_in_text(
            text,
            a + dot + b + dot + c + dot,
            octets[3] as int,
            back,
            Some(3),
            false,
            255,
        );
    }
    assert(spec_number(s, i4 + 1, 10, None, true, 65535) == Some((port as int, s.len() as int)))
        by {
        assert(text =~= (a + dot + b + dot + c + dot + d + colon) + p + empty);
        lemma_decimal_in_text(
            text,
            a + dot + b + dot + c + dot + d + colon,
            port as int,
            empty,
            None,
            true,
            65535,
        );
    }
    assert(seq![octets[0], octets[1], octets[2], octets[3]] =~= octets);
    assert(spec_dot_octet(s, i1) == spec_octet(s, i1 + 1));
    assert(spec_dot_octet(s, i2) == spec_octet(s, i2 + 1));
    assert(spec_dot_octet(s, i3) == spec_octet(s, i3 + 1));
    assert(spec_ipv4(s, 0) == Some((octets, i4)));
    assert(spec_port(s, i4) == Some((port as int, s.len() as int)));
    assert(spec_socket_v4(s) == Some(SocketValue { ip: IpValue::V4(octets), port, scope_id: 0 }));
}

/// For every IPv4 address and port, `parse_server_info` takes the text
/// `a.b.c.d:port` apart into exactly the text of the address and the text of
/// the port.
pub proof fn lemma_server_info_of_ipv4_socket(octets: Seq<u8>, port: u16)
    requires
        octets.len() == 4,
    ensures
        spec_server_info(spec_ipv4_socket_text(octets, port)) == (
            spec_ipv4_text(octets),
            spec_port_text(port),
        ),
{
    lemma_ipv4_socket_reads_back(octets, port);
}

} // verus!
