//! Socket addresses as text: an IPv4 address and a port as `a.b.c.d:port`, an
//! IPv6 address and a port as `[address]:port`.

use crate::number::{read_number, spec_number, Radix};
use crate::text::{ip_text, port_text, spec_ip_text, spec_port_text};
use vstd::prelude::*;
use vstd::utf8::encode_utf8;

verus! {

/// An IP address: the four octets of an IPv4 address or the eight 16-bit
/// segments of an IPv6 address, most significant first.
#[derive(Clone, Copy, Debug)]
pub enum IpAddress {
    V4([u8; 4]),
    V6([u16; 8]),
}

/// What an IP address is: its octets or segments as a sequence.
pub enum IpValue {
    V4(Seq<u8>),
    V6(Seq<u16>),
}

impl View for IpAddress {
    type V = IpValue;

    open spec fn view(&self) -> IpValue {
        match self {
            IpAddress::V4(octets) => IpValue::V4(octets@),
            IpAddress::V6(segments) => IpValue::V6(segments@),
        }
    }
}

/// A network socket address: an IP address, a port and, for IPv6, a scope
/// (zero where none is given).
#[derive(Clone, Copy, Debug)]
pub struct SocketAddress {
    pub ip: IpAddress,
    pub port: u16,
    pub scope_id: u32,
}

/// What a socket address is.
pub struct SocketValue {
    pub ip: IpValue,
    pub port: u16,
    pub scope_id: u32,
}

impl View for SocketAddress {
    type V = SocketValue;

    open spec fn view(&self) -> SocketValue {
        SocketValue { ip: self.ip@, port: self.port, scope_id: self.scope_id }
    }
}

/// The position after the character `c`, where `s` holds it at position `i`.
pub open spec fn spec_char(s: Seq<u8>, i: int, c: u8) -> Option<int> {
    if 0 <= i < s.len() && s[i] == c {
        Some(i + 1)
    } else {
        None
    }
}

/// One octet of a dotted quad at position `i`: one to three decimal digits
/// without a leading zero, at most 255.
pub open spec fn spec_octet(s: Seq<u8>, i: int) -> Option<(int, int)> {
    spec_number(s, i, 10, Some(3), false, 255)
}

/// A dot at position `i` and the octet behind it.
pub open spec fn spec_dot_octet(s: Seq<u8>, i: int) -> Option<(int, int)> {
    match spec_char(s, i, 46) {
        Some(j) => spec_octet(s, j),
        None => None,
    }
}

/// The IPv4 address written at position `i` of `s` as four octets with dots
/// between them, and the position that follows it.
pub open spec fn spec_ipv4(s: Seq<u8>, i: int) -> Option<(Seq<u8>, int)> {
    match spec_octet(s, i) {
        None => None,
        Some((a, i1)) => match spec_dot_octet(s, i1) {
            None => None,
            Some((b, i2)) => match spec_dot_octet(s, i2) {
                None => None,
                Some((c, i3)) => match spec_dot_octet(s, i3) {
                    None => None,
                    Some((d, i4)) => Some((seq![a as u8, b as u8, c as u8, d as u8], i4)),
                },
            },
        },
    }
}

/// The port written at position `i` of `s`: a colon and a decimal number of
/// at most 65535, which may have leading zeros.
pub open spec fn spec_port(s: Seq<u8>, i: int) -> Option<(int, int)> {
    match spec_char(s, i, 58) {
        Some(j) => spec_number(s, j, 10, None, true, 65535),
        None => None,
    }
}

/// The socket address that the whole of `s` spells as `a.b.c.d:port`.
pub open spec fn spec_socket_v4(s: Seq<u8>) -> Option<SocketValue> {
    match spec_ipv4(s, 0) {
        None => None,
        Some((octets, i)) => match spec_port(s, i) {
            None => None,
            Some((port, j)) => if j == s.len() {
                Some(SocketValue { ip: IpValue::V4(octets), port: port as u16, scope_id: 0 })
            } else {
                None
            },
        },
    }
}

/// Reads the character `c` at position `i`.
pub fn read_char(s: &[u8], i: usize, c: u8) -> (r: Option<usize>)
    ensures
        r matches Some(j) ==> spec_char(s@, i as int, c) == Some(j as int) && j == i + 1,
        r is None ==> spec_char(s@, i as int, c) is None,
{
    if i < s.len() && s[i] == c {
        Some(i + 1)
    } else {
        None
    }
}

/// Reads one octet of a dotted quad at position `i`.
pub fn read_octet(s: &[u8], i: usize) -> (r: Option<(u8, usize)>)
    ensures
        r matches Some((v, j)) ==> spec_octet(s@, i as int) == Some((v as int, j as int)) && i < j
            <= s@.len(),
        r is None ==> spec_octet(s@, i as int) is None,
{
    match read_number(s, i, Radix::Decimal, Some(3), false, 255) {
        Some((v, j)) => Some((v as u8, j)),
        None => None,
    }
}

/// Reads a dot at position `i` and the octet behind it.
pub fn read_dot_octet(s: &[u8], i: usize) -> (r: Option<(u8, usize)>)
    ensures
        r matches Some((v, j)) ==> spec_dot_octet(s@, i as int) == Some((v as int, j as int)) && i
            < j <= s@.len(),
        r is None ==> spec_dot_octet(s@, i as int) is None,
{
    match read_char(s, i, 46) {
        Some(j) => read_octet(s, j),
        None => None,
    }
}

/// Reads an IPv4 address at position `i`.
pub fn read_ipv4(s: &[u8], i: usize) -> (r: Option<([u8; 4], usize)>)
    ensures
        r matches Some((octets, j)) ==> spec_ipv4(s@, i as int) == Some((octets@, j as int)) && i
            < j <= s@.len(),
        r is None ==> spec_ipv4(s@, i as int) is None,
{
    let (a, i1) = match read_octet(s, i) {
        Some(x) => x,
        None => return None,
    };
    let (b, i2) = match read_dot_octet(s, i1) {
        Some(x) => x,
        None => return None,
    };
    let (c, i3) = match read_dot_octet(s, i2) {
        Some(x) => x,
        None => return None,
    };
    let (d, i4) = match read_dot_octet(s, i3) {
        Some(x) => x,
        None => return None,
    };
    let octets: [u8; 4] = [a, b, c, d];
    assert(octets@ =~= seq![a, b, c, d]);
    Some((octets, i4))
}

/// Reads a colon at position `i` and the port behind it.
pub fn read_port(s: &[u8], i: usize) -> (r: Option<(u16, usize)>)
    ensures
        r matches Some((v, j)) ==> spec_port(s@, i as int) == Some((v as int, j as int)) && i < j
            <= s@.len(),
        r is None ==> spec_port(s@, i as int) is None,
{
    match read_char(s, i, 58) {
        Some(j) => match read_number(s, j, Radix::Decimal, None, true, 65535) {
            Some((v, k)) => Some((v as u16, k)),
            None => None,
        },
        None => None,
    }
}

/// Where group `k` of a colon-separated list starts, the list being read from
/// position `i` on: at `i` for the first group, behind a colon for the others.
pub open spec fn spec_group_start(s: Seq<u8>, i: int, k: int) -> Option<int> {
    if k == 0 {
        Some(i)
    } else {
        spec_char(s, i, 58)
    }
}

/// One group of an IPv6 address as group `k` of a list: one to four
/// hexadecimal digits.
pub open spec fn spec_group(s: Seq<u8>, i: int, k: int) -> Option<(int, int)> {
    match spec_group_start(s, i, k) {
        Some(start) => spec_number(s, start, 16, Some(4), true, 0xffff),
        None => None,
    }
}

/// An IPv4 address in place of groups `k` and `k + 1` of a list that may hold
/// `limit` groups.
pub open spec fn spec_embedded_ipv4(s: Seq<u8>, i: int, k: int, limit: int) -> Option<
    (Seq<u8>, int),
> {
    if k < limit - 1 {
        match spec_group_start(s, i, k) {
            Some(start) => spec_ipv4(s, start),
            None => None,
        }
    } else {
        None
    }
}

/// The two groups that the octets of an embedded IPv4 address fill.
pub open spec fn spec_octet_groups(octets: Seq<u8>) -> Seq<u16> {
    seq![(octets[0] * 256 + octets[1]) as u16, (octets[2] * 256 + octets[3]) as u16]
}

/// The groups of a colon-separated list from group `k` on, the list being
/// read from position `i` on and holding at most `limit` groups: the groups,
/// the position that follows them, and whether the list ended in an embedded
/// IPv4 address. The list takes as many groups as are there; an embedded IPv4
/// address counts for two and ends it.
pub open spec fn spec_groups(s: Seq<u8>, i: int, k: int, limit: int) -> (Seq<u16>, int, bool)
    decreases limit - k,
{
    if k >= limit {
        (Seq::empty(), i, false)
    } else {
        match spec_embedded_ipv4(s, i, k, limit) {
            Some((octets, j)) => (spec_octet_groups(octets), j, true),
            None => match spec_group(s, i, k) {
                Some((group, j)) => {
                    let rest = spec_groups(s, j, k + 1, limit);
                    (seq![group as u16] + rest.0, rest.1, rest.2)
                },
                None => (Seq::empty(), i, false),
            },
        }
    }
}

/// `n` groups of zero.
pub open spec fn spec_zero_groups(n: int) -> Seq<u16> {
    Seq::new(n as nat, |k: int| 0u16)
}

/// The IPv6 address written at position `i` of `s`, and the position that
/// follows it: either eight groups, the last two of which may be an embedded
/// IPv4 address, or fewer groups before and after one `::`, which stands for
/// the groups of zero that are missing, and for at least one.
pub open spec fn spec_ipv6(s: Seq<u8>, i: int) -> Option<(Seq<u16>, int)> {
    let head = spec_groups(s, i, 0, 8);
    if head.0.len() == 8 {
        Some((head.0, head.1))
    } else if head.2 {
        None
    } else {
        match spec_char(s, head.1, 58) {
            None => None,
            Some(j1) => match spec_char(s, j1, 58) {
                None => None,
                Some(j2) => {
                    let tail = spec_groups(s, j2, 0, 7 - head.0.len());
                    Some(
                        (
                            head.0 + spec_zero_groups(8 - head.0.len() - tail.0.len()) + tail.0,
                            tail.1,
                        ),
                    )
                },
            },
        }
    }
}

/// The scope written at position `i` of `s`: a percent sign and a decimal
/// number that fits 32 bits.
pub open spec fn spec_scope(s: Seq<u8>, i: int) -> Option<(int, int)> {
    match spec_char(s, i, 37) {
        Some(j) => spec_number(s, j, 10, None, true, 0xffff_ffff),
        None => None,
    }
}

/// The socket address that the whole of `s` spells as `[address]:port` or
/// `[address%scope]:port`.
pub open spec fn spec_socket_v6(s: Seq<u8>) -> Option<SocketValue> {
    match spec_char(s, 0, 91) {
        None => None,
        Some(i0) => match spec_ipv6(s, i0) {
            None => None,
            Some((segments, i1)) => {
                let scope = match spec_scope(s, i1) {
                    Some(found) => found,
                    None => (0, i1),
                };
                match spec_char(s, scope.1, 93) {
                    None => None,
                    Some(i2) => match spec_port(s, i2) {
                        None => None,
                        Some((port, i3)) => if i3 == s.len() {
                            Some(
                                SocketValue {
                                    ip: IpValue::V6(segments),
                                    port: port as u16,
                                    scope_id: scope.0 as u32,
                                },
                            )
                        } else {
                            None
                        },
                    },
                }
            },
        },
    }
}

/// The socket address that the whole of `s` spells, if it spells one.
pub open spec fn spec_socket_addr(s: Seq<u8>) -> Option<SocketValue> {
    match spec_socket_v4(s) {
        Some(a) => Some(a),
        None => spec_socket_v6(s),
    }
}

/// Reads the whole of `s` as `a.b.c.d:port`.
pub fn read_socket_v4(s: &[u8]) -> (r: Option<SocketAddress>)
    ensures
        r matches Some(a) ==> spec_socket_v4(s@) == Some(a@),
        r is None ==> spec_socket_v4(s@) is None,
{
    let (octets, i) = match read_ipv4(s, 0) {
        Some(x) => x,
        None => return None,
    };
    let (port, j) = match read_port(s, i) {
        Some(x) => x,
        None => return None,
    };
    if j == s.len() {
        Some(SocketAddress { ip: IpAddress::V4(octets), port, scope_id: 0 })
    } else {
        None
    }
}

/// Reads the groups of a colon-separated list at position `i`, at most
/// `limit` of them. Hands back the groups read, filled up with zeros, their
/// number, the position that follows them, and whether the list ended in an
/// embedded IPv4 address.
fn read_groups(s: &[u8], i: usize, limit: usize) -> (r: ([u16; 8], usize, usize, bool))
    requires
        i <= s@.len(),
        limit <= 8,
    ensures
        r.1 <= limit,
        i <= r.2 <= s@.len(),
        spec_groups(s@, i as int, 0, limit as int) == (
            r.0@.subrange(0, r.1 as int),
            r.2 as int,
            r.3,
        ),
        forall|m: int| r.1 <= m < 8 ==> r.0@[m] == 0,
{
    let mut groups: [u16; 8] = [0, 0, 0, 0, 0, 0, 0, 0];
    let mut k: usize = 0;
    let mut pos: usize = i;
    while k < limit
        invariant
            k <= limit <= 8,
            i <= pos <= s@.len(),
            forall|m: int| k <= m < 8 ==> groups@[m] == 0,
            ({
                let rest = spec_groups(s@, pos as int, k as int, limit as int);
                spec_groups(s@, i as int, 0, limit as int) == (
                    groups@.subrange(0, k as int) + rest.0,
                    rest.1,
                    rest.2,
                )
            }),
        decreases limit - k,
    {
        let start = if k == 0 {
            Some(pos)
        } else {
            read_char(s, pos, 58)
        };
        let start = match start {
            Some(st) => st,
            None => {
                assert(groups@.subrange(0, k as int) + Seq::<u16>::empty() =~= groups@.subrange(
                    0,
                    k as int,
                ));
                return (groups, k, pos, false);
            },
        };
        if k + 1 < limit {
            match read_ipv4(s, start) {
                Some((octets, j)) => {
                    let ghost before = groups@;
                    let high: u16 = (octets[0] as u16) * 256 + (octets[1] as u16);
                    let low: u16 = (octets[2] as u16) * 256 + (octets[3] as u16);
                    groups[k] = high;
                    groups[k + 1] = low;
                    assert(groups@.subrange(0, k as int + 2) =~= before.subrange(0, k as int)
                        + spec_octet_groups(octets@));
                    return (groups, k + 2, j, true);
                },
                None => {},
            }
        }
        match read_number(s, start, Radix::Hexadecimal, Some(4), true, 0xffff) {
            Some((group, j)) => {
                let ghost before = groups@;
                groups[k] = group as u16;
                proof {
                    let rest = spec_groups(s@, j as int, k as int + 1, limit as int);
                    assert(groups@.subrange(0, k as int + 1) + rest.0 =~= before.subrange(
                        0,
                        k as int,
                    ) + (seq![group as u16] + rest.0));
                }
                k = k + 1;
                pos = j;
            },
            None => {
                assert(groups@.subrange(0, k as int) + Seq::<u16>::empty() =~= groups@.subrange(
                    0,
                    k as int,
                ));
                return (groups, k, pos, false);
            },
        }
    }
    assert(groups@.subrange(0, k as int) + Seq::<u16>::empty() =~= groups@.subrange(0, k as int));
    (groups, k, pos, false)
}

/// Reads an IPv6 address at position `i`.
pub fn read_ipv6(s: &[u8], i: usize) -> (r: Option<([u16; 8], usize)>)
    ensures
        r matches Some((segments, j)) ==> spec_ipv6(s@, i as int) == Some((segments@, j as int))
            && i <= j <= s@.len(),
        r is None ==> spec_ipv6(s@, i as int) is None,
{
    if i > s.len() {
        return None;
    }
    let (head, head_count, head_end, head_ipv4) = read_groups(s, i, 8);
    if head_count == 8 {
        assert(head@.subrange(0, 8) =~= head@);
        return Some((head, head_end));
    }
    if head_ipv4 {
        return None;
    }
    let j1 = match read_char(s, head_end, 58) {
        Some(j) => j,
        None => return None,
    };
    let j2 = match read_char(s, j1, 58) {
        Some(j) => j,
        None => return None,
    };
    let (tail, tail_count, tail_end, _) = read_groups(s, j2, 7 - head_count);
    let mut segments: [u16; 8] = head;
    let mut t: usize = 0;
    while t < tail_count
        invariant
            t <= tail_count,
            head_count + tail_count <= 7,
            forall|m: int| 0 <= m < 8 - tail_count ==> segments@[m] == head@[m],
            forall|m: int| 8 - tail_count <= m < 8 - tail_count + t ==> segments@[m] == tail@[m - (8 - tail_count)],
        decreases tail_count - t,
    {
        segments[8 - tail_count + t] = tail[t];
        t = t + 1;
    }
    assert(segments@ =~= head@.subrange(0, head_count as int) + spec_zero_groups(
        8 - head_count - tail_count,
    ) + tail@.subrange(0, tail_count as int));
    Some((segments, tail_end))
}

/// Reads a percent sign at position `i` and the scope behind it.
pub fn read_scope(s: &[u8], i: usize) -> (r: Option<(u32, usize)>)
    ensures
        r matches Some((v, j)) ==> spec_scope(s@, i as int) == Some((v as int, j as int)) && i < j
            <= s@.len(),
        r is None ==> spec_scope(s@, i as int) is None,
{
    match read_char(s, i, 37) {
        Some(j) => match read_number(s, j, Radix::Decimal, None, true, 0xffff_ffff) {
            Some((v, k)) => Some((v, k)),
            None => None,
        },
        None => None,
    }
}

/// Reads the whole of `s` as `[address]:port` or `[address%scope]:port`.
pub fn read_socket_v6(s: &[u8]) -> (r: Option<SocketAddress>)
    ensures
        r matches Some(a) ==> spec_socket_v6(s@) == Some(a@),
        r is None ==> spec_socket_v6(s@) is None,
{
    let i0 = match read_char(s, 0, 91) {
        Some(j) => j,
        None => return None,
    };
    let (segments, i1) = match read_ipv6(s, i0) {
        Some(x) => x,
        None => return None,
    };
    let (scope_id, after_scope) = match read_scope(s, i1) {
        Some(x) => x,
        None => (0, i1),
    };
    let i2 = match read_char(s, after_scope, 93) {
        Some(j) => j,
        None => return None,
    };
    let (port, i3) = match read_port(s, i2) {
        Some(x) => x,
        None => return None,
    };
    if i3 == s.len() {
        Some(SocketAddress { ip: IpAddress::V6(segments), port, scope_id })
    } else {
        None
    }
}

/// Reads the whole of `s` as a socket address, IPv4 or IPv6.
pub fn read_socket_addr(s: &[u8]) -> (r: Option<SocketAddress>)
    ensures
        r matches Some(a) ==> spec_socket_addr(s@) == Some(a@),
        r is None ==> spec_socket_addr(s@) is None,
{
    match read_socket_v4(s) {
        Some(a) => Some(a),
        None => read_socket_v6(s),
    }
}

/// What a server is called by, given the address it was asked to listen on:
/// the host and the port of the socket address that the text spells, or, where
/// it spells none, the text itself (a path) and no port.
pub open spec fn spec_server_info(addr: Seq<char>) -> (Seq<char>, Seq<char>) {
    match spec_socket_addr(encode_utf8(addr)) {
        Some(a) => (spec_ip_text(a.ip), spec_port_text(a.port)),
        None => (addr, Seq::empty()),
    }
}

/// Takes the address a server was asked to listen on apart into host and
/// port. A socket address gives its IP address and its port as text. Anything
/// else is taken for the path of a local socket and given back whole, with an
/// empty port. Never fails.
pub fn parse_server_info(addr: &str) -> (r: (String, String))
    ensures
        (r.0@, r.1@) == spec_server_info(addr@),
{
    match read_socket_addr(addr.as_bytes()) {
        Some(a) => (ip_text(&a.ip), port_text(a.port)),
        None => (addr.to_owned(), String::new()),
    }
}

} // verus!
