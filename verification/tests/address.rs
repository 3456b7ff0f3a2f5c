use nix::sys::socket::{SockaddrIn, SockaddrIn6};
use transport::address::{
    parse_server_info, read_ipv4, read_ipv6, read_port, read_socket_addr, IpAddress,
};
use transport::number::{digit, read_number, Radix};
use transport::text::{ip_text, port_text};

#[test]
fn test_parse_server_info() {
    assert!(
        parse_server_info("127.0.0.1:7878") == ("127.0.0.1".to_string(), "7878".to_string())
    );
    assert!(
        parse_server_info("/tmp/pyruvate.sock")
            == ("/tmp/pyruvate.sock".to_string(), String::new())
    );
}

fn info(addr: &str) -> (String, String) {
    parse_server_info(addr)
}

fn pair(host: &str, port: &str) -> (String, String) {
    (host.to_string(), port.to_string())
}

fn expected(addr: &str) -> (String, String) {
    if let Ok(a) = addr.parse::<SockaddrIn>() {
        return (format!("{}", a.ip()), format!("{}", a.port()));
    }
    if let Ok(a) = addr.parse::<SockaddrIn6>() {
        return (format!("{}", a.ip()), format!("{}", a.port()));
    }
    (addr.to_string(), String::new())
}

#[test]
fn a_valid_ipv4_socket_address_comes_back_as_it_was_written() {
    assert_eq!(info("0.0.0.0:0"), pair("0.0.0.0", "0"));
    assert_eq!(info("255.255.255.255:65535"), pair("255.255.255.255", "65535"));
    assert_eq!(info("10.0.200.9:443"), pair("10.0.200.9", "443"));
    for a in [0u8, 1, 9, 10, 99, 100, 199, 255] {
        for port in [0u16, 1, 9, 10, 80, 999, 1000, 8080, 65535] {
            let host = format!("{}.{}.{}.{}", a, 255 - a, a / 2, 7);
            let text = format!("{}:{}", host, port);
            assert_eq!(info(&text), (host, format!("{}", port)));
        }
    }
}

#[test]
fn a_port_may_have_leading_zeros_and_loses_them() {
    assert_eq!(info("127.0.0.1:080"), pair("127.0.0.1", "80"));
    assert_eq!(info("127.0.0.1:000000000000000000000"), pair("127.0.0.1", "0"));
    assert_eq!(info("127.0.0.1:0000065535"), pair("127.0.0.1", "65535"));
}

#[test]
fn what_is_no_socket_address_is_a_path() {
    for text in [
        "",
        "/tmp/x.sock",
        "localhost:80",
        "127.0.0.1",
        "127.0.0.1:",
        "127.0.0.1:65536",
        "127.0.0.1:99999999999999999999999",
        "127.0.0.1:80 ",
        " 127.0.0.1:80",
        "127.0.0.1:+80",
        "127.0.0.1:8a",
        "256.0.0.1:80",
        "1.2.3:80",
        "1.2.3.4.5:80",
        "1..3.4:80",
        "01.2.3.4:80",
        "1.2.3.04:80",
        "1.2.3.4444:80",
        "1.2.3.4:80:90",
        "::1:80",
        "[::1]",
        "[::1]:",
        "[::1]80",
        "[::1:80",
        "[]:80",
        "[:::]:80",
        "[1:2:3:4:5:6:7]:80",
        "[1:2:3:4:5:6:7:8:9]:80",
        "[1:2:3:4:5:6:7::8]:80",
        "[1::2::3]:80",
        "[12345::]:80",
        "[g::]:80",
        "[1.2.3.4::]:80",
        "[::1.2.3.4:5]:80",
        "[1:2:3:4:5:6:7:1.2.3.4]:80",
        "[::1%]:80",
        "[::1%x]:80",
        "[::1%4294967296]:80",
        "[::1]:65536",
        "\u{ff11}27.0.0.1:80",
        "127.0.0.1:8\u{0660}",
        "caf\u{e9}",
    ] {
        assert_eq!(info(text), (text.to_string(), String::new()), "{:?}", text);
        assert_eq!(info(text), expected(text), "{:?}", text);
        assert!(read_socket_addr(text.as_bytes()).is_none());
    }
}

#[test]
fn an_ipv6_socket_address_gives_the_address_in_its_short_form() {
    assert_eq!(info("[::1]:80"), pair("::1", "80"));
    assert_eq!(info("[::]:0"), pair("::", "0"));
    assert_eq!(info("[0:0:0:0:0:0:0:0]:1"), pair("::", "1"));
    assert_eq!(info("[1:2:3:4:5:6:7:8]:9"), pair("1:2:3:4:5:6:7:8", "9"));
    assert_eq!(info("[1::8]:9"), pair("1::8", "9"));
    assert_eq!(info("[1:0:0:0:0:0:0:8]:9"), pair("1::8", "9"));
    assert_eq!(info("[1:0:2:3:4:5:6:7]:9"), pair("1:0:2:3:4:5:6:7", "9"));
    assert_eq!(info("[1:0:0:2:0:0:0:3]:9"), pair("1:0:0:2::3", "9"));
    assert_eq!(info("[1:0:0:2:3:0:0:4]:9"), pair("1::2:3:0:0:4", "9"));
    assert_eq!(info("[0:0:1::]:9"), pair("0:0:1::", "9"));
    assert_eq!(info("[ABCD:00ef::0001]:9"), pair("abcd:ef::1", "9"));
    assert_eq!(info("[::ffff:1.2.3.4]:80"), pair("::ffff:1.2.3.4", "80"));
    assert_eq!(info("[::ffff:102:304]:80"), pair("::ffff:1.2.3.4", "80"));
    assert_eq!(info("[::1.2.3.4]:80"), pair("::102:304", "80"));
    assert_eq!(info("[1:2:3:4:5:6:1.2.3.4]:80"), pair("1:2:3:4:5:6:102:304", "80"));
    assert_eq!(info("[64:ff9b::192.0.2.33]:80"), pair("64:ff9b::c000:221", "80"));
    assert_eq!(info("[fe80::1%3]:22"), pair("fe80::1", "22"));
    assert_eq!(info("[fe80::1%003]:022"), pair("fe80::1", "22"));
    assert_eq!(info("[1::%4294967295]:1"), pair("1::", "1"));
}

#[test]
fn server_info_agrees_with_the_standard_parser() {
    let cases = [
        "127.0.0.1:0", "1.2.3.4:65535", "1.2.3.4:65536", "[::1]:80", "[::]:0",
        "[1:2:3:4:5:6:7:8]:9", "[1::8]:9", "[::ffff:1.2.3.4]:80", "[::1.2.3.4]:80",
        "[1:2:3:4:5:6:1.2.3.4]:1", "[fe80::1%3]:22", "256.1.1.1:1", "01.1.1.1:1",
        "1.1.1.1:0080", "[0:0:1:0:0:0:1:0]:5", "[1:0:0:2:0:0:3:4]:5", "[ABCD::ef]:1",
        "[1:2:3:4:5:6:7::]:1", "[::2:3:4:5:6:7:8]:1", "[1:2:3:4:5::1.2.3.4]:1",
        "[1:2:3:4:5:6::1.2.3.4]:1", "[::1:2:3:4:5:1.2.3.4]:1", "[::1:2:3:4:5:6:1.2.3.4]:1",
        "[1::1.2.3.4]:1", "[::ffff:0:0]:1", "[::fffe:1.2.3.4]:1", "[0::ffff:255.255.255.255]:1",
        "[1:2:3:4::5:6:7:8]:1", "[1:2:3::5:6:7:8]:1", "[::0.0.0.1]:1", "[::0.0.0.0]:1",
        "[0:0:0:0:0:0:0:1]:1", "[1:0:0:0:0:0:0:0]:1", "[0:1:0:0:0:0:0:0]:1",
        "[00000::]:1", "[::00001]:1", "[::1.2.3.256]:1", "[::01.2.3.4]:1", "[1:2:3:4:5:6:7:8%9]:1",
    ];
    for c in cases {
        assert_eq!(parse_server_info(c), expected(c), "{}", c);
    }
}

#[test]
fn ipv6_text_agrees_with_the_standard_formatter_on_every_pattern_of_zeros() {
    for pattern in 0u32..256 {
        for filler in [1u16, 0x10, 0xabc, 0xffff] {
            let mut segments = [0u16; 8];
            for (k, segment) in segments.iter_mut().enumerate() {
                if pattern & (1 << k) != 0 {
                    *segment = filler;
                }
            }
            let full = format!(
                "[{:x}:{:x}:{:x}:{:x}:{:x}:{:x}:{:x}:{:x}]:7",
                segments[0], segments[1], segments[2], segments[3], segments[4], segments[5],
                segments[6], segments[7]
            );
            let standard = full.parse::<SockaddrIn6>().unwrap();
            assert_eq!(ip_text(&IpAddress::V6(segments)), format!("{}", standard.ip()));
            assert_eq!(parse_server_info(&full), expected(&full), "{}", full);
            let short = format!("[{}]:7", ip_text(&IpAddress::V6(segments)));
            let (again, end) = read_ipv6(short.as_bytes(), 1).unwrap();
            assert_eq!(again, segments, "{}", short);
            assert_eq!(end, short.len() - 3);
        }
    }
}

#[test]
fn numbers_are_read_as_the_longest_run_of_digits() {
    assert_eq!(read_number(b"123.", 0, Radix::Decimal, Some(3), false, 255), Some((123, 3)));
    assert_eq!(read_number(b"x123", 1, Radix::Decimal, Some(3), false, 255), Some((123, 4)));
    assert_eq!(read_number(b"1234", 0, Radix::Decimal, Some(3), false, 9999), None);
    assert_eq!(read_number(b"256", 0, Radix::Decimal, Some(3), false, 255), None);
    assert_eq!(read_number(b"01", 0, Radix::Decimal, Some(3), false, 255), None);
    assert_eq!(read_number(b"01", 0, Radix::Decimal, Some(3), true, 255), Some((1, 2)));
    assert_eq!(read_number(b"0", 0, Radix::Decimal, Some(3), false, 255), Some((0, 1)));
    assert_eq!(read_number(b"", 0, Radix::Decimal, None, true, 255), None);
    assert_eq!(read_number(b"a", 0, Radix::Decimal, None, true, 255), None);
    assert_eq!(read_number(b"fF0a:", 0, Radix::Hexadecimal, Some(4), true, 0xffff), Some((0xff0a, 4)));
    assert_eq!(read_number(b"4294967295", 0, Radix::Decimal, None, true, 0xffff_ffff), Some((4294967295, 10)));
    assert_eq!(read_number(b"4294967296", 0, Radix::Decimal, None, true, 0xffff_ffff), None);
    assert_eq!(read_number(b"99999999999999999999999999", 0, Radix::Decimal, None, true, 0xffff_ffff), None);
    assert_eq!(read_number(b"12", 2, Radix::Decimal, None, true, 255), None);
    assert_eq!(read_number(b"12", 3, Radix::Decimal, None, true, 255), None);
    assert_eq!(read_number(b"12", usize::MAX, Radix::Decimal, None, true, 255), None);
    assert_eq!(read_number(b"12", 0, Radix::Decimal, Some(0), true, 255), None);
    assert_eq!(read_number(b"ff", 0, Radix::Decimal, None, true, 255), None);
}

#[test]
fn digits_have_their_value_in_their_base() {
    assert_eq!(digit(b'0', Radix::Decimal), Some(0));
    assert_eq!(digit(b'9', Radix::Decimal), Some(9));
    assert_eq!(digit(b'a', Radix::Decimal), None);
    assert_eq!(digit(b'a', Radix::Hexadecimal), Some(10));
    assert_eq!(digit(b'F', Radix::Hexadecimal), Some(15));
    assert_eq!(digit(b'g', Radix::Hexadecimal), None);
    assert_eq!(digit(b'/', Radix::Hexadecimal), None);
    assert_eq!(digit(b':', Radix::Hexadecimal), None);
    assert_eq!(digit(b'@', Radix::Hexadecimal), None);
    assert_eq!(digit(b'`', Radix::Hexadecimal), None);
    assert_eq!(Radix::Decimal.base(), 10);
    assert_eq!(Radix::Hexadecimal.base(), 16);
}

#[test]
fn the_parts_of_an_address_are_read_where_they_stand() {
    assert_eq!(read_ipv4(b"1.22.133.4:5", 0), Some(([1, 22, 133, 4], 10)));
    assert_eq!(read_ipv4(b"::1.2.3.4", 2), Some(([1, 2, 3, 4], 9)));
    assert_eq!(read_ipv4(b"1.2.3", 0), None);
    assert_eq!(read_port(b"1.2.3.4:5", 7), Some((5, 9)));
    assert_eq!(read_port(b"1.2.3.4:5", 6), None);
    assert_eq!(read_ipv6(b"[1::2]", 1), Some(([1, 0, 0, 0, 0, 0, 0, 2], 5)));
    assert_eq!(read_ipv6(b"[1::2]", 7), None);
    assert_eq!(read_ipv4(b"1.2.3.4", 8), None);
    assert_eq!(read_port(b":1", 5), None);
    let a = read_socket_addr(b"[fe80::9%12]:8080").unwrap();
    assert!(matches!(a.ip, IpAddress::V6([0xfe80, 0, 0, 0, 0, 0, 0, 9])));
    assert_eq!(a.port, 8080);
    assert_eq!(a.scope_id, 12);
}

#[test]
fn addresses_and_ports_are_written_in_their_usual_form() {
    assert_eq!(ip_text(&IpAddress::V4([192, 168, 0, 1])), "192.168.0.1");
    assert_eq!(ip_text(&IpAddress::V4([0, 0, 0, 0])), "0.0.0.0");
    assert_eq!(ip_text(&IpAddress::V6([0x2001, 0xdb8, 0, 0, 0, 0, 0, 1])), "2001:db8::1");
    assert_eq!(ip_text(&IpAddress::V6([0, 0, 0, 0, 0, 0xffff, 0xc0a8, 1])), "::ffff:192.168.0.1");
    assert_eq!(port_text(0), "0");
    assert_eq!(port_text(7878), "7878");
    assert_eq!(port_text(65535), "65535");
}
