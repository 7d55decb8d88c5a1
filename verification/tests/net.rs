use duckdns::net::{AddrKind, AddrParseError, IpAddr, Ipv4Addr, Ipv6Addr, SocketAddr};

fn v6(groups: [u16; 8]) -> Ipv6Addr {
    Ipv6Addr::new(
        groups[0], groups[1], groups[2], groups[3], groups[4], groups[5], groups[6], groups[7],
    )
}

fn read_v6(text: &str) -> Option<[u16; 8]> {
    Ipv6Addr::parse(text).ok().map(|ip| ip.segments())
}

#[test]
fn ipv4_is_read_in_dotted_decimal() {
    assert_eq!(Ipv4Addr::parse("192.0.2.1"), Ok(Ipv4Addr::new(192, 0, 2, 1)));
    assert_eq!(Ipv4Addr::parse("0.0.0.0"), Ok(Ipv4Addr::unspecified()));
    assert_eq!(
        Ipv4Addr::parse("255.255.255.255"),
        Ok(Ipv4Addr::new(255, 255, 255, 255))
    );
    assert_eq!(Ipv4Addr::parse("10.0.0.9"), Ok(Ipv4Addr::new(10, 0, 0, 9)));
    assert_eq!("127.0.0.1".parse(), Ok(Ipv4Addr::new(127, 0, 0, 1)));
    assert_eq!(Ipv4Addr::new(1, 2, 3, 4).octets(), [1, 2, 3, 4]);
}

#[test]
fn ipv4_with_a_fault_is_refused() {
    let refused = Err(AddrParseError(AddrKind::Ipv4));
    for text in [
        "", "1", "1.2.3", "1.2.3.4.5", "1.2.3.", ".1.2.3", "1..2.3", "256.0.0.1", "1.2.3.256",
        "01.2.3.4", "1.2.3.04", "1.2.3.4 ", " 1.2.3.4", "1.2.3.1000", "0001.2.3.4", "a.b.c.d",
        "1.2.3.4\n", "+1.2.3.4", "1.2.3.-4", "00.0.0.0", "0.0.0.00", "1.2.3.4:80", "999.1.1.1",
        "1.2.3.4.", "1.02.3.4", "1.2.3.４",
    ] {
        assert_eq!(Ipv4Addr::parse(text), refused, "{:?}", text);
    }
}

#[test]
fn ipv4_is_written_in_dotted_decimal() {
    assert_eq!(Ipv4Addr::new(192, 0, 2, 1).to_string(), "192.0.2.1");
    assert_eq!(Ipv4Addr::new(0, 0, 0, 0).to_string(), "0.0.0.0");
    assert_eq!(Ipv4Addr::new(255, 100, 10, 9).to_string(), "255.100.10.9");
}

#[test]
fn ipv4_that_is_written_reads_back() {
    for ip in [
        Ipv4Addr::new(0, 0, 0, 0),
        Ipv4Addr::new(1, 20, 254, 255),
        Ipv4Addr::new(100, 99, 10, 9),
    ] {
        assert_eq!(Ipv4Addr::parse(&ip.to_string()), Ok(ip));
    }
}

#[test]
fn ipv6_is_read() {
    assert_eq!(Ipv6Addr::parse("::"), Ok(v6([0; 8])));
    assert_eq!(Ipv6Addr::parse("::1"), Ok(v6([0, 0, 0, 0, 0, 0, 0, 1])));
    assert_eq!(Ipv6Addr::parse("1::"), Ok(v6([1, 0, 0, 0, 0, 0, 0, 0])));
    assert_eq!(Ipv6Addr::parse("1::2"), Ok(v6([1, 0, 0, 0, 0, 0, 0, 2])));
    assert_eq!(
        Ipv6Addr::parse("2001:db8::ff00:42:8329"),
        Ok(v6([0x2001, 0xdb8, 0, 0, 0, 0xff00, 0x42, 0x8329]))
    );
    assert_eq!(
        Ipv6Addr::parse("1:2:3:4:5:6:7:8"),
        Ok(v6([1, 2, 3, 4, 5, 6, 7, 8]))
    );
    assert_eq!(
        Ipv6Addr::parse("1:2:3:4:5:6:7::"),
        Ok(v6([1, 2, 3, 4, 5, 6, 7, 0]))
    );
    assert_eq!(
        Ipv6Addr::parse("::2:3:4:5:6:7:8"),
        Ok(v6([0, 2, 3, 4, 5, 6, 7, 8]))
    );
    assert_eq!(
        Ipv6Addr::parse("1:2:3:4::5:6:7"),
        Ok(v6([1, 2, 3, 4, 0, 5, 6, 7]))
    );
    assert_eq!(
        Ipv6Addr::parse("0001:02:003:4::"),
        Ok(v6([1, 2, 3, 4, 0, 0, 0, 0]))
    );
    assert_eq!(
        Ipv6Addr::parse("ABCD:ef01::"),
        Ok(v6([0xabcd, 0xef01, 0, 0, 0, 0, 0, 0]))
    );
    assert_eq!(
        Ipv6Addr::parse("ffff:ffff:ffff:ffff:ffff:ffff:ffff:ffff"),
        Ok(v6([0xffff; 8]))
    );
    assert_eq!("::1".parse(), Ok(v6([0, 0, 0, 0, 0, 0, 0, 1])));
}

#[test]
fn ipv6_with_a_dotted_end_is_read() {
    assert_eq!(
        Ipv6Addr::parse("::ffff:192.0.2.1"),
        Ok(v6([0, 0, 0, 0, 0, 0xffff, 0xc000, 0x0201]))
    );
    assert_eq!(
        Ipv6Addr::parse("::1.2.3.4"),
        Ok(v6([0, 0, 0, 0, 0, 0, 0x0102, 0x0304]))
    );
    assert_eq!(
        Ipv6Addr::parse("1:2:3:4:5:6:192.0.2.1"),
        Ok(v6([1, 2, 3, 4, 5, 6, 0xc000, 0x0201]))
    );
    assert_eq!(
        Ipv6Addr::parse("1::1.2.3.4"),
        Ok(v6([1, 0, 0, 0, 0, 0, 0x0102, 0x0304]))
    );
    assert_eq!(
        Ipv6Addr::parse("1:2:3:4:5::1.2.3.4"),
        Ok(v6([1, 2, 3, 4, 5, 0, 0x0102, 0x0304]))
    );
    assert_eq!(
        Ipv6Addr::parse("::255.255.255.255"),
        Ok(v6([0, 0, 0, 0, 0, 0, 0xffff, 0xffff]))
    );
}

#[test]
fn ipv6_with_a_fault_is_refused() {
    for text in [
        "", ":", "1", "1:", ":1", ":::", "::1::", "1:::2", "1::2::3", "12345::", "g::",
        "1:2:3:4:5:6:7", "1:2:3:4:5:6:7:8:9", "1:2:3:4:5:6:7:8::", "::1:2:3:4:5:6:7:8",
        "1:2:3:4:5:6:7::8", "1:2:3:4::5:6:7:8", "1.2.3.4::", "1.2.3.4", "1:2:3:4:5:6:7:1.2.3.4",
        "1:2:3:4:5:1.2.3.4", "1:2:3:4:5:6::1.2.3.4", "::1.2.3.4:5", "::01.2.3.4", "::1.2.3",
        "::256.1.1.1", "::00000", " ::1", "::1 ", "fe80::1%1", "[::1]",
    ] {
        assert_eq!(
            Ipv6Addr::parse(text),
            Err(AddrParseError(AddrKind::Ipv6)),
            "{:?}",
            text
        );
    }
}

#[test]
fn ipv6_is_written_as_short_as_it_gets() {
    assert_eq!(v6([0; 8]).to_string(), "::");
    assert_eq!(v6([0, 0, 0, 0, 0, 0, 0, 1]).to_string(), "::1");
    assert_eq!(v6([1, 0, 0, 0, 0, 0, 0, 0]).to_string(), "1::");
    assert_eq!(v6([1, 2, 3, 4, 5, 6, 7, 8]).to_string(), "1:2:3:4:5:6:7:8");
    assert_eq!(
        v6([0x2001, 0xdb8, 0, 0, 0, 0xff00, 0x42, 0x8329]).to_string(),
        "2001:db8::ff00:42:8329"
    );
    assert_eq!(v6([1, 0, 0, 2, 0, 0, 0, 3]).to_string(), "1:0:0:2::3");
    assert_eq!(v6([1, 0, 0, 0, 2, 0, 0, 0]).to_string(), "1::2:0:0:0");
    assert_eq!(v6([1, 0, 0, 2, 0, 0, 3, 4]).to_string(), "1::2:0:0:3:4");
    assert_eq!(v6([1, 0, 2, 0, 3, 0, 4, 0]).to_string(), "1:0:2:0:3:0:4:0");
    assert_eq!(v6([0, 1, 0, 0, 0, 0, 0, 0]).to_string(), "0:1::");
    assert_eq!(v6([1, 2, 3, 4, 5, 6, 0, 0]).to_string(), "1:2:3:4:5:6::");
    assert_eq!(v6([1, 2, 3, 4, 5, 6, 7, 0]).to_string(), "1:2:3:4:5:6:7:0");
    assert_eq!(
        v6([0xffff; 8]).to_string(),
        "ffff:ffff:ffff:ffff:ffff:ffff:ffff:ffff"
    );
    assert_eq!(
        v6([0xabcd, 0x0ef0, 0x00a0, 0x000f, 0x1000, 0x0100, 0x0010, 0x0001]).to_string(),
        "abcd:ef0:a0:f:1000:100:10:1"
    );
}

#[test]
fn ipv6_that_stands_for_ipv4_is_written_dotted() {
    assert_eq!(
        v6([0, 0, 0, 0, 0, 0xffff, 0xc000, 0x0201]).to_string(),
        "::ffff:192.0.2.1"
    );
    assert_eq!(
        v6([0, 0, 0, 0, 0, 0xffff, 0, 0]).to_string(),
        "::ffff:0.0.0.0"
    );
    assert_eq!(v6([0, 0, 0, 0, 0, 0, 0xc000, 0x0201]).to_string(), "::c000:201");
    assert_eq!(v6([0, 0, 0, 0, 1, 0xffff, 1, 2]).to_string(), "::1:ffff:1:2");
}

#[test]
fn ipv6_that_is_written_reads_back() {
    for groups in [
        [0u16; 8],
        [0, 0, 0, 0, 0, 0, 0, 1],
        [1, 0, 0, 2, 0, 0, 0, 3],
        [0, 0, 0, 0, 0, 0xffff, 0xc000, 0x0201],
        [0xabcd, 0x0ef0, 0x00a0, 0x000f, 0x1000, 0x0100, 0x0010, 0x0001],
        [0, 1, 0, 0, 0, 0, 0, 0],
    ] {
        assert_eq!(read_v6(&v6(groups).to_string()), Some(groups));
    }
}

#[test]
fn address_of_either_family_is_read() {
    assert_eq!(
        IpAddr::parse("192.0.2.1"),
        Ok(IpAddr::V4(Ipv4Addr::new(192, 0, 2, 1)))
    );
    assert_eq!(
        IpAddr::parse("::1"),
        Ok(IpAddr::V6(v6([0, 0, 0, 0, 0, 0, 0, 1])))
    );
    assert_eq!(
        IpAddr::parse("::1.2.3.4"),
        Ok(IpAddr::V6(v6([0, 0, 0, 0, 0, 0, 0x0102, 0x0304])))
    );
    for text in ["192.0.2.1:53", "example.com", "1.2.3.4::", "1.2.3", "", "x"] {
        assert_eq!(
            IpAddr::parse(text),
            Err(AddrParseError(AddrKind::Ip)),
            "{:?}",
            text
        );
    }
}

#[test]
fn socket_address_is_read() {
    let ip = Ipv4Addr::new(192, 0, 2, 1);
    assert_eq!(
        SocketAddr::parse("192.0.2.1:53"),
        Ok(SocketAddr::V4 { ip, port: 53 })
    );
    assert_eq!(
        SocketAddr::parse("192.0.2.1:0"),
        Ok(SocketAddr::V4 { ip, port: 0 })
    );
    assert_eq!(
        SocketAddr::parse("192.0.2.1:65535"),
        Ok(SocketAddr::V4 { ip, port: 65535 })
    );
    assert_eq!(
        SocketAddr::parse("192.0.2.1:00053"),
        Ok(SocketAddr::V4 { ip, port: 53 })
    );
    assert_eq!(
        SocketAddr::parse("192.0.2.1:000000000000000000000000000080"),
        Ok(SocketAddr::V4 { ip, port: 80 })
    );
    assert_eq!(
        SocketAddr::parse("[::1]:65535"),
        Ok(SocketAddr::V6 {
            ip: v6([0, 0, 0, 0, 0, 0, 0, 1]),
            port: 65535,
            scope_id: 0
        })
    );
    assert_eq!(
        SocketAddr::parse("[::ffff:1.2.3.4]:8"),
        Ok(SocketAddr::V6 {
            ip: v6([0, 0, 0, 0, 0, 0xffff, 0x0102, 0x0304]),
            port: 8,
            scope_id: 0
        })
    );
    assert_eq!(
        SocketAddr::parse("[1:2:3:4:5:6:7:8]:9"),
        Ok(SocketAddr::V6 {
            ip: v6([1, 2, 3, 4, 5, 6, 7, 8]),
            port: 9,
            scope_id: 0
        })
    );
}

#[test]
fn socket_address_with_a_scope_is_read() {
    let ip = v6([0xfe80, 0, 0, 0, 0, 0, 0, 1]);
    assert_eq!(
        SocketAddr::parse("[fe80::1%7]:80"),
        Ok(SocketAddr::V6 {
            ip,
            port: 80,
            scope_id: 7
        })
    );
    assert_eq!(
        SocketAddr::parse("[fe80::1%01]:80"),
        Ok(SocketAddr::V6 {
            ip,
            port: 80,
            scope_id: 1
        })
    );
    assert_eq!(
        SocketAddr::parse("[fe80::1%4294967295]:80"),
        Ok(SocketAddr::V6 {
            ip,
            port: 80,
            scope_id: 4294967295
        })
    );
}

#[test]
fn socket_address_with_a_fault_is_refused() {
    for text in [
        "", "[", "192.0.2.1", "192.0.2.1:", ":53", "192.0.2.1:65536", "192.0.2.1:53 ",
        "192.0.2.1:5a", "192.0.2.1:99999999999999999999999999", "::1:53", "[::1]", "[::1]:",
        "[::1]53", "[::1:53", "[1.2.3.4]:53", "[]:1", "[::1]:65536", "[fe80::1%]:80",
        "[fe80::1%4294967296]:80", "[fe80::1%eth0]:80", "example.com:53",
    ] {
        assert_eq!(
            SocketAddr::parse(text),
            Err(AddrParseError(AddrKind::Socket)),
            "{:?}",
            text
        );
    }
}

#[test]
fn address_gets_the_port_given() {
    assert_eq!(
        SocketAddr::new(IpAddr::V4(Ipv4Addr::new(192, 0, 2, 1)), 53),
        SocketAddr::V4 {
            ip: Ipv4Addr::new(192, 0, 2, 1),
            port: 53
        }
    );
    assert_eq!(
        SocketAddr::new(IpAddr::V6(v6([0; 8])), 53),
        SocketAddr::V6 {
            ip: v6([0; 8]),
            port: 53,
            scope_id: 0
        }
    );
}
