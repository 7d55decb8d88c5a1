use duckdns::net::{AddrKind, AddrParseError, Ipv4Addr, SocketAddr};
use duckdns::public_ip::{
    check_answers, check_status, ipv4_from_answers, ipv4_from_field, ipv4_from_json,
    ipv4_from_string, ipv4_from_text, Answer, DnsRecordType, Error, ParseRecordTypeError, Reply,
    Service,
};

fn ip() -> Ipv4Addr {
    Ipv4Addr::new(192, 0, 2, 1)
}

#[test]
fn record_type_is_read() {
    assert_eq!("A".parse::<DnsRecordType>().unwrap(), DnsRecordType::A);
    assert_eq!("TXT".parse::<DnsRecordType>().unwrap(), DnsRecordType::TXT);
    assert_eq!(DnsRecordType::parse("A").unwrap(), DnsRecordType::A);
    for text in ["", "a", "txt", "AAAA", "A ", " A", "TXT\n", "TX", "CNAME"] {
        assert!(DnsRecordType::parse(text).is_err(), "{:?}", text);
    }
    assert_eq!(ParseRecordTypeError().to_string(), "unsupported record type");
}

#[test]
fn status_of_success_is_from_200_to_299() {
    assert!(check_status(200).is_ok());
    assert!(check_status(204).is_ok());
    assert!(check_status(299).is_ok());
    for status in [0, 100, 199, 300, 301, 404, 500, 65535] {
        assert!(
            matches!(check_status(status), Err(Error::HttpBadResponse(s)) if s == status),
            "{}",
            status
        );
    }
}

#[test]
fn text_tells_the_address_that_it_writes() {
    assert_eq!(ipv4_from_text("192.0.2.1").unwrap(), ip());
    assert_eq!(ipv4_from_text("192.0.2.1\n").unwrap(), ip());
    assert_eq!(ipv4_from_text("192.0.2.1\r\n").unwrap(), ip());
    assert_eq!(ipv4_from_text("192.0.2.1 \t\n\u{a0}\u{3000}").unwrap(), ip());
}

#[test]
fn text_that_writes_no_address_is_an_error() {
    for body in ["", "\n", " 192.0.2.1", "192.0.2.1 x", "<html>", "192.0.2", "::1"] {
        assert!(
            matches!(
                ipv4_from_text(body),
                Err(Error::ParseAddr(AddrParseError(AddrKind::Ipv4)))
            ),
            "{:?}",
            body
        );
    }
}

#[test]
fn string_tells_the_address_only_where_all_of_it_writes_one() {
    assert_eq!(ipv4_from_string("192.0.2.1").unwrap(), ip());
    assert!(matches!(
        ipv4_from_string("192.0.2.1\n"),
        Err(Error::ParseAddr(_))
    ));
}

#[test]
fn json_tells_the_address_under_the_key() {
    assert_eq!(
        ipv4_from_json(br#"{"ip":"192.0.2.1"}"#, "ip").unwrap(),
        ip()
    );
    assert_eq!(
        ipv4_from_json(
            b" { \"origin\" : \"192.0.2.1\", \"ip\": \"198.51.100.7\" } ",
            "origin"
        )
        .unwrap(),
        ip()
    );
}

#[test]
fn json_without_a_string_under_the_key_misses_the_address() {
    for body in [
        &br#"{"origin":"192.0.2.1"}"#[..],
        br#"{"ip":1}"#,
        br#"{"ip":null}"#,
        br#"{"ip":["192.0.2.1"]}"#,
        br#"{"ip":{"ip":"192.0.2.1"}}"#,
        br#"["192.0.2.1"]"#,
        br#""192.0.2.1""#,
        b"{}",
        b"null",
    ] {
        assert!(
            matches!(ipv4_from_json(body, "ip"), Err(Error::MissingResponse)),
            "{:?}",
            body
        );
    }
}

#[test]
fn json_with_a_string_that_writes_no_address_is_an_error() {
    assert!(matches!(
        ipv4_from_json(br#"{"ip":"192.0.2.1\n"}"#, "ip"),
        Err(Error::ParseAddr(_))
    ));
    assert!(matches!(
        ipv4_from_json(br#"{"ip":"example.com"}"#, "ip"),
        Err(Error::ParseAddr(_))
    ));
}

#[test]
fn what_is_no_json_is_an_http_error() {
    for body in [&b""[..], b"192.0.2.1", b"{", b"{\"ip\":\"192.0.2.1\"", b"\xff"] {
        assert!(
            matches!(ipv4_from_json(body, "ip"), Err(Error::Http(_))),
            "{:?}",
            body
        );
    }
}

#[test]
fn field_of_json_is_read_as_found() {
    assert_eq!(
        ipv4_from_field(Ok(Some("192.0.2.1".to_string()))).unwrap(),
        ip()
    );
    assert!(matches!(
        ipv4_from_field(Ok(Some("192.0.2".to_string()))),
        Err(Error::ParseAddr(_))
    ));
    assert!(matches!(
        ipv4_from_field(Ok(None)),
        Err(Error::MissingResponse)
    ));
    match ipv4_from_field(Err("expected value".to_string())) {
        Err(Error::Http(message)) => assert_eq!(message, "expected value"),
        other => panic!("{:?}", other),
    }
}

#[test]
fn answer_tells_the_address_of_its_first_record() {
    assert_eq!(
        ipv4_from_answers(DnsRecordType::A, &[Answer::A(ip())]).unwrap(),
        ip()
    );
    assert_eq!(
        ipv4_from_answers(
            DnsRecordType::A,
            &[
                Answer::A(ip()),
                Answer::A(Ipv4Addr::new(198, 51, 100, 7)),
                Answer::Other
            ]
        )
        .unwrap(),
        ip()
    );
    assert_eq!(
        ipv4_from_answers(
            DnsRecordType::TXT,
            &[Answer::Txt("192.0.2.1".to_string()), Answer::A(ip())]
        )
        .unwrap(),
        ip()
    );
    assert!(matches!(
        ipv4_from_answers(DnsRecordType::A, &[]),
        Err(Error::MissingResponse)
    ));
    assert!(matches!(
        ipv4_from_answers(DnsRecordType::TXT, &[]),
        Err(Error::MissingResponse)
    ));
    assert!(matches!(
        ipv4_from_answers(
            DnsRecordType::TXT,
            &[Answer::Txt("\"192.0.2.1\"".to_string())]
        ),
        Err(Error::ParseAddr(_))
    ));
}

#[test]
fn first_record_is_to_be_of_the_type_asked_for() {
    assert!(check_answers(DnsRecordType::A, &[]));
    assert!(check_answers(DnsRecordType::TXT, &[]));
    assert!(check_answers(DnsRecordType::A, &[Answer::A(ip()), Answer::Other]));
    assert!(check_answers(
        DnsRecordType::TXT,
        &[Answer::Txt(String::new())]
    ));
    assert!(!check_answers(
        DnsRecordType::A,
        &[Answer::Txt("192.0.2.1".to_string())]
    ));
    assert!(!check_answers(DnsRecordType::TXT, &[Answer::A(ip())]));
    assert!(!check_answers(DnsRecordType::A, &[Answer::Other, Answer::A(ip())]));
    assert!(!check_answers(DnsRecordType::TXT, &[Answer::Other]));
}

#[test]
fn service_reads_the_reply_of_its_kind() {
    let plain = Service::plain_text("http://example.com/".parse().unwrap());
    assert_eq!(
        plain
            .ipv4(&Reply::Text {
                status: 200,
                body: "192.0.2.1\n".to_string()
            })
            .unwrap(),
        ip()
    );
    assert!(matches!(
        plain.ipv4(&Reply::Text {
            status: 503,
            body: "192.0.2.1\n".to_string()
        }),
        Err(Error::HttpBadResponse(503))
    ));
    let json = Service::json("http://example.com/".parse().unwrap(), "ip".to_string());
    assert_eq!(
        json.ipv4(&Reply::Json {
            status: 200,
            body: br#"{"ip":"192.0.2.1"}"#.to_vec()
        })
        .unwrap(),
        ip()
    );
    assert!(matches!(
        json.ipv4(&Reply::Json {
            status: 200,
            body: br#"{"origin":"192.0.2.1"}"#.to_vec()
        }),
        Err(Error::MissingResponse)
    ));
    assert!(matches!(
        json.ipv4(&Reply::Json {
            status: 404,
            body: br#"{"ip":"192.0.2.1"}"#.to_vec()
        }),
        Err(Error::HttpBadResponse(404))
    ));
    let dns = Service::dns(
        SocketAddr::V4 {
            ip: Ipv4Addr::new(208, 67, 222, 222),
            port: 53,
        },
        DnsRecordType::A,
        "myip.opendns.com".parse().unwrap(),
    );
    assert_eq!(
        dns.ipv4(&Reply::Dns {
            answers: vec![Answer::A(ip())]
        })
        .unwrap(),
        ip()
    );
    assert!(matches!(
        dns.ipv4(&Reply::Dns { answers: vec![] }),
        Err(Error::MissingResponse)
    ));
}

#[test]
fn default_service_is_opendns() {
    match Service::try_default().unwrap() {
        Service::Dns {
            server,
            record_type,
            name,
        } => {
            assert_eq!(
                server,
                SocketAddr::V4 {
                    ip: Ipv4Addr::new(208, 67, 222, 222),
                    port: 53
                }
            );
            assert_eq!(record_type, DnsRecordType::A);
            assert_eq!(
                name,
                "myip.opendns.com"
                    .parse::<trust_dns_client::rr::Name>()
                    .unwrap()
            );
        }
        _ => panic!("the default service is a DNS service"),
    }
    assert!(matches!(Service::default(), Service::Dns { .. }));
}

#[test]
fn errors_are_told_in_words() {
    assert_eq!(
        Error::Http("connection refused".to_string()).to_string(),
        "connection refused"
    );
    assert_eq!(
        Error::HttpBadResponse(404).to_string(),
        "Bad response: 404 Not Found"
    );
    assert_eq!(
        Error::HttpBadResponse(599).to_string(),
        "Bad response: 599 <unknown status code>"
    );
    assert_eq!(
        Error::HttpBadResponse(7).to_string(),
        "Bad response: 7 <unknown status code>"
    );
    assert_eq!(
        Error::DnsProto("bad label".to_string()).to_string(),
        "bad label"
    );
    assert_eq!(
        Error::DnsClient("timed out".to_string()).to_string(),
        "timed out"
    );
    assert_eq!(Error::MissingResponse.to_string(), "IP not found in response");
    assert_eq!(
        Error::ParseAddr(AddrParseError(AddrKind::Ipv4)).to_string(),
        "invalid IPv4 address syntax"
    );
    assert_eq!(
        AddrParseError(AddrKind::Ipv6).to_string(),
        "invalid IPv6 address syntax"
    );
    assert_eq!(
        AddrParseError(AddrKind::Ip).to_string(),
        "invalid IP address syntax"
    );
    assert_eq!(
        AddrParseError(AddrKind::Socket).to_string(),
        "invalid socket address syntax"
    );
}

#[test]
fn service_accepts_the_reply_of_its_kind() {
    let plain = Service::plain_text("http://example.com/".parse().unwrap());
    let json = Service::json("http://example.com/".parse().unwrap(), "ip".to_string());
    let dns = Service::dns(
        SocketAddr::V4 {
            ip: Ipv4Addr::new(208, 67, 222, 222),
            port: 53,
        },
        DnsRecordType::TXT,
        "myip.opendns.com".parse().unwrap(),
    );
    let text = Reply::Text {
        status: 200,
        body: String::new(),
    };
    let bytes = Reply::Json {
        status: 200,
        body: Vec::new(),
    };
    let records = Reply::Dns {
        answers: vec![Answer::Txt(String::new())],
    };
    assert!(plain.accepts(&text) && !plain.accepts(&bytes) && !plain.accepts(&records));
    assert!(!json.accepts(&text) && json.accepts(&bytes) && !json.accepts(&records));
    assert!(!dns.accepts(&text) && !dns.accepts(&bytes) && dns.accepts(&records));
    assert!(dns.accepts(&Reply::Dns { answers: vec![] }));
    assert!(!dns.accepts(&Reply::Dns {
        answers: vec![Answer::A(ip())]
    }));
}
