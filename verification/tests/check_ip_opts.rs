use duckdns::check_ip_opts::{CheckIpOpts, HostNotFound, ParseIpOptsError, Server};
use duckdns::net::{IpAddr, Ipv4Addr, SocketAddr};
use duckdns::public_ip::{DnsRecordType, Service};

#[test]
fn it_parses_url_as_plain_text() {
    assert_eq!(
        "http://example.com/".parse::<CheckIpOpts>().unwrap(),
        CheckIpOpts::PlainText {
            url: "http://example.com/".parse().unwrap()
        },
    );
}

#[test]
fn it_parses_json() {
    assert_eq!(
        "json:ip http://example.com/"
            .parse::<CheckIpOpts>()
            .unwrap(),
        CheckIpOpts::Json {
            url: "http://example.com/".parse().unwrap(),
            key: "ip".into(),
        },
    );
}

#[test]
fn it_parses_json_with_space() {
    assert_eq!(
        "json: ip http://example.com/"
            .parse::<CheckIpOpts>()
            .unwrap(),
        CheckIpOpts::Json {
            url: "http://example.com/".parse().unwrap(),
            key: "ip".into(),
        },
    );
}

#[test]
fn it_parses_dns_host() {
    assert_eq!(
        "@example.com A ip.example.com"
            .parse::<CheckIpOpts>()
            .unwrap(),
        CheckIpOpts::Dns {
            server: Server::Host("example.com".parse().unwrap()),
            record_type: Some(DnsRecordType::A),
            name: "ip.example.com".parse().unwrap(),
        },
    );
}

#[test]
fn it_parses_dns_ip() {
    assert_eq!(
        "@192.0.2.1 A ip.example.com"
            .parse::<CheckIpOpts>()
            .unwrap(),
        CheckIpOpts::Dns {
            server: Server::Ip("192.0.2.1".parse().unwrap()),
            record_type: Some(DnsRecordType::A),
            name: "ip.example.com".parse().unwrap(),
        },
    );
}

#[test]
fn it_parses_dns_socket_addr() {
    assert_eq!(
        "@192.0.2.1:53 A ip.example.com"
            .parse::<CheckIpOpts>()
            .unwrap(),
        CheckIpOpts::Dns {
            server: Server::SocketAddr("192.0.2.1:53".parse().unwrap()),
            record_type: Some(DnsRecordType::A),
            name: "ip.example.com".parse().unwrap(),
        },
    );
}

#[test]
fn it_parses_dns_without_record_type() {
    assert_eq!(
        "@example.com ip.example.com"
            .parse::<CheckIpOpts>()
            .unwrap(),
        CheckIpOpts::Dns {
            server: Server::Host("example.com".parse().unwrap()),
            record_type: None,
            name: "ip.example.com".parse().unwrap(),
        },
    );
}

#[test]
fn url_is_held_as_the_url_crate_writes_it() {
    assert_eq!(
        CheckIpOpts::parse("http://EXAMPLE.com").unwrap(),
        CheckIpOpts::PlainText {
            url: url::Url::parse("http://example.com/").unwrap()
        },
    );
    match CheckIpOpts::parse("https://example.com/a b").unwrap() {
        CheckIpOpts::PlainText { url } => assert_eq!(url.as_str(), "https://example.com/a%20b"),
        other => panic!("{:?}", other),
    }
}

#[test]
fn it_parses_dns_txt_record_type() {
    assert_eq!(
        CheckIpOpts::parse("@ns1.google.com TXT o-o.myaddr.l.google.com").unwrap(),
        CheckIpOpts::Dns {
            server: Server::Host("ns1.google.com".parse().unwrap()),
            record_type: Some(DnsRecordType::TXT),
            name: "o-o.myaddr.l.google.com".parse().unwrap(),
        },
    );
}

#[test]
fn socket_address_is_neither_host_nor_bare_address() {
    match CheckIpOpts::parse("@192.0.2.1:53 A ip.example.com").unwrap() {
        CheckIpOpts::Dns { server, .. } => {
            assert!(matches!(server, Server::SocketAddr(_)));
            assert_eq!(
                server,
                Server::SocketAddr(SocketAddr::V4 {
                    ip: Ipv4Addr::new(192, 0, 2, 1),
                    port: 53
                })
            );
        }
        other => panic!("{:?}", other),
    }
}

#[test]
fn blanks_between_tokens_are_spaces_and_tabs() {
    assert_eq!(
        CheckIpOpts::parse("json:\t ip \t\thttp://example.com/").unwrap(),
        CheckIpOpts::Json {
            url: "http://example.com/".parse().unwrap(),
            key: "ip".into(),
        },
    );
    assert_eq!(
        CheckIpOpts::parse("@192.0.2.1\tTXT  \t ip.example.com").unwrap(),
        CheckIpOpts::Dns {
            server: Server::Ip(IpAddr::V4(Ipv4Addr::new(192, 0, 2, 1))),
            record_type: Some(DnsRecordType::TXT),
            name: "ip.example.com".parse().unwrap(),
        },
    );
}

#[test]
fn record_type_is_in_capitals() {
    assert!(CheckIpOpts::parse("@example.com a ip.example.com").is_err());
    assert!(CheckIpOpts::parse("@example.com txt ip.example.com").is_err());
    assert!(CheckIpOpts::parse("@example.com AAAA ip.example.com").is_err());
}

#[test]
fn record_type_without_a_name_after_it_is_the_name() {
    assert_eq!(
        CheckIpOpts::parse("@example.com A").unwrap(),
        CheckIpOpts::Dns {
            server: Server::Host("example.com".parse().unwrap()),
            record_type: None,
            name: "A".parse().unwrap(),
        },
    );
}

#[test]
fn json_form_goes_before_the_url() {
    assert_eq!(
        CheckIpOpts::parse("json:ip data:text/plain,x").unwrap(),
        CheckIpOpts::Json {
            url: "data:text/plain,x".parse().unwrap(),
            key: "ip".into(),
        },
    );
}

#[test]
fn json_form_without_a_url_is_read_as_a_url() {
    assert_eq!(
        CheckIpOpts::parse("json:ip").unwrap(),
        CheckIpOpts::PlainText {
            url: url::Url::parse("json:ip").unwrap()
        },
    );
}

#[test]
fn what_has_none_of_the_forms_is_refused() {
    for text in [
        "", "example.com", "@", "@example.com", "@ example.com", "json", "not a url",
        "@exa mple.com A b c", "@example.com A ip.example.com x",
    ] {
        assert!(CheckIpOpts::parse(text).is_err(), "{:?}", text);
    }
}

#[test]
fn server_is_read_as_the_first_that_fits() {
    assert_eq!(
        Server::parse("192.0.2.1:5353").unwrap(),
        Server::SocketAddr(SocketAddr::V4 {
            ip: Ipv4Addr::new(192, 0, 2, 1),
            port: 5353
        })
    );
    assert_eq!(
        Server::parse("192.0.2.1").unwrap(),
        Server::Ip(IpAddr::V4(Ipv4Addr::new(192, 0, 2, 1)))
    );
    assert_eq!(
        Server::parse("::1").unwrap(),
        Server::Ip("::1".parse().unwrap())
    );
    assert_eq!(
        Server::parse("resolver1.opendns.com").unwrap(),
        Server::Host("resolver1.opendns.com".parse().unwrap())
    );
    assert!(Server::parse("exa mple").is_err());
}

#[test]
fn host_is_looked_up_for_port_53() {
    assert_eq!(
        Server::parse("example.com").unwrap().lookup_host(),
        Some(("example.com".to_string(), 53))
    );
    assert_eq!(Server::parse("192.0.2.1").unwrap().lookup_host(), None);
    assert_eq!(Server::parse("192.0.2.1:53").unwrap().lookup_host(), None);
    assert_eq!(
        CheckIpOpts::parse("@example.com A ip.example.com")
            .unwrap()
            .lookup_host(),
        Some(("example.com".to_string(), 53))
    );
    assert_eq!(
        CheckIpOpts::parse("http://example.com/").unwrap().lookup_host(),
        None
    );
}

fn other() -> SocketAddr {
    SocketAddr::V6 {
        ip: "2001:db8::7".parse().unwrap(),
        port: 53,
        scope_id: 0,
    }
}

#[test]
fn server_is_reached_at_what_was_found_or_given() {
    let found = SocketAddr::V4 {
        ip: Ipv4Addr::new(198, 51, 100, 7),
        port: 53,
    };
    assert_eq!(
        Server::parse("example.com")
            .unwrap()
            .into_socket_addr(&[found, other()])
            .unwrap(),
        found
    );
    assert!(matches!(
        Server::parse("example.com").unwrap().into_socket_addr(&[]),
        Err(HostNotFound())
    ));
    assert_eq!(
        Server::parse("192.0.2.1")
            .unwrap()
            .into_socket_addr(&[])
            .unwrap(),
        SocketAddr::V4 {
            ip: Ipv4Addr::new(192, 0, 2, 1),
            port: 53
        }
    );
    assert_eq!(
        Server::parse("192.0.2.1:5353")
            .unwrap()
            .into_socket_addr(&[found, other()])
            .unwrap(),
        SocketAddr::V4 {
            ip: Ipv4Addr::new(192, 0, 2, 1),
            port: 5353
        }
    );
}

#[test]
fn service_asks_for_an_address_record_where_no_type_was_named() {
    let service = CheckIpOpts::parse("@192.0.2.1 ip.example.com")
        .unwrap()
        .into_service(&[])
        .unwrap();
    match service {
        Service::Dns {
            server,
            record_type,
            name,
        } => {
            assert_eq!(
                server,
                SocketAddr::V4 {
                    ip: Ipv4Addr::new(192, 0, 2, 1),
                    port: 53
                }
            );
            assert_eq!(record_type, DnsRecordType::A);
            assert_eq!(name.to_string(), "ip.example.com");
        }
        _ => panic!("a DNS service was named"),
    }
    let service = CheckIpOpts::parse("@192.0.2.1 TXT ip.example.com")
        .unwrap()
        .into_service(&[])
        .unwrap();
    assert!(matches!(
        service,
        Service::Dns {
            record_type: DnsRecordType::TXT,
            ..
        }
    ));
}

#[test]
fn service_of_a_host_without_an_address_is_none() {
    assert!(CheckIpOpts::parse("@example.com A ip.example.com")
        .unwrap()
        .into_service(&[])
        .is_err());
    assert!(CheckIpOpts::parse("json:ip http://example.com/")
        .unwrap()
        .into_service(&[])
        .is_ok());
}

#[test]
fn name_is_what_the_dns_client_reads_of_the_rest() {
    assert_eq!(
        CheckIpOpts::parse("@example.com ").unwrap(),
        CheckIpOpts::Dns {
            server: Server::Host("example.com".parse().unwrap()),
            record_type: None,
            name: "".parse().unwrap(),
        },
    );
    assert_eq!(
        CheckIpOpts::parse("@example.com A IP.Example.COM.").unwrap(),
        CheckIpOpts::Dns {
            server: Server::Host("example.com".parse().unwrap()),
            record_type: Some(DnsRecordType::A),
            name: "ip.example.com.".parse().unwrap(),
        },
    );
}

#[test]
fn host_is_looked_up_as_the_dns_client_writes_it() {
    assert_eq!(
        Server::parse("EXAMPLE.com.").unwrap().lookup_host(),
        Some(("example.com.".to_string(), 53))
    );
    assert_eq!(
        Server::parse("bücher.example").unwrap().lookup_host(),
        Some(("bücher.example".to_string(), 53))
    );
}

#[test]
fn parser_errors_are_told_in_words() {
    assert_eq!(ParseIpOptsError().to_string(), "bad options format");
    assert_eq!(HostNotFound().to_string(), "could not resolve host");
    assert_eq!(
        CheckIpOpts::parse("").unwrap_err().to_string(),
        "bad options format"
    );
}
