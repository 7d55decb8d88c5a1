//! The line of text that names a service to ask for the public address.
//!
//! Three forms are read, the first that fits winning:
//!
//! * `json:<key> <url>`, with optional blanks after the colon: a URL that answers with a
//!   JSON object, and the key under which the object holds the address;
//! * `@<server> [<record type>] <name>`: a DNS server, the record type `A` or `TXT` to ask
//!   it for, and the name to ask for;
//! * `<url>`: a URL that answers with the address as plain text.
//!
//! Blanks are spaces and tabs; a key, a server and a record type hold none.

use std::str::FromStr;
use trust_dns_client::rr::Name;
use url::Url;
use vstd::prelude::*;
use vstd::string::StrSliceExecFns;

use crate::dns_name::{name_parse, name_text, name_to_string};
use crate::net::{ip_text, socket_addr, socket_addr_text, IpAddr, SocketAddr};
use crate::public_ip::{record_type_at, record_type_of, DnsRecordType, Service, ServiceView};
use crate::text::{
    chars_of, is_blank, lemma_run_len, lemma_run_len_is, run_len, scan, string_of, CharClass,
};
use crate::web_url::{parse_url, url_parse, url_text};

verus! {

/// A text that names no server.
#[derive(Debug)]
pub struct ParseServerError();

/// A DNS server, as the text names it.
#[derive(Debug, PartialEq)]
pub enum Server {
    /// By name; the address has to be looked up.
    Host(Name),
    /// By address; the port is the one that DNS servers listen on.
    Ip(IpAddr),
    /// By address and port.
    SocketAddr(SocketAddr),
}

/// A `Server`, with the text of the name in place of the name.
pub enum ServerView {
    Host(Seq<char>),
    Ip(IpAddr),
    SocketAddr(SocketAddr),
}

impl View for Server {
    type V = ServerView;

    open spec fn view(&self) -> ServerView {
        match self {
            Server::Host(name) => ServerView::Host(name_text(*name)),
            Server::Ip(ip) => ServerView::Ip(*ip),
            Server::SocketAddr(addr) => ServerView::SocketAddr(*addr),
        }
    }
}

/// A server that was named by a host name for which no address was found.
#[derive(Debug)]
pub struct HostNotFound();

impl HostNotFound {
    /// The error in words.
    pub open spec fn text(self) -> Seq<char> {
        "could not resolve host"@
    }

    /// The error in words.
    pub fn to_string(&self) -> (s: String)
        ensures
            s@ == self.text(),
    {
        "could not resolve host".to_owned()
    }
}

/// The port that DNS servers listen on.
pub const DNS_PORT: u16 = 53;

/// The server that `token` names: an address with a port where it writes one, else an
/// address where it writes one, else a host name where it is one.
pub open spec fn server_of(token: Seq<char>) -> Option<ServerView> {
    match socket_addr_text(token) {
        Some(addr) => Some(ServerView::SocketAddr(addr)),
        None => match ip_text(token) {
            Some(ip) => Some(ServerView::Ip(ip)),
            None => match name_parse(token) {
                Some(name) => Some(ServerView::Host(name)),
                None => None,
            },
        },
    }
}

/// The address at which `server` is reached, where the lookup of its host name, if it was
/// named by one, gave the addresses `found`: the first that the lookup gave, and none where
/// it gave none; an address that was named itself, with the port that was named or else the
/// port of DNS.
pub open spec fn address_of(server: ServerView, found: Seq<SocketAddr>) -> Result<
    SocketAddr,
    HostNotFound,
> {
    match server {
        ServerView::Host(_) => if found.len() > 0 {
            Ok(found[0])
        } else {
            Err(HostNotFound())
        },
        ServerView::Ip(ip) => Ok(socket_addr(ip, DNS_PORT)),
        ServerView::SocketAddr(addr) => Ok(addr),
    }
}

impl Server {
    /// Reads the name of a server.
    pub fn parse(token: &str) -> (r: Result<Server, ParseServerError>)
        ensures
            match r {
                Ok(server) => server_of(token@) == Some(server@),
                Err(_) => server_of(token@) is None,
            },
    {
        match SocketAddr::parse(token) {
            Ok(addr) => Ok(Server::SocketAddr(addr)),
            Err(_) => match IpAddr::parse(token) {
                Ok(ip) => Ok(Server::Ip(ip)),
                Err(_) => match Name::from_str(token) {
                    Ok(name) => Ok(Server::Host(name)),
                    Err(_) => Err(ParseServerError()),
                },
            },
        }
    }

    /// The host name to look up before the server can be reached, if it was named by one.
    pub fn lookup_host(&self) -> (r: Option<(String, u16)>)
        ensures
            match self@ {
                ServerView::Host(name) => r matches Some((host, port)) && host@ == name && port
                    == DNS_PORT,
                _ => r is None,
            },
    {
        match self {
            Server::Host(name) => Some((name_to_string(name), DNS_PORT)),
            _ => None,
        }
    }

    /// The address at which the server is reached. `found` holds the addresses that the
    /// lookup of the host name gave, in the order in which it gave them, if the server was
    /// named by one: the first of them is taken.
    pub fn into_socket_addr(self, found: &[SocketAddr]) -> (r: Result<SocketAddr, HostNotFound>)
        ensures
            r == address_of(self@, found@),
    {
        match self {
            Server::Host(_) => if found.len() > 0 {
                Ok(found[0])
            } else {
                Err(HostNotFound())
            },
            Server::Ip(ip) => Ok(SocketAddr::new(ip, DNS_PORT)),
            Server::SocketAddr(addr) => Ok(addr),
        }
    }
}

impl FromStr for Server {
    type Err = ParseServerError;

    fn from_str(s: &str) -> (r: Result<Server, ParseServerError>)
        ensures
            match r {
                Ok(server) => server_of(s@) == Some(server@),
                Err(_) => server_of(s@) is None,
            },
    {
        Server::parse(s)
    }
}

/// A text that names no service.
#[derive(Debug)]
pub struct ParseIpOptsError();

impl ParseIpOptsError {
    /// The error in words.
    pub open spec fn text(self) -> Seq<char> {
        "bad options format"@
    }

    /// The error in words.
    pub fn to_string(&self) -> (s: String)
        ensures
            s@ == self.text(),
    {
        "bad options format".to_owned()
    }
}

/// A service to ask for the public address, as the text names it.
#[derive(Debug, PartialEq)]
pub enum CheckIpOpts {
    PlainText { url: Url },
    Json { url: Url, key: String },
    Dns { server: Server, record_type: Option<DnsRecordType>, name: Name },
}

/// A `CheckIpOpts`, with the text of each URL and name in its place.
pub enum CheckIpOptsView {
    PlainText { url: Seq<char> },
    Json { url: Seq<char>, key: Seq<char> },
    Dns { server: ServerView, record_type: Option<DnsRecordType>, name: Seq<char> },
}

impl View for CheckIpOpts {
    type V = CheckIpOptsView;

    open spec fn view(&self) -> CheckIpOptsView {
        match self {
            CheckIpOpts::PlainText { url } => CheckIpOptsView::PlainText { url: url_text(*url) },
            CheckIpOpts::Json { url, key } => CheckIpOptsView::Json {
                url: url_text(*url),
                key: key@,
            },
            CheckIpOpts::Dns { server, record_type, name } => CheckIpOptsView::Dns {
                server: server@,
                record_type: *record_type,
                name: name_text(*name),
            },
        }
    }
}

/// The lengths of the token that `s` starts with and of the blanks after it, where `s`
/// starts with a token and blanks follow it.
pub open spec fn token_prefix(s: Seq<char>) -> Option<(int, int)> {
    let token = run_len(s, CharClass::Visible) as int;
    let blanks = run_len(s.skip(token), CharClass::Blank) as int;
    if token > 0 && blanks > 0 {
        Some((token, blanks))
    } else {
        None
    }
}

/// The five characters that the JSON form starts with.
pub open spec fn json_tag() -> Seq<char> {
    seq!['j', 's', 'o', 'n', ':']
}

/// Where the parts of the JSON form lie in `s`: the index at which the key starts, the
/// index at which it ends, and the index at which the URL starts and runs to the end.
pub open spec fn json_split(s: Seq<char>) -> Option<(int, int, int)> {
    if json_tag().is_prefix_of(s) {
        let key = 5 + run_len(s.skip(5), CharClass::Blank) as int;
        match token_prefix(s.skip(key)) {
            Some((token, blanks)) => Some((key, key + token, key + token + blanks)),
            None => None,
        }
    } else {
        None
    }
}

/// Where the parts of the DNS form lie in `s`: the index at which the server, which starts
/// after the `@`, ends; the record type, if a token that names one and blanks come next;
/// and the index at which the name starts and runs to the end.
pub open spec fn dns_split(s: Seq<char>) -> Option<(int, Option<DnsRecordType>, int)> {
    if s.len() > 0 && s[0] == '@' {
        match token_prefix(s.skip(1)) {
            Some((server, blanks)) => {
                let next: int = 1 + server + blanks;
                match token_prefix(s.skip(next)) {
                    Some((token, more)) => match record_type_of(s.subrange(next, next + token)) {
                        Some(record_type) => Some(
                            (1 + server, Some(record_type), next + token + more),
                        ),
                        None => Some((1 + server, None, next)),
                    },
                    None => Some((1 + server, None, next)),
                }
            },
            None => None,
        }
    } else {
        None
    }
}

/// What `s` is read as in the JSON form, if it has that form and its URL is one.
pub open spec fn json_of(s: Seq<char>) -> Option<CheckIpOptsView> {
    match json_split(s) {
        Some((key, key_end, url)) => match url_parse(s.skip(url)) {
            Some(text) => Some(CheckIpOptsView::Json { url: text, key: s.subrange(key, key_end) }),
            None => None,
        },
        None => None,
    }
}

/// What `s` is read as in the DNS form, if it has that form, its server is one and its
/// name is one.
pub open spec fn dns_of(s: Seq<char>) -> Option<CheckIpOptsView> {
    match dns_split(s) {
        Some((server_end, record_type, name)) => match server_of(s.subrange(1, server_end)) {
            Some(server) => match name_parse(s.skip(name)) {
                Some(text) => Some(CheckIpOptsView::Dns { server, record_type, name: text }),
                None => None,
            },
            None => None,
        },
        None => None,
    }
}

/// What `s` is read as: in the JSON form where that fits, else in the DNS form where that
/// fits, else as a URL where it is one.
pub open spec fn opts_of(s: Seq<char>) -> Option<CheckIpOptsView> {
    match json_of(s) {
        Some(opts) => Some(opts),
        None => match dns_of(s) {
            Some(opts) => Some(opts),
            None => match url_parse(s) {
                Some(text) => Some(CheckIpOptsView::PlainText { url: text }),
                None => None,
            },
        },
    }
}

/// A URL that has neither the JSON form nor the DNS form is read as the plain-text service
/// at that URL.
pub proof fn law_url_is_plain_text(u: Seq<char>)
    requires
        url_parse(u) is Some,
        json_of(u) is None,
        dns_of(u) is None,
    ensures
        opts_of(u) == Some(CheckIpOptsView::PlainText { url: url_parse(u)->0 }),
{
}

/// The JSON form with the key `k`, the blanks `gap` before the key, one space after it and
/// then the URL `u`.
proof fn lemma_json_form(gap: Seq<char>, k: Seq<char>, u: Seq<char>)
    requires
        forall|i: int| 0 <= i < gap.len() ==> CharClass::Blank.has(#[trigger] gap[i]),
        k.len() > 0,
        forall|i: int| 0 <= i < k.len() ==> CharClass::Visible.has(#[trigger] k[i]),
        u.len() > 0 ==> CharClass::Visible.has(u[0]),
        url_parse(u) is Some,
    ensures
        opts_of(json_tag() + gap + k + seq![' '] + u) == Some(
            CheckIpOptsView::Json { url: url_parse(u)->0, key: k },
        ),
{
    let s = json_tag() + gap + k + seq![' '] + u;
    let key: int = 5 + gap.len() as int;
    assert(json_tag().is_prefix_of(s)) by {
        assert(s.subrange(0, 5) == json_tag());
    }
    let after_tag = s.skip(5);
    assert(after_tag == gap + k + seq![' '] + u);
    assert(after_tag[gap.len() as int] == k[0]);
    assert forall|i: int| 0 <= i < gap.len() implies CharClass::Blank.has(
        #[trigger] after_tag[i],
    ) by {
        assert(after_tag[i] == gap[i]);
    }
    lemma_run_len_is(after_tag, CharClass::Blank, gap.len());
    let from_key = s.skip(key);
    assert(from_key == k + seq![' '] + u);
    assert forall|i: int| 0 <= i < k.len() implies CharClass::Visible.has(
        #[trigger] from_key[i],
    ) by {
        assert(from_key[i] == k[i]);
    }
    assert(from_key[k.len() as int] == ' ');
    lemma_run_len_is(from_key, CharClass::Visible, k.len());
    let from_space = from_key.skip(k.len() as int);
    assert(from_space == seq![' '] + u);
    assert(from_space[0] == ' ');
    if u.len() > 0 {
        assert(from_space[1] == u[0]);
    }
    lemma_run_len_is(from_space, CharClass::Blank, 1);
    assert(token_prefix(from_key) == Some((k.len() as int, 1int)));
    assert(json_split(s) == Some((key, key + k.len(), key + k.len() + 1)));
    assert(s.skip(key + k.len() + 1) == u);
    assert(s.subrange(key, key + k.len()) == k);
}

/// A key, one space and a URL, after `json:` or `json: `, are read as the JSON service at
/// that URL with that key. The key is not empty and holds no blank, and the URL does not
/// start with one.
pub proof fn law_json_form(k: Seq<char>, u: Seq<char>)
    requires
        k.len() > 0,
        forall|i: int| 0 <= i < k.len() ==> !is_blank(#[trigger] k[i]),
        u.len() > 0 ==> !is_blank(u[0]),
        url_parse(u) is Some,
    ensures
        opts_of(json_tag() + k + seq![' '] + u) == Some(
            CheckIpOptsView::Json { url: url_parse(u)->0, key: k },
        ),
        opts_of(json_tag() + seq![' '] + k + seq![' '] + u) == Some(
            CheckIpOptsView::Json { url: url_parse(u)->0, key: k },
        ),
{
    lemma_json_form(Seq::empty(), k, u);
    assert(json_tag() + Seq::<char>::empty() == json_tag());
    lemma_json_form(seq![' '], k, u);
}

/// The text that names a record type.
pub open spec fn record_type_text(record_type: DnsRecordType) -> Seq<char> {
    match record_type {
        DnsRecordType::A => seq!['A'],
        DnsRecordType::TXT => seq!['T', 'X', 'T'],
    }
}

/// What stands between the server and the name in the DNS form: the record type and a
/// space, where one is named.
pub open spec fn record_type_part(record_type: Option<DnsRecordType>) -> Seq<char> {
    match record_type {
        Some(t) => record_type_text(t) + seq![' '],
        None => Seq::empty(),
    }
}

/// The start of the DNS form: `@`, a server and a space, before `rest`, which does not
/// start with a blank.
proof fn lemma_dns_head(server: Seq<char>, rest: Seq<char>)
    requires
        server.len() > 0,
        forall|i: int| 0 <= i < server.len() ==> !is_blank(#[trigger] server[i]),
        rest.len() > 0 ==> !is_blank(rest[0]),
    ensures
        ({
            let s = seq!['@'] + server + seq![' '] + rest;
            &&& s[0] == '@'
            &&& !json_tag().is_prefix_of(s)
            &&& token_prefix(s.skip(1)) == Some((server.len() as int, 1int))
            &&& s.subrange(1, 1 + server.len() as int) == server
            &&& s.skip(server.len() as int + 2) == rest
        }),
{
    let s = seq!['@'] + server + seq![' '] + rest;
    assert(s[0] == '@');
    if json_tag().is_prefix_of(s) {
        assert(json_tag()[0] == s[0]);
    }
    let from_server = s.skip(1);
    assert(from_server == server + seq![' '] + rest);
    assert forall|i: int| 0 <= i < server.len() implies CharClass::Visible.has(
        #[trigger] from_server[i],
    ) by {
        assert(from_server[i] == server[i]);
    }
    assert(from_server[server.len() as int] == ' ');
    lemma_run_len_is(from_server, CharClass::Visible, server.len());
    let from_space = from_server.skip(server.len() as int);
    assert(from_space == seq![' '] + rest);
    assert(from_space[0] == ' ');
    if rest.len() > 0 {
        assert(from_space[1] == rest[0]);
    }
    lemma_run_len_is(from_space, CharClass::Blank, 1);
}

/// The record type of the DNS form: its name and a space, before `name`, which does not
/// start with a blank.
proof fn lemma_dns_record_type(record_type: DnsRecordType, name: Seq<char>)
    requires
        name.len() > 0 ==> !is_blank(name[0]),
    ensures
        ({
            let word = record_type_text(record_type);
            let rest = word + seq![' '] + name;
            &&& token_prefix(rest) == Some((word.len() as int, 1int))
            &&& rest.take(word.len() as int) == word
            &&& record_type_of(word) == Some(record_type)
            &&& rest.skip(word.len() as int + 1) == name
            &&& !is_blank(rest[0])
        }),
{
    let word = record_type_text(record_type);
    let rest = word + seq![' '] + name;
    assert forall|i: int| 0 <= i < word.len() implies CharClass::Visible.has(
        #[trigger] rest[i],
    ) by {
        assert(rest[i] == word[i]);
    }
    assert(rest[word.len() as int] == ' ');
    lemma_run_len_is(rest, CharClass::Visible, word.len());
    let from_blank = rest.skip(word.len() as int);
    assert(from_blank == seq![' '] + name);
    assert(from_blank[0] == ' ');
    if name.len() > 0 {
        assert(from_blank[1] == name[0]);
    }
    lemma_run_len_is(from_blank, CharClass::Blank, 1);
    assert(rest[0] == word[0]);
}

/// A server, a space, a record type and a space where one is named, and a name, after `@`,
/// are read as the DNS service of that server, record type and name. The server is not
/// empty and holds no blank, and the name does not start with one; where no record type is
/// named, the name does not start with one and blanks either.
pub proof fn law_dns_form(server: Seq<char>, record_type: Option<DnsRecordType>, name: Seq<char>)
    requires
        server.len() > 0,
        forall|i: int| 0 <= i < server.len() ==> !is_blank(#[trigger] server[i]),
        name.len() > 0 ==> !is_blank(name[0]),
        record_type is None ==> (token_prefix(name) matches Some((token, _)) ==> record_type_of(
            name.take(token),
        ) is None),
        server_of(server) is Some,
        name_parse(name) is Some,
    ensures
        opts_of(seq!['@'] + server + seq![' '] + record_type_part(record_type) + name) == Some(
            CheckIpOptsView::Dns {
                server: server_of(server)->0,
                record_type,
                name: name_parse(name)->0,
            },
        ),
{
    let rest = record_type_part(record_type) + name;
    let s = seq!['@'] + server + seq![' '] + rest;
    assert(s == seq!['@'] + server + seq![' '] + record_type_part(record_type) + name);
    let next: int = server.len() as int + 2;
    match record_type {
        Some(t) => {
            let word = record_type_text(t);
            assert(rest == word + seq![' '] + name);
            lemma_dns_record_type(t, name);
            lemma_dns_head(server, rest);
            assert(s.subrange(next, next + word.len()) == rest.take(word.len() as int));
            assert(s.skip(next + word.len() + 1) == rest.skip(word.len() as int + 1));
            assert(dns_split(s) == Some((next - 1, Some(t), next + word.len() + 1)));
        },
        None => {
            assert(rest == name);
            lemma_dns_head(server, rest);
            match token_prefix(name) {
                Some((token, more)) => {
                    lemma_run_len(name, CharClass::Visible);
                    assert(s.subrange(next, next + token) == name.take(token));
                },
                None => {},
            }
            assert(dns_split(s) == Some((next - 1, None::<DnsRecordType>, next)));
        },
    }
}

/// The token that starts at `from` and the blanks after it: the index at which the token
/// ends and the index at which the blanks end.
pub fn token_at(cs: &[char], from: usize) -> (r: Option<(usize, usize)>)
    requires
        from <= cs.len(),
    ensures
        match token_prefix(cs@.skip(from as int)) {
            Some((token, blanks)) => r == Some(
                ((from + token) as usize, (from + token + blanks) as usize),
            )
                && from + token + blanks <= cs.len(),
            None => r is None,
        },
{
    let token_end = scan(cs, from, CharClass::Visible);
    assert(cs@.skip(from as int).skip(token_end - from) == cs@.skip(token_end as int));
    let blanks_end = scan(cs, token_end, CharClass::Blank);
    if token_end > from && blanks_end > token_end {
        Some((token_end, blanks_end))
    } else {
        None
    }
}

/// Where the parts of the JSON form lie in `cs`, if it has that form.
pub fn json_parts(cs: &[char]) -> (r: Option<(usize, usize, usize)>)
    ensures
        match json_split(cs@) {
            Some((key, key_end, url)) => r == Some((key as usize, key_end as usize, url as usize))
                && key <= key_end <= url <= cs.len(),
            None => r is None,
        },
{
    if cs.len() >= 5 && cs[0] == 'j' && cs[1] == 's' && cs[2] == 'o' && cs[3] == 'n' && cs[4]
        == ':' {
        assert(json_tag().is_prefix_of(cs@)) by {
            assert(cs@.subrange(0, 5) == json_tag());
        }
        let key = scan(cs, 5, CharClass::Blank);
        match token_at(cs, key) {
            Some((key_end, url)) => Some((key, key_end, url)),
            None => None,
        }
    } else {
        proof {
            if json_tag().is_prefix_of(cs@) {
                assert(cs@.subrange(0, 5) == json_tag());
                assert(forall|i: int| 0 <= i < 5 ==> cs@[i] == cs@.subrange(0, 5)[i]);
            }
        }
        None
    }
}

/// Where the parts of the DNS form lie in `cs`, if it has that form.
pub fn dns_parts(cs: &[char]) -> (r: Option<(usize, Option<DnsRecordType>, usize)>)
    ensures
        match dns_split(cs@) {
            Some((server_end, record_type, name)) => r == Some(
                (server_end as usize, record_type, name as usize),
            ) && 1 <= server_end <= name <= cs.len(),
            None => r is None,
        },
{
    if cs.len() > 0 && cs[0] == '@' {
        match token_at(cs, 1) {
            Some((server_end, next)) => {
                match token_at(cs, next) {
                    Some((token_end, name)) => {
                        assert(cs@.skip(next as int).len() == cs.len() - next);
                        match record_type_at(cs, next, token_end) {
                            Some(record_type) => Some((server_end, Some(record_type), name)),
                            None => Some((server_end, None, next)),
                        }
                    },
                    None => Some((server_end, None, next)),
                }
            },
            None => None,
        }
    } else {
        None
    }
}

/// The service that `opts` names. `found` holds the addresses that the lookup of the
/// server's host name gave, if the server was named by one. Where no record type was named,
/// an address record is asked for.
pub open spec fn service_of(opts: CheckIpOptsView, found: Seq<SocketAddr>) -> Option<ServiceView> {
    match opts {
        CheckIpOptsView::PlainText { url } => Some(ServiceView::PlainText { url }),
        CheckIpOptsView::Json { url, key } => Some(ServiceView::Json { url, key }),
        CheckIpOptsView::Dns { server, record_type, name } => match address_of(server, found) {
            Ok(server) => Some(
                ServiceView::Dns {
                    server,
                    record_type: match record_type {
                        Some(t) => t,
                        None => DnsRecordType::A,
                    },
                    name,
                },
            ),
            Err(_) => None,
        },
    }
}

/// The host name to look up before the service that `opts` names can be asked, if its
/// server was named by one.
pub open spec fn host_of(opts: CheckIpOptsView) -> Option<Seq<char>> {
    match opts {
        CheckIpOptsView::Dns { server: ServerView::Host(name), .. } => Some(name),
        _ => None,
    }
}

impl CheckIpOpts {
    /// The host name to look up before the service can be asked, if its server was named
    /// by one, and the port to look it up for.
    pub fn lookup_host(&self) -> (r: Option<(String, u16)>)
        ensures
            match host_of(self@) {
                Some(name) => r matches Some((host, port)) && host@ == name && port == DNS_PORT,
                None => r is None,
            },
    {
        match self {
            CheckIpOpts::Dns { server, .. } => server.lookup_host(),
            _ => None,
        }
    }

    /// The service that the line names, ready to be asked. `found` holds the addresses
    /// that the lookup of the server's host name gave, if the server was named by one; a host
    /// name without an address leaves no service.
    pub fn into_service(self, found: &[SocketAddr]) -> (r: Result<Service, HostNotFound>)
        ensures
            match r {
                Ok(service) => service_of(self@, found@) == Some(service@),
                Err(_) => service_of(self@, found@) is None,
            },
    {
        match self {
            CheckIpOpts::PlainText { url } => Ok(Service::plain_text(url)),
            CheckIpOpts::Json { url, key } => Ok(Service::json(url, key)),
            CheckIpOpts::Dns { server, record_type, name } => {
                let record_type = match record_type {
                    Some(t) => t,
                    None => DnsRecordType::A,
                };
                match server.into_socket_addr(found) {
                    Ok(server) => Ok(Service::dns(server, record_type, name)),
                    Err(e) => Err(e),
                }
            },
        }
    }

    /// Reads the line that names a service.
    pub fn parse(s: &str) -> (r: Result<CheckIpOpts, ParseIpOptsError>)
        ensures
            match r {
                Ok(opts) => opts_of(s@) == Some(opts@),
                Err(_) => opts_of(s@) is None,
            },
    {
        let chars = chars_of(s);
        let cs = chars.as_slice();
        let len = cs.len();
        match json_parts(cs) {
            Some((key, key_end, url)) => {
                let rest = s.substring_char(url, len);
                assert(rest@ == s@.skip(url as int));
                match parse_url(rest) {
                    Some(url) => {
                        return Ok(CheckIpOpts::Json { url, key: string_of(cs, key, key_end) });
                    },
                    None => {},
                }
            },
            None => {},
        }
        match dns_parts(cs) {
            Some((server_end, record_type, name)) => {
                let token = s.substring_char(1, server_end);
                match Server::parse(token) {
                    Ok(server) => {
                        let rest = s.substring_char(name, len);
                        assert(rest@ == s@.skip(name as int));
                        match Name::from_str(rest) {
                            Ok(name) => {
                                return Ok(CheckIpOpts::Dns { server, record_type, name });
                            },
                            Err(_) => {},
                        }
                    },
                    Err(_) => {},
                }
            },
            None => {},
        }
        match parse_url(s) {
            Some(url) => Ok(CheckIpOpts::PlainText { url }),
            None => Err(ParseIpOptsError()),
        }
    }
}

impl FromStr for CheckIpOpts {
    type Err = ParseIpOptsError;

    fn from_str(s: &str) -> (r: Result<CheckIpOpts, ParseIpOptsError>)
        ensures
            match r {
                Ok(opts) => opts_of(s@) == Some(opts@),
                Err(_) => opts_of(s@) is None,
            },
    {
        CheckIpOpts::parse(s)
    }
}

} // verus!
