//! The services that tell a machine its public IPv4 address, and how their replies are read.

use std::str::FromStr;
pub use trust_dns_client::rr::Name;
use url::Url;
use vstd::pervasive::unreached;
use vstd::prelude::*;
use vstd::string::StrSliceExecFns;

use crate::dns_name::{name_parse, name_text};
use crate::net::{ipv4_text, AddrKind, AddrParseError, Ipv4Addr, SocketAddr};
use crate::text::{chars_of, trim_end, trimmed_end};
use crate::web_url::{is_success, push_status, status_is_success, status_text, url_text};

verus! {

/// A text that names no record type that a lookup can ask for.
#[derive(Debug)]
pub struct ParseRecordTypeError();

impl ParseRecordTypeError {
    /// The error in words.
    pub open spec fn text(self) -> Seq<char> {
        "unsupported record type"@
    }

    /// The error in words.
    pub fn to_string(&self) -> (s: String)
        ensures
            s@ == self.text(),
    {
        "unsupported record type".to_owned()
    }
}

/// The kind of DNS record that holds the address.
#[derive(Clone, Copy, Debug, PartialEq, Eq, Structural)]
pub enum DnsRecordType {
    /// An address record.
    A,
    /// A text record, whose text writes the address.
    TXT,
}

/// The record type that `s` names: `A` or `TXT`, in capitals.
pub open spec fn record_type_of(s: Seq<char>) -> Option<DnsRecordType> {
    if s == seq!['A'] {
        Some(DnsRecordType::A)
    } else if s == seq!['T', 'X', 'T'] {
        Some(DnsRecordType::TXT)
    } else {
        None
    }
}

/// The record type that `cs[from..to]` names.
pub fn record_type_at(cs: &[char], from: usize, to: usize) -> (r: Option<DnsRecordType>)
    requires
        from <= to <= cs.len(),
    ensures
        r == record_type_of(cs@.subrange(from as int, to as int)),
{
    let ghost t = cs@.subrange(from as int, to as int);
    if to - from == 1 && cs[from] == 'A' {
        assert(t == seq!['A']);
        Some(DnsRecordType::A)
    } else if to - from == 3 && cs[from] == 'T' && cs[from + 1] == 'X' && cs[from + 2] == 'T' {
        assert(t == seq!['T', 'X', 'T']);
        Some(DnsRecordType::TXT)
    } else {
        proof {
            if t == seq!['A'] {
                assert(t.len() == 1 && t[0] == 'A');
            }
            if t == seq!['T', 'X', 'T'] {
                assert(t.len() == 3 && t[0] == 'T' && t[1] == 'X' && t[2] == 'T');
            }
        }
        None
    }
}

impl DnsRecordType {
    /// Reads the name of a record type.
    pub fn parse(s: &str) -> (r: Result<DnsRecordType, ParseRecordTypeError>)
        ensures
            match r {
                Ok(t) => record_type_of(s@) == Some(t),
                Err(_) => record_type_of(s@) is None,
            },
    {
        let cs = chars_of(s);
        assert(cs@.subrange(0, cs.len() as int) == cs@);
        match record_type_at(cs.as_slice(), 0, cs.len()) {
            Some(t) => Ok(t),
            None => Err(ParseRecordTypeError()),
        }
    }
}

impl FromStr for DnsRecordType {
    type Err = ParseRecordTypeError;

    fn from_str(s: &str) -> (r: Result<DnsRecordType, ParseRecordTypeError>)
        ensures
            match r {
                Ok(t) => record_type_of(s@) == Some(t),
                Err(_) => record_type_of(s@) is None,
            },
    {
        DnsRecordType::parse(s)
    }
}

/// Why a service told no address.
#[derive(Debug)]
pub enum Error {
    /// The HTTP exchange failed, or its body was no JSON; the field is the failure in words.
    Http(String),
    /// The HTTP status, which was none of success.
    HttpBadResponse(u16),
    /// The DNS exchange failed at the level of the protocol; the field is the failure in
    /// words.
    DnsProto(String),
    /// The DNS client failed; the field is the failure in words.
    DnsClient(String),
    /// The reply holds no address where one was looked for.
    MissingResponse,
    /// What stands where the address was looked for writes none.
    ParseAddr(AddrParseError),
}

/// An `Error`, with each text in place of its string.
pub enum ErrorView {
    Http(Seq<char>),
    HttpBadResponse(u16),
    DnsProto(Seq<char>),
    DnsClient(Seq<char>),
    MissingResponse,
    ParseAddr(AddrParseError),
}

impl View for Error {
    type V = ErrorView;

    open spec fn view(&self) -> ErrorView {
        match self {
            Error::Http(message) => ErrorView::Http(message@),
            Error::HttpBadResponse(status) => ErrorView::HttpBadResponse(*status),
            Error::DnsProto(message) => ErrorView::DnsProto(message@),
            Error::DnsClient(message) => ErrorView::DnsClient(message@),
            Error::MissingResponse => ErrorView::MissingResponse,
            Error::ParseAddr(e) => ErrorView::ParseAddr(*e),
        }
    }
}

impl ErrorView {
    /// The error in words: those of the failure that it holds, and else its own.
    pub open spec fn text(self) -> Seq<char> {
        match self {
            ErrorView::Http(message) => message,
            ErrorView::HttpBadResponse(status) => "Bad response: "@ + status_text(status),
            ErrorView::DnsProto(message) => message,
            ErrorView::DnsClient(message) => message,
            ErrorView::MissingResponse => "IP not found in response"@,
            ErrorView::ParseAddr(e) => e.text(),
        }
    }
}

impl Error {
    /// The error in words.
    pub fn to_string(&self) -> (s: String)
        ensures
            s@ == self@.text(),
    {
        match self {
            Error::Http(message) => message.clone(),
            Error::HttpBadResponse(status) => {
                let mut s = "Bad response: ".to_owned();
                push_status(&mut s, *status);
                s
            },
            Error::DnsProto(message) => message.clone(),
            Error::DnsClient(message) => message.clone(),
            Error::MissingResponse => "IP not found in response".to_owned(),
            Error::ParseAddr(e) => e.to_string(),
        }
    }
}

/// What a service told: the address, or the view of the error.
pub open spec fn told(r: Result<Ipv4Addr, Error>) -> Result<Ipv4Addr, ErrorView> {
    match r {
        Ok(ip) => Ok(ip),
        Err(e) => Err(e@),
    }
}

/// A service that tells a machine its public IPv4 address.
pub enum Service {
    /// A URL that answers with the address as text.
    PlainText { url: Url },
    /// A URL that answers with a JSON object, which holds the address as a string under
    /// `key`.
    Json { url: Url, key: String },
    /// A DNS server that answers a question for `name` with a record that holds the address.
    Dns { server: SocketAddr, record_type: DnsRecordType, name: Name },
}

/// A `Service`, with the text of each URL and name in its place.
pub enum ServiceView {
    PlainText { url: Seq<char> },
    Json { url: Seq<char>, key: Seq<char> },
    Dns { server: SocketAddr, record_type: DnsRecordType, name: Seq<char> },
}

impl View for Service {
    type V = ServiceView;

    open spec fn view(&self) -> ServiceView {
        match self {
            Service::PlainText { url } => ServiceView::PlainText { url: url_text(*url) },
            Service::Json { url, key } => ServiceView::Json { url: url_text(*url), key: key@ },
            Service::Dns { server, record_type, name } => ServiceView::Dns {
                server: *server,
                record_type: *record_type,
                name: name_text(*name),
            },
        }
    }
}

/// What a record of a DNS answer holds.
#[derive(Debug)]
pub enum Answer {
    /// An address record, with its address.
    A(Ipv4Addr),
    /// A text record, with its text.
    Txt(String),
    /// A record of another kind.
    Other,
}

/// What came back from the one exchange that a service takes.
#[derive(Debug)]
#[allow(inconsistent_fields)]
pub enum Reply {
    /// An HTTP reply: its status and, where the status is one of success, its body as text.
    Text { status: u16, body: String },
    /// An HTTP reply: its status and, where the status is one of success, its body in bytes.
    Json { status: u16, body: Vec<u8> },
    /// A DNS answer: what its records hold, in their order.
    Dns { answers: Vec<Answer> },
}

/// The server that the service asks where none was chosen: a resolver of OpenDNS.
pub open spec fn default_server() -> SocketAddr {
    SocketAddr::V4 { ip: Ipv4Addr(208, 67, 222, 222), port: 53 }
}

/// The name for which that server answers with the address of whoever asks.
pub open spec fn default_name() -> Seq<char> {
    "myip.opendns.com"@
}

/// The string that a JSON document holds under a key: the string, or `None` where `body`
/// is JSON but no object, or an object that holds no string under `key`; and where `body`
/// is no JSON, the words in which the parser says so.
pub uninterp spec fn json_string_field(body: Seq<u8>, key: Seq<char>) -> Result<
    Option<Seq<char>>,
    Seq<char>,
>;

/// `serde_json::from_slice` into a `Value`, then `Value::get` with the key and
/// `Value::as_str` on what it finds: the string that the document holds under the key, no
/// string where it holds none, and the parser's words where the bytes are no JSON. What
/// comes back depends on the bytes and the key alone.
#[verifier::external_body]
fn string_field(body: &[u8], key: &str) -> (r: Result<Option<String>, String>)
    ensures
        field_view(r) == json_string_field(body@, key@),
{
    match serde_json::from_slice::<serde_json::Value>(body) {
        Ok(document) => match document.get(key) {
            Some(value) => match value.as_str() {
                Some(text) => Ok(Some(text.to_owned())),
                None => Ok(None),
            },
            None => Ok(None),
        },
        Err(e) => Err(e.to_string()),
    }
}

/// What was found under the key of a JSON document, with each text in place of its string.
pub open spec fn field_view(field: Result<Option<String>, String>) -> Result<
    Option<Seq<char>>,
    Seq<char>,
> {
    match field {
        Ok(Some(text)) => Ok(Some(text@)),
        Ok(None) => Ok(None),
        Err(words) => Err(words@),
    }
}

/// The address that what was found under the key of a JSON document tells: the one that
/// the string writes; without a string the address is missing, and what is no JSON is an
/// error of the exchange, in the parser's words.
pub open spec fn address_of_field(field: Result<Option<Seq<char>>, Seq<char>>) -> Result<
    Ipv4Addr,
    ErrorView,
> {
    match field {
        Ok(Some(text)) => address_of_string(text),
        Ok(None) => Err(ErrorView::MissingResponse),
        Err(words) => Err(ErrorView::Http(words)),
    }
}

/// The address that a body of text tells: the one that the body writes in dotted decimal,
/// white space at its end apart.
pub open spec fn address_of_text(body: Seq<char>) -> Result<Ipv4Addr, ErrorView> {
    match ipv4_text(trim_end(body)) {
        Some(ip) => Ok(ip),
        None => Err(ErrorView::ParseAddr(AddrParseError(AddrKind::Ipv4))),
    }
}

/// The address that a string tells: the one that the whole string writes in dotted decimal.
pub open spec fn address_of_string(text: Seq<char>) -> Result<Ipv4Addr, ErrorView> {
    match ipv4_text(text) {
        Some(ip) => Ok(ip),
        None => Err(ErrorView::ParseAddr(AddrParseError(AddrKind::Ipv4))),
    }
}

/// The address that a DNS answer tells: that of its first record, which is the address
/// that an address record holds, and the one that the text of a text record writes. An
/// answer without records tells none, nor does a first record of another kind.
pub open spec fn address_of_answers(answers: Seq<Answer>) -> Result<Ipv4Addr, ErrorView> {
    if answers.len() == 0 {
        Err(ErrorView::MissingResponse)
    } else {
        match answers[0] {
            Answer::A(ip) => Ok(ip),
            Answer::Txt(text) => address_of_string(text@),
            Answer::Other => Err(ErrorView::MissingResponse),
        }
    }
}

/// Whether `answer` is a record of the type asked for.
pub open spec fn is_of_type(record_type: DnsRecordType, answer: Answer) -> bool {
    match record_type {
        DnsRecordType::A => answer is A,
        DnsRecordType::TXT => answer is Txt,
    }
}

/// Whether the first record of `answers`, if there is one, is of the type asked for.
pub open spec fn answers_fit(record_type: DnsRecordType, answers: Seq<Answer>) -> bool {
    answers.len() > 0 ==> is_of_type(record_type, answers[0])
}

/// Whether `reply` is of the kind that an exchange with `service` gives.
pub open spec fn fits(service: ServiceView, reply: Reply) -> bool {
    match service {
        ServiceView::PlainText { .. } => reply is Text,
        ServiceView::Json { .. } => reply is Json,
        ServiceView::Dns { record_type, .. } => reply matches Reply::Dns { answers }
            && answers_fit(record_type, answers@),
    }
}

/// What `reply` tells, read as `service` asks: a status that is none of success is the
/// error, whatever the body; else the body or the answer decides.
pub open spec fn address_of_reply(service: ServiceView, reply: Reply) -> Result<
    Ipv4Addr,
    ErrorView,
> {
    match reply {
        Reply::Text { status, body } => if is_success(status) {
            address_of_text(body@)
        } else {
            Err(ErrorView::HttpBadResponse(status))
        },
        Reply::Json { status, body } => if is_success(status) {
            address_of_field(json_string_field(body@, service->Json_key))
        } else {
            Err(ErrorView::HttpBadResponse(status))
        },
        Reply::Dns { answers } => address_of_answers(answers@),
    }
}

/// Passes an HTTP status of success, and turns any other into the error that holds it.
pub fn check_status(status: u16) -> (r: Result<(), Error>)
    ensures
        match r {
            Ok(_) => is_success(status),
            Err(e) => !is_success(status) && e@ == ErrorView::HttpBadResponse(status),
        },
{
    if status_is_success(status) {
        Ok(())
    } else {
        Err(Error::HttpBadResponse(status))
    }
}

/// Reads the address that the whole of `text` writes.
pub fn ipv4_from_string(text: &str) -> (r: Result<Ipv4Addr, Error>)
    ensures
        told(r) == address_of_string(text@),
{
    match Ipv4Addr::parse(text) {
        Ok(ip) => Ok(ip),
        Err(e) => Err(Error::ParseAddr(e)),
    }
}

/// Reads the address that a body of text writes, white space at its end apart.
pub fn ipv4_from_text(body: &str) -> (r: Result<Ipv4Addr, Error>)
    ensures
        told(r) == address_of_text(body@),
{
    let cs = chars_of(body);
    let n = trimmed_end(cs.as_slice());
    ipv4_from_string(body.substring_char(0, n))
}

/// Reads the address out of what a JSON document held under the key: `field` is the string
/// found there, no string, or the parser's words where the document was no JSON.
pub fn ipv4_from_field(field: Result<Option<String>, String>) -> (r: Result<Ipv4Addr, Error>)
    ensures
        told(r) == address_of_field(field_view(field)),
{
    match field {
        Ok(Some(text)) => ipv4_from_string(text.as_str()),
        Ok(None) => Err(Error::MissingResponse),
        Err(message) => Err(Error::Http(message)),
    }
}

/// Reads the address that a JSON document holds as a string under `key`.
pub fn ipv4_from_json(body: &[u8], key: &str) -> (r: Result<Ipv4Addr, Error>)
    ensures
        told(r) == address_of_field(json_string_field(body@, key@)),
{
    ipv4_from_field(string_field(body, key))
}

/// Whether the first record of `answers`, if there is one, is of the type asked for.
pub fn check_answers(record_type: DnsRecordType, answers: &[Answer]) -> (b: bool)
    ensures
        b == answers_fit(record_type, answers@),
{
    if answers.len() == 0 {
        return true;
    }
    match (record_type, &answers[0]) {
        (DnsRecordType::A, Answer::A(_)) => true,
        (DnsRecordType::TXT, Answer::Txt(_)) => true,
        _ => false,
    }
}

/// Reads the address out of the first record of a DNS answer, which is of the type that
/// was asked for.
pub fn ipv4_from_answers(record_type: DnsRecordType, answers: &[Answer]) -> (r: Result<
    Ipv4Addr,
    Error,
>)
    requires
        answers_fit(record_type, answers@),
    ensures
        told(r) == address_of_answers(answers@),
{
    if answers.len() == 0 {
        return Err(Error::MissingResponse);
    }
    match &answers[0] {
        Answer::A(ip) => Ok(*ip),
        Answer::Txt(text) => ipv4_from_string(text.as_str()),
        Answer::Other => Err(Error::MissingResponse),
    }
}

impl Service {
    /// The service at `url` that answers with the address as text.
    pub fn plain_text(url: Url) -> (service: Service)
        ensures
            service@ == (ServiceView::PlainText { url: url_text(url) }),
    {
        Service::PlainText { url }
    }

    /// The service at `url` that answers with a JSON object, which holds the address
    /// under `key`.
    pub fn json(url: Url, key: String) -> (service: Service)
        ensures
            service@ == (ServiceView::Json { url: url_text(url), key: key@ }),
    {
        Service::Json { url, key }
    }

    /// The service of the DNS server at `server`, asked for the record of type
    /// `record_type` of `name`.
    pub fn dns(server: SocketAddr, record_type: DnsRecordType, name: Name) -> (service: Service)
        ensures
            service@ == (ServiceView::Dns { server, record_type, name: name_text(name) }),
    {
        Service::Dns { server, record_type, name }
    }

    /// The service to use where none was chosen, if its name reads as a domain name.
    pub fn try_default() -> (r: Option<Service>)
        ensures
            match r {
                Some(service) => name_parse(default_name()) matches Some(name) && service@ == (
                ServiceView::Dns {
                    server: default_server(),
                    record_type: DnsRecordType::A,
                    name,
                }),
                None => name_parse(default_name()) is None,
            },
    {
        match Name::from_str("myip.opendns.com") {
            Ok(_) => Some(Service::default()),
            Err(_) => None,
        }
    }

    /// The service to use where none was chosen: OpenDNS, asked for the address record of
    /// the name for which it answers with the address of whoever asks.
    pub fn default() -> (service: Service)
        requires
            name_parse(default_name()) is Some,
        ensures
            service@ == (ServiceView::Dns {
                server: default_server(),
                record_type: DnsRecordType::A,
                name: name_parse(default_name())->0,
            }),
    {
        match Name::from_str("myip.opendns.com") {
            Ok(name) => Service::Dns {
                server: SocketAddr::V4 { ip: Ipv4Addr(208, 67, 222, 222), port: 53 },
                record_type: DnsRecordType::A,
                name,
            },
            Err(_) => unreached(),
        }
    }

    /// Whether `reply` is of the kind that an exchange with the service gives.
    pub fn accepts(&self, reply: &Reply) -> (b: bool)
        ensures
            b == fits(self@, *reply),
    {
        match self {
            Service::PlainText { .. } => match reply {
                Reply::Text { .. } => true,
                _ => false,
            },
            Service::Json { .. } => match reply {
                Reply::Json { .. } => true,
                _ => false,
            },
            Service::Dns { record_type, .. } => match reply {
                Reply::Dns { answers } => check_answers(*record_type, answers.as_slice()),
                _ => false,
            },
        }
    }

    /// The address that `reply` tells, which came back from the one exchange that the
    /// service takes.
    pub fn ipv4(&self, reply: &Reply) -> (r: Result<Ipv4Addr, Error>)
        requires
            fits(self@, *reply),
        ensures
            told(r) == address_of_reply(self@, *reply),
    {
        match reply {
            Reply::Text { status, body } => match check_status(*status) {
                Ok(_) => ipv4_from_text(body.as_str()),
                Err(e) => Err(e),
            },
            Reply::Json { status, body } => match check_status(*status) {
                Ok(_) => match self {
                    Service::Json { key, .. } => ipv4_from_json(body.as_slice(), key.as_str()),
                    _ => Err(Error::MissingResponse),
                },
                Err(e) => Err(e),
            },
            Reply::Dns { answers } => match self {
                Service::Dns { record_type, .. } => ipv4_from_answers(
                    *record_type,
                    answers.as_slice(),
                ),
                _ => Err(Error::MissingResponse),
            },
        }
    }
}

} // verus!
