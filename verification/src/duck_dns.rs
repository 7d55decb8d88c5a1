//! The update service of Duck DNS: what is asked of it and what it answers.
//!
//! A request is a URL: that of the service, with what is asked for, the domains of the
//! account and its token in the query. The answer is a few lines of text.

pub mod label;
pub mod options;
pub mod responses;

use url::Url;
use vstd::pervasive::unreached;
use vstd::prelude::*;
use vstd::std_specs::convert::FromSpecImpl;
use vstd::string::StringExecFns;

use crate::duck_dns::label::Label;
use crate::duck_dns::options::{ClearOptions, ClearTxtOptions, TxtOptions, UpdateOptions};
use crate::duck_dns::responses::{
    response_of, txt_response_of, ParseResponseError, ParseTxtResponseError, Response,
    TxtResponse, TxtResponseView,
};
use crate::text::{chars_of, push_char, same_chars};
use crate::web_url::{
    append_pair, bytes, is_success, pair_cost, parse_url, push_status, status_is_success,
    status_text, url_append_pair, url_parse, url_text, MAX_URL_BYTES,
};

verus! {

/// The secret that proves who owns an account.
pub struct Token(String);

impl View for Token {
    type V = Seq<char>;

    closed spec fn view(&self) -> Seq<char> {
        self.0@
    }
}

/// A row of `n` asterisks.
pub open spec fn stars(n: nat) -> Seq<char> {
    Seq::new(n, |i: int| '*')
}

/// `s` with asterisks in place of each place where `token` stands in it, read from the
/// start, so that of two places that overlap the first counts: as many asterisks as the
/// token takes bytes. An empty token stands nowhere.
pub open spec fn scrubbed(s: Seq<char>, token: Seq<char>) -> Seq<char>
    decreases s.len(),
{
    if token.len() == 0 || s.len() < token.len() {
        s
    } else if s.take(token.len() as int) == token {
        stars(bytes(token)) + scrubbed(s.skip(token.len() as int), token)
    } else {
        seq![s[0]] + scrubbed(s.skip(1), token)
    }
}

/// Appends `n` asterisks to `out`.
fn push_stars(out: &mut String, n: usize)
    ensures
        final(out)@ == old(out)@ + stars(n as nat),
{
    let mut i: usize = 0;
    assert(stars(0) == Seq::<char>::empty());
    while i < n
        invariant
            i <= n,
            out@ == old(out)@ + stars(i as nat),
        decreases n - i,
    {
        push_char(out, '*');
        assert(stars((i + 1) as nat) == stars(i as nat).push('*'));
        i += 1;
    }
}

impl Token {
    /// The token as text.
    pub fn as_str(&self) -> (s: &str)
        ensures
            s@ == self@,
    {
        self.0.as_str()
    }

    /// As many asterisks as the token takes bytes: what to show in its place.
    pub fn masked(&self) -> (s: String)
        ensures
            s@ == stars(bytes(self@)),
    {
        let mut s = String::new();
        push_stars(&mut s, self.0.as_str().as_bytes().len());
        s
    }

    /// `s` with asterisks wherever the token stands in it, so that it can be shown.
    pub fn scrub(&self, s: &str) -> (r: String)
        ensures
            r@ == scrubbed(s@, self@),
    {
        let chars = chars_of(s);
        let cs = chars.as_slice();
        let token_chars = chars_of(self.0.as_str());
        let token = token_chars.as_slice();
        let width = self.0.as_str().as_bytes().len();
        if token.len() == 0 {
            return s.to_owned();
        }
        let mut out = String::new();
        let mut i: usize = 0;
        assert(cs@.skip(0) == cs@);
        while i < cs.len()
            invariant
                i <= cs.len(),
                token@.len() > 0,
                token@ == self@,
                width == bytes(self@),
                out@ + scrubbed(cs@.skip(i as int), token@) == scrubbed(cs@, token@),
            decreases cs.len() - i,
        {
            let ghost rest = cs@.skip(i as int);
            if cs.len() - i >= token.len() && same_chars(cs, i, i + token.len(), token) {
                proof {
                    assert(rest.take(token@.len() as int) == cs@.subrange(
                        i as int,
                        i + token@.len(),
                    ));
                    assert(rest.skip(token@.len() as int) == cs@.skip(i + token@.len()));
                }
                push_stars(&mut out, width);
                i += token.len();
            } else {
                proof {
                    if rest.len() >= token@.len() {
                        assert(rest.take(token@.len() as int) == cs@.subrange(
                            i as int,
                            i + token@.len(),
                        ));
                    } else {
                        let after = cs@.skip(i + 1);
                        assert(after.len() < token@.len());
                        assert(scrubbed(after, token@) == after);
                        assert(rest == seq![rest[0]] + after);
                    }
                    assert(rest.skip(1) == cs@.skip(i + 1));
                    assert(rest[0] == cs@[i as int]);
                }
                push_char(&mut out, cs[i]);
                i += 1;
            }
        }
        assert(cs@.skip(cs.len() as int).len() == 0);
        out
    }
}

impl Clone for Token {
    fn clone(&self) -> (token: Token)
        ensures
            token@ == self@,
    {
        Token(self.0.clone())
    }
}

impl From<String> for Token {
    fn from(val: String) -> (token: Token)
        ensures
            token@ == val@,
    {
        Token(val)
    }
}

impl FromSpecImpl<String> for Token {
    open spec fn obeys_from_spec() -> bool {
        true
    }

    closed spec fn from_spec(val: String) -> Token {
        Token(val)
    }
}

impl<'a> From<&'a str> for Token {
    fn from(val: &'a str) -> (token: Token)
        ensures
            token@ == val@,
    {
        Token(val.to_owned())
    }
}

impl<'a> FromSpecImpl<&'a str> for Token {
    /// The string that holds the token is made anew, so that no spec function names it.
    open spec fn obeys_from_spec() -> bool {
        false
    }

    open spec fn from_spec(val: &'a str) -> Token {
        arbitrary()
    }
}

/// Why the service gave no answer that can be used.
#[derive(Debug)]
pub enum Error {
    /// The HTTP exchange failed; the field is the failure in words.
    Http(String),
    /// The HTTP status, which was none of success.
    HttpBadResponse(u16),
    /// The body is no answer to an update of the addresses.
    ParseResponse(ParseResponseError),
    /// The body is no answer to an update of the text record.
    ParseTxtResponse(ParseTxtResponseError),
}

impl Error {
    /// The error in words: those of the failure that it holds, and else its own.
    pub open spec fn text(self) -> Seq<char> {
        match self {
            Error::Http(message) => message@,
            Error::HttpBadResponse(status) => "bad response: "@ + status_text(status),
            Error::ParseResponse(e) => e.text(),
            Error::ParseTxtResponse(e) => e.text(),
        }
    }

    /// The error in words.
    pub fn to_string(&self) -> (s: String)
        ensures
            s@ == self.text(),
    {
        match self {
            Error::Http(message) => message.clone(),
            Error::HttpBadResponse(status) => {
                let mut s = "bad response: ".to_owned();
                push_status(&mut s, *status);
                s
            },
            Error::ParseResponse(e) => e.to_string(),
            Error::ParseTxtResponse(e) => e.to_string(),
        }
    }
}

impl From<ParseResponseError> for Error {
    fn from(e: ParseResponseError) -> (error: Error)
        ensures
            error == (Error::ParseResponse(e)),
    {
        Error::ParseResponse(e)
    }
}

impl FromSpecImpl<ParseResponseError> for Error {
    open spec fn obeys_from_spec() -> bool {
        true
    }

    open spec fn from_spec(e: ParseResponseError) -> Error {
        Error::ParseResponse(e)
    }
}

impl From<ParseTxtResponseError> for Error {
    fn from(e: ParseTxtResponseError) -> (error: Error)
        ensures
            error == (Error::ParseTxtResponse(e)),
    {
        Error::ParseTxtResponse(e)
    }
}

impl FromSpecImpl<ParseTxtResponseError> for Error {
    open spec fn obeys_from_spec() -> bool {
        true
    }

    open spec fn from_spec(e: ParseTxtResponseError) -> Error {
        Error::ParseTxtResponse(e)
    }
}

/// The pairs of a query, each a name and a value.
pub type Pairs = Seq<(Seq<char>, Seq<char>)>;

/// The texts of pairs of strings.
pub open spec fn pairs_view(pairs: Seq<(String, String)>) -> Pairs {
    Seq::new(pairs.len(), |i: int| (pairs[i].0@, pairs[i].1@))
}

/// The serialization of the URL with the serialization `text`, after `pairs` were added
/// at the end of its query, one after the other.
pub open spec fn with_pairs(text: Seq<char>, pairs: Pairs) -> Seq<char>
    decreases pairs.len(),
{
    if pairs.len() == 0 {
        text
    } else {
        url_append_pair(with_pairs(text, pairs.drop_last()), pairs.last().0, pairs.last().1)
    }
}

/// The most bytes that adding `pairs` to a query takes.
pub open spec fn pairs_cost(pairs: Pairs) -> nat
    decreases pairs.len(),
{
    if pairs.len() == 0 {
        0
    } else {
        pairs_cost(pairs.drop_last()) + pair_cost(pairs.last().0, pairs.last().1)
    }
}

/// The first pairs of a query cost no more than all of them.
proof fn lemma_pairs_cost_prefix(pairs: Pairs, k: int)
    requires
        0 <= k <= pairs.len(),
    ensures
        pairs_cost(pairs.take(k)) <= pairs_cost(pairs),
    decreases pairs.len() - k,
{
    if k < pairs.len() {
        lemma_pairs_cost_prefix(pairs, k + 1);
        assert(pairs.take(k + 1).drop_last() == pairs.take(k));
    } else {
        assert(pairs.take(k) == pairs);
    }
}

/// Whether a URL with the serialization `text` has room for `pairs`, each byte of which
/// may take three.
pub open spec fn has_room(text: Seq<char>, pairs: Pairs) -> bool {
    bytes(text) + pairs_cost(pairs) <= MAX_URL_BYTES
}

/// `labels` with commas between them.
pub open spec fn joined(labels: Seq<Seq<char>>) -> Seq<char>
    decreases labels.len(),
{
    if labels.len() == 0 {
        Seq::empty()
    } else if labels.len() == 1 {
        labels[0]
    } else {
        joined(labels.drop_last()) + seq![','] + labels.last()
    }
}

/// The texts of labels.
pub open spec fn labels_view(labels: Seq<Label>) -> Seq<Seq<char>> {
    Seq::new(labels.len(), |i: int| labels[i]@)
}

/// The pair that asks for a verbose answer, where one is asked for.
pub open spec fn verbose_pairs(verbose: bool) -> Pairs {
    if verbose {
        seq![("verbose"@, "true"@)]
    } else {
        Seq::empty()
    }
}

/// What an update of the addresses puts in the query: the addresses that it names, and
/// whether the answer should be verbose.
pub open spec fn update_pairs(options: UpdateOptions) -> Pairs {
    let ipv4: Pairs = match options.ipv4 {
        Some(ip) => seq![("ip"@, ip.text())],
        None => Seq::empty(),
    };
    let ipv6: Pairs = match options.ipv6 {
        Some(ip) => seq![("ipv6"@, ip.text())],
        None => Seq::empty(),
    };
    ipv4 + ipv6 + verbose_pairs(options.verbose)
}

/// What a request to clear the addresses puts in the query.
pub open spec fn clear_pairs(options: ClearOptions) -> Pairs {
    seq![("clear"@, "true"@)] + verbose_pairs(options.verbose)
}

/// What an update of the text record puts in the query.
pub open spec fn txt_pairs(txt: Seq<char>, verbose: bool) -> Pairs {
    seq![("txt"@, txt)] + verbose_pairs(verbose)
}

/// What a request to clear the text record puts in the query.
pub open spec fn clear_txt_pairs(options: ClearTxtOptions) -> Pairs {
    seq![("txt"@, Seq::<char>::empty()), ("clear"@, "true"@)] + verbose_pairs(options.verbose)
}

/// What every request puts at the end of the query: the domains and the token.
pub open spec fn account_pairs(domains: Seq<Seq<char>>, token: Seq<char>) -> Pairs {
    seq![("domains"@, joined(domains)), ("token"@, token)]
}

/// Adds `pairs` to the query of `url`, if the URL has room for them.
fn append_all(url: &Url, pairs: &Vec<(String, String)>) -> (r: Option<Url>)
    ensures
        r is Some <==> has_room(url_text(*url), pairs_view(pairs@)),
        r matches Some(u) ==> url_text(u) == with_pairs(url_text(*url), pairs_view(pairs@)),
{
    let ghost all = pairs_view(pairs@);
    let ghost base = url_text(*url);
    let limit: u64 = MAX_URL_BYTES as u64;
    let start = url.as_str().as_bytes().len();
    if start as u64 > limit {
        return None;
    }
    let mut total: u64 = start as u64;
    let mut i: usize = 0;
    assert(all.take(0) == Seq::<(Seq<char>, Seq<char>)>::empty());
    while i < pairs.len()
        invariant
            i <= pairs@.len(),
            all == pairs_view(pairs@),
            base == url_text(*url),
            limit == MAX_URL_BYTES,
            total == bytes(base) + pairs_cost(all.take(i as int)),
            total <= limit,
        decreases pairs@.len() - i,
    {
        let name = pairs[i].0.as_str().as_bytes().len();
        let value = pairs[i].1.as_str().as_bytes().len();
        proof {
            assert(all.take(i + 1).drop_last() == all.take(i as int));
            assert(all.take(i + 1).last() == (pairs@[i as int].0@, pairs@[i as int].1@));
            lemma_pairs_cost_prefix(all, i + 1);
        }
        if name as u64 > limit || value as u64 > limit {
            return None;
        }
        let cost: u64 = 3 * (name as u64) + 3 * (value as u64) + 3;
        if cost > limit - total {
            return None;
        }
        total = total + cost;
        i += 1;
    }
    assert(all.take(pairs@.len() as int) == all);
    let mut result = url.clone();
    let mut i: usize = 0;
    while i < pairs.len()
        invariant
            i <= pairs@.len(),
            all == pairs_view(pairs@),
            base == url_text(*url),
            has_room(base, all),
            url_text(result) == with_pairs(base, all.take(i as int)),
            bytes(url_text(result)) <= bytes(base) + pairs_cost(all.take(i as int)),
        decreases pairs@.len() - i,
    {
        proof {
            assert(all.take(i + 1).drop_last() == all.take(i as int));
            assert(all.take(i + 1).last() == (pairs@[i as int].0@, pairs@[i as int].1@));
            lemma_pairs_cost_prefix(all, i + 1);
        }
        append_pair(&mut result, pairs[i].0.as_str(), pairs[i].1.as_str());
        i += 1;
    }
    Some(result)
}

/// Appends to `pairs` the pair that asks for a verbose answer, where one is asked for.
fn push_verbose(pairs: &mut Vec<(String, String)>, verbose: bool)
    ensures
        pairs_view(final(pairs)@) == pairs_view(old(pairs)@) + verbose_pairs(verbose),
{
    if verbose {
        pairs.push(("verbose".to_owned(), "true".to_owned()));
    }
    assert(pairs_view(pairs@) =~= pairs_view(old(pairs)@) + verbose_pairs(verbose));
}

/// The labels `domains` with commas between them.
fn join(domains: &Vec<Label>) -> (s: String)
    ensures
        s@ == joined(labels_view(domains@)),
{
    let ghost labels = labels_view(domains@);
    let mut s = String::new();
    let mut i: usize = 0;
    assert(labels.take(0) == Seq::<Seq<char>>::empty());
    while i < domains.len()
        invariant
            i <= domains@.len(),
            labels == labels_view(domains@),
            s@ == joined(labels.take(i as int)),
        decreases domains@.len() - i,
    {
        proof {
            assert(labels.take(i + 1).drop_last() == labels.take(i as int));
            assert(labels.take(i + 1).last() == domains@[i as int]@);
        }
        if i > 0 {
            push_char(&mut s, ',');
        }
        s.append(domains[i].as_str());
        i += 1;
    }
    assert(labels.take(domains@.len() as int) == labels);
    s
}

/// The address of the update service.
pub open spec fn service_url() -> Seq<char> {
    "https://www.duckdns.org/update"@
}

/// An account at the update service: where the service is, the domains and the token.
pub struct Client {
    url: Url,
    domains: Vec<Label>,
    token: Token,
}

/// A `Client`, with texts in place of what it holds.
pub struct ClientView {
    pub url: Seq<char>,
    pub domains: Seq<Seq<char>>,
    pub token: Seq<char>,
}

impl View for Client {
    type V = ClientView;

    closed spec fn view(&self) -> ClientView {
        ClientView {
            url: url_text(self.url),
            domains: labels_view(self.domains@),
            token: self.token@,
        }
    }
}

/// The serialization of the URL of a request: that of the service with `pairs` in its
/// query, and after them the domains and the token.
pub open spec fn request_text(client: ClientView, pairs: Pairs) -> Seq<char> {
    with_pairs(client.url, pairs + account_pairs(client.domains, client.token))
}

/// Whether the URL of the service has room for a request with `pairs`.
pub open spec fn request_fits(client: ClientView, pairs: Pairs) -> bool {
    has_room(client.url, pairs + account_pairs(client.domains, client.token))
}

/// Whether `r` is the URL of the request with `pairs`: there is one if the URL of the
/// service has room for it.
pub open spec fn is_request(client: ClientView, pairs: Pairs, r: Option<Url>) -> bool {
    match r {
        Some(url) => request_fits(client, pairs) && url_text(url) == request_text(client, pairs),
        None => !request_fits(client, pairs),
    }
}

impl Client {
    /// The account with the domains and the token given, at the service, if the address of
    /// the service reads as a URL.
    pub fn try_new(domains: Vec<Label>, token: Token) -> (r: Option<Client>)
        ensures
            match r {
                Some(client) => url_parse(service_url()) == Some(client@.url) && client@.domains
                    == labels_view(domains@) && client@.token == token@,
                None => url_parse(service_url()) is None,
            },
    {
        match parse_url("https://www.duckdns.org/update") {
            Some(_) => Some(Client::new(domains, token)),
            None => None,
        }
    }

    /// The account with the domains and the token given, at the service.
    pub fn new(domains: Vec<Label>, token: Token) -> (client: Client)
        requires
            url_parse(service_url()) is Some,
        ensures
            client@ == (ClientView {
                url: url_parse(service_url())->0,
                domains: labels_view(domains@),
                token: token@,
            }),
    {
        match parse_url("https://www.duckdns.org/update") {
            Some(url) => Client::with_base(url, domains, token),
            None => unreached(),
        }
    }

    /// The account with the domains and the token given, at a service at `url`.
    pub fn with_base(url: Url, domains: Vec<Label>, token: Token) -> (client: Client)
        ensures
            client@ == (ClientView {
                url: url_text(url),
                domains: labels_view(domains@),
                token: token@,
            }),
    {
        Client { url, domains, token }
    }

    /// The token of the account.
    pub fn token(&self) -> (token: &Token)
        ensures
            token@ == self@.token,
    {
        &self.token
    }

    /// The URL of the request that starts with `pairs`.
    fn request(&self, pairs: Vec<(String, String)>) -> (r: Option<Url>)
        ensures
            is_request(self@, pairs_view(pairs@), r),
    {
        let mut pairs = pairs;
        let ghost first = pairs_view(pairs@);
        pairs.push(("domains".to_owned(), join(&self.domains)));
        pairs.push(("token".to_owned(), self.token.as_str().to_owned()));
        assert(pairs_view(pairs@) =~= first + account_pairs(self@.domains, self@.token));
        append_all(&self.url, &pairs)
    }

    /// The URL of the request that updates the addresses.
    pub fn update(&self, options: UpdateOptions) -> (r: Option<Url>)
        ensures
            is_request(self@, update_pairs(options), r),
    {
        let mut pairs: Vec<(String, String)> = Vec::new();
        match options.ipv4 {
            Some(ip) => {
                pairs.push(("ip".to_owned(), ip.to_string()));
            },
            None => {},
        }
        match options.ipv6 {
            Some(ip) => {
                pairs.push(("ipv6".to_owned(), ip.to_string()));
            },
            None => {},
        }
        let ghost addresses = pairs_view(pairs@);
        push_verbose(&mut pairs, options.verbose);
        assert(pairs_view(pairs@) =~= update_pairs(options));
        self.request(pairs)
    }

    /// The URL of the request that clears the addresses.
    pub fn clear(&self, options: ClearOptions) -> (r: Option<Url>)
        ensures
            is_request(self@, clear_pairs(options), r),
    {
        let mut pairs: Vec<(String, String)> = Vec::new();
        pairs.push(("clear".to_owned(), "true".to_owned()));
        push_verbose(&mut pairs, options.verbose);
        assert(pairs_view(pairs@) =~= clear_pairs(options));
        self.request(pairs)
    }

    /// The URL of the request that updates the text record.
    pub fn update_txt(&self, options: TxtOptions) -> (r: Option<Url>)
        ensures
            is_request(self@, txt_pairs(options.txt@, options.verbose), r),
    {
        let mut pairs: Vec<(String, String)> = Vec::new();
        let ghost txt = options.txt@;
        pairs.push(("txt".to_owned(), options.txt));
        push_verbose(&mut pairs, options.verbose);
        assert(pairs_view(pairs@) =~= txt_pairs(txt, options.verbose));
        self.request(pairs)
    }

    /// The URL of the request that clears the text record.
    pub fn clear_txt(&self, options: ClearTxtOptions) -> (r: Option<Url>)
        ensures
            is_request(self@, clear_txt_pairs(options), r),
    {
        let mut pairs: Vec<(String, String)> = Vec::new();
        pairs.push(("txt".to_owned(), String::new()));
        pairs.push(("clear".to_owned(), "true".to_owned()));
        push_verbose(&mut pairs, options.verbose);
        assert(pairs_view(pairs@) =~= clear_txt_pairs(options));
        self.request(pairs)
    }

    /// Reads what came back for a request about the addresses: the status of the HTTP
    /// reply and, where that is one of success, its body.
    pub fn response(status: u16, body: &str) -> (r: Result<Response, Error>)
        ensures
            match r {
                Ok(response) => is_success(status) && response_of(body@) == Ok::<
                    Response,
                    ParseResponseError,
                >(response),
                Err(Error::HttpBadResponse(s)) => !is_success(status) && s == status,
                Err(Error::ParseResponse(e)) => is_success(status) && response_of(body@) == Err::<
                    Response,
                    ParseResponseError,
                >(e),
                Err(_) => false,
            },
    {
        if !status_is_success(status) {
            return Err(Error::HttpBadResponse(status));
        }
        match Response::parse(body) {
            Ok(response) => Ok(response),
            Err(e) => Err(Error::ParseResponse(e)),
        }
    }

    /// Reads what came back for a request about the text record: the status of the HTTP
    /// reply and, where that is one of success, its body.
    pub fn txt_response(status: u16, body: &str) -> (r: Result<TxtResponse, Error>)
        ensures
            match r {
                Ok(response) => is_success(status) && txt_response_of(body@) == Ok::<
                    TxtResponseView,
                    ParseTxtResponseError,
                >(response@),
                Err(Error::HttpBadResponse(s)) => !is_success(status) && s == status,
                Err(Error::ParseTxtResponse(e)) => is_success(status) && txt_response_of(body@)
                    == Err::<TxtResponseView, ParseTxtResponseError>(e),
                Err(_) => false,
            },
    {
        if !status_is_success(status) {
            return Err(Error::HttpBadResponse(status));
        }
        match TxtResponse::parse(body) {
            Ok(response) => Ok(response),
            Err(e) => Err(Error::ParseTxtResponse(e)),
        }
    }
}

} // verus!
