//! URLs, as the `url` crate reads and holds them, and the statuses of HTTP replies.

use url::Url;
use vstd::prelude::*;
use vstd::string::StringExecFns;
use vstd::utf8::encode_utf8;

use crate::text::{decimal_text, push_char, push_decimal};

verus! {

/// `url::Url`, a parsed URL, as a value that is passed on.
#[verifier::external_type_specification]
#[verifier::external_body]
pub struct ExUrl(Url);

/// The serialization that a URL holds: the text that `Url::as_str` gives, by which two URLs
/// are compared.
pub uninterp spec fn url_text(u: Url) -> Seq<char>;

/// The serialization of the URL that `Url::parse` reads from `input`, and `None` where it
/// reads none.
pub uninterp spec fn url_parse(input: Seq<char>) -> Option<Seq<char>>;

/// `Url::parse` reads an absolute URL or fails; what it reads depends on the input alone.
/// The reason for a failure is dropped.
#[verifier::external_body]
pub(crate) fn parse_url(input: &str) -> (r: Option<Url>)
    ensures
        match r {
            Some(u) => url_parse(input@) == Some(url_text(u)),
            None => url_parse(input@) is None,
        },
{
    Url::parse(input).ok()
}

/// `Url::as_str` gives the serialization.
pub assume_specification<'a>[ Url::as_str ](u: &'a Url) -> (s: &'a str)
    ensures
        s@ == url_text(*u),
;

/// `Url::clone` gives a URL with the same serialization.
pub assume_specification[ <Url as Clone>::clone ](u: &Url) -> (r: Url)
    ensures
        url_text(r) == url_text(*u),
;

/// The serialization of the URL with the serialization `text`, after the pair of `name`
/// and `value` was added at the end of its query in the encoding of web forms.
pub uninterp spec fn url_append_pair(text: Seq<char>, name: Seq<char>, value: Seq<char>) -> Seq<
    char,
>;

/// How many bytes `s` takes in UTF-8.
pub open spec fn bytes(s: Seq<char>) -> nat {
    encode_utf8(s).len()
}

/// The most bytes that adding the pair of `name` and `value` to a query takes: three for
/// each byte of the two, and three for what stands before and between them.
pub open spec fn pair_cost(name: Seq<char>, value: Seq<char>) -> nat {
    3 * bytes(name) + 3 * bytes(value) + 3
}

/// The longest serialization that a URL can hold, in bytes.
pub const MAX_URL_BYTES: u32 = 0xffff_ffff;

/// `Url::query_pairs_mut` and `Serializer::append_pair` on what it gives: the pair is added
/// at the end of the query, before the fragment, each byte of it as one to three bytes,
/// after a `?` where there was no query and a `&` where there was one. The URL has room
/// for the longest that this can get.
#[verifier::external_body]
pub(crate) fn append_pair(url: &mut Url, name: &str, value: &str)
    requires
        bytes(url_text(*old(url))) + pair_cost(name@, value@) <= MAX_URL_BYTES,
    ensures
        url_text(*final(url)) == url_append_pair(url_text(*old(url)), name@, value@),
        bytes(url_text(*final(url))) <= bytes(url_text(*old(url))) + pair_cost(name@, value@),
{
    url.query_pairs_mut().append_pair(name, value);
}

/// Whether `status` is an HTTP status of success: one from 200 to 299.
pub open spec fn is_success(status: u16) -> bool {
    200 <= status < 300
}

/// The reason that goes with an HTTP status by default, as in `Not Found` for 404, and
/// `None` where none goes with it.
pub uninterp spec fn status_reason(status: u16) -> Option<Seq<char>>;

/// `StatusCode::from_u16` and `StatusCode::canonical_reason` on what it gives: the reason
/// that goes with the status by default. A number that is no status has none.
#[verifier::external_body]
pub(crate) fn reason_of(status: u16) -> (r: Option<&'static str>)
    ensures
        match r {
            Some(reason) => status_reason(status) == Some(reason@),
            None => status_reason(status) is None,
        },
{
    match reqwest::StatusCode::from_u16(status) {
        Ok(code) => code.canonical_reason(),
        Err(_) => None,
    }
}

/// An HTTP status in words: its number, and after a space the reason that goes with it by
/// default, or a note that none does.
pub open spec fn status_text(status: u16) -> Seq<char> {
    decimal_text(status as nat) + seq![' '] + match status_reason(status) {
        Some(reason) => reason,
        None => "<unknown status code>"@,
    }
}

/// Appends to `out` the HTTP status `status` in words.
pub fn push_status(out: &mut String, status: u16)
    ensures
        final(out)@ == old(out)@ + status_text(status),
{
    push_decimal(out, status as u64);
    push_char(out, ' ');
    match reason_of(status) {
        Some(reason) => {
            out.append(reason);
        },
        None => {
            out.append("<unknown status code>");
        },
    }
}

/// Whether `status` is an HTTP status of success.
pub fn status_is_success(status: u16) -> (b: bool)
    ensures
        b == is_success(status),
{
    200 <= status && status < 300
}

} // verus!
