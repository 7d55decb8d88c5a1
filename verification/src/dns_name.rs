//! Domain names, as the DNS client reads and holds them.

use std::str::FromStr;
use trust_dns_client::proto::error::ProtoError;
use trust_dns_client::rr::Name;
use vstd::prelude::*;

verus! {

/// `trust_dns_client::rr::Name`, a domain name, as a value that is passed on.
#[verifier::external_type_specification]
#[verifier::external_body]
pub struct ExName(Name);

/// `trust_dns_client::proto::error::ProtoError`, the error that reading a name gives.
#[verifier::external_type_specification]
#[verifier::external_body]
pub struct ExProtoError(ProtoError);

/// The text that a domain name is written as: its labels with dots between them, and a dot
/// at the end where the name is fully qualified.
pub uninterp spec fn name_text(n: Name) -> Seq<char>;

/// The text of the name that `Name::from_str` reads from `input`, and `None` where it reads
/// none.
pub uninterp spec fn name_parse(input: Seq<char>) -> Option<Seq<char>>;

/// `Name::from_str` reads a domain name or fails; what it reads depends on the input alone.
pub assume_specification[ <Name as FromStr>::from_str ](input: &str) -> (r: Result<
    Name,
    <Name as FromStr>::Err,
>)
    ensures
        match r {
            Ok(n) => name_parse(input@) == Some(name_text(n)),
            Err(_) => name_parse(input@) is None,
        },
;

/// The `Display` of a `Name`, through `to_string`: the name's text.
#[verifier::external_body]
pub(crate) fn name_to_string(n: &Name) -> (s: String)
    ensures
        s@ == name_text(*n),
{
    n.to_string()
}

} // verus!
