//! The labels that name the domains of an account: `example` in `example.duckdns.org`.

use std::str::FromStr;
use vstd::prelude::*;
use vstd::string::StringExecFns;
use vstd::utf8::{encode_utf8, is_ascii_chars, is_ascii_chars_encode_utf8};

use crate::text::{chars_of, push_char};

verus! {

/// `idna::Errors`, the error that putting a name in ASCII gives.
#[verifier::external_type_specification]
#[verifier::external_body]
pub struct ExIdnaErrors(idna::Errors);

/// The ASCII form of an international domain name: what `idna::domain_to_ascii` makes of
/// `domain`, and `None` where it fails.
pub uninterp spec fn idna_to_ascii(domain: Seq<char>) -> Option<Seq<char>>;

/// `idna::domain_to_ascii` gives the ASCII form of a domain name or fails; what it gives
/// depends on the name alone.
pub assume_specification[ idna::domain_to_ascii ](domain: &str) -> (r: Result<
    String,
    idna::Errors,
>)
    ensures
        match r {
            Ok(ascii) => idna_to_ascii(domain@) == Some(ascii@),
            Err(_) => idna_to_ascii(domain@) is None,
        },
;

/// Why a text is no label.
#[derive(Debug)]
pub enum ParseLabelError {
    Empty,
    StartsWithHyphen,
    EndsWithHyphen,
    /// The text takes more than 63 bytes.
    TooLong,
    /// The text holds this ASCII character, which is neither a letter, a digit nor a hyphen.
    BadChar(char),
    /// The text holds characters beyond ASCII and has no ASCII form.
    IdnaError(idna::Errors),
}

/// A `ParseLabelError`, without the error that it wraps.
pub enum ParseLabelErrorView {
    Empty,
    StartsWithHyphen,
    EndsWithHyphen,
    TooLong,
    BadChar(char),
    IdnaError,
}

impl View for ParseLabelError {
    type V = ParseLabelErrorView;

    open spec fn view(&self) -> ParseLabelErrorView {
        match self {
            ParseLabelError::Empty => ParseLabelErrorView::Empty,
            ParseLabelError::StartsWithHyphen => ParseLabelErrorView::StartsWithHyphen,
            ParseLabelError::EndsWithHyphen => ParseLabelErrorView::EndsWithHyphen,
            ParseLabelError::TooLong => ParseLabelErrorView::TooLong,
            ParseLabelError::BadChar(c) => ParseLabelErrorView::BadChar(*c),
            ParseLabelError::IdnaError(_) => ParseLabelErrorView::IdnaError,
        }
    }
}

impl ParseLabelErrorView {
    /// The error in words.
    pub open spec fn text(self) -> Seq<char> {
        match self {
            ParseLabelErrorView::Empty => "domain label can not be empty"@,
            ParseLabelErrorView::StartsWithHyphen => "domain label can not start with hyphen"@,
            ParseLabelErrorView::EndsWithHyphen => "domain label can not end with hyphen"@,
            ParseLabelErrorView::TooLong => "domain label too long"@,
            ParseLabelErrorView::BadChar(c) => seq!['\'', c] + "' not allowed in domain label"@,
            ParseLabelErrorView::IdnaError => "invalid international domain label"@,
        }
    }
}

impl ParseLabelError {
    /// The error in words.
    pub fn to_string(&self) -> (s: String)
        ensures
            s@ == self@.text(),
    {
        match self {
            ParseLabelError::Empty => "domain label can not be empty".to_owned(),
            ParseLabelError::StartsWithHyphen => {
                "domain label can not start with hyphen".to_owned()
            },
            ParseLabelError::EndsWithHyphen => "domain label can not end with hyphen".to_owned(),
            ParseLabelError::TooLong => "domain label too long".to_owned(),
            ParseLabelError::BadChar(c) => {
                let mut s = String::new();
                push_char(&mut s, '\'');
                push_char(&mut s, *c);
                s.append("' not allowed in domain label");
                assert(s@ == seq!['\'', *c] + "' not allowed in domain label"@);
                s
            },
            ParseLabelError::IdnaError(_) => "invalid international domain label".to_owned(),
        }
    }
}

/// The longest that a label may be, in bytes.
pub const MAX_LABEL_BYTES: usize = 63;

/// A label, in ASCII: letters, digits and hyphens where it was given in ASCII, and the
/// ASCII form of what was given where not.
#[derive(Debug, PartialEq, Eq)]
pub struct Label(pub(crate) String);

impl View for Label {
    type V = Seq<char>;

    closed spec fn view(&self) -> Seq<char> {
        self.0@
    }
}

/// Whether a label may hold `c`: any character beyond ASCII, and of ASCII the letters, the
/// digits and the hyphen.
pub open spec fn allowed(c: char) -> bool {
    c > '\u{7f}' || 'a' <= c <= 'z' || 'A' <= c <= 'Z' || '0' <= c <= '9' || c == '-'
}

/// The first character of `s` that a label may not hold.
pub open spec fn bad_char(s: Seq<char>) -> Option<char>
    decreases s.len(),
{
    if s.len() == 0 {
        None
    } else if !allowed(s[0]) {
        Some(s[0])
    } else {
        bad_char(s.drop_first())
    }
}

/// The label that `s` is read as, or why it is none. Of several faults the first of this
/// list is told: empty, a hyphen at the start, a hyphen at the end, too long, a character
/// that is not allowed, no ASCII form.
pub open spec fn label_of(s: Seq<char>) -> Result<Seq<char>, ParseLabelErrorView> {
    if s.len() == 0 {
        Err(ParseLabelErrorView::Empty)
    } else if s[0] == '-' {
        Err(ParseLabelErrorView::StartsWithHyphen)
    } else if s.last() == '-' {
        Err(ParseLabelErrorView::EndsWithHyphen)
    } else if encode_utf8(s).len() > MAX_LABEL_BYTES {
        Err(ParseLabelErrorView::TooLong)
    } else if bad_char(s) is Some {
        Err(ParseLabelErrorView::BadChar(bad_char(s)->0))
    } else if is_ascii_chars(s) {
        Ok(s)
    } else {
        match idna_to_ascii(s) {
            Some(ascii) => Ok(ascii),
            None => Err(ParseLabelErrorView::IdnaError),
        }
    }
}

/// Where `s` holds no character that a label may not hold, each of its characters is one
/// that a label may hold.
proof fn lemma_no_bad_char(s: Seq<char>)
    requires
        bad_char(s) is None,
    ensures
        forall|i: int| 0 <= i < s.len() ==> allowed(#[trigger] s[i]),
    decreases s.len(),
{
    if s.len() > 0 {
        let t = s.drop_first();
        lemma_no_bad_char(t);
        assert forall|i: int| 0 <= i < s.len() implies allowed(#[trigger] s[i]) by {
            if i > 0 {
                assert(s[i] == t[i - 1]);
            }
        }
    }
}

/// A text in ASCII is read as a label if and only if it holds nothing but letters, digits
/// and hyphens, from 1 to 63 of them, and neither starts nor ends with a hyphen; the label
/// is the text itself.
pub proof fn law_ascii_label(s: Seq<char>)
    requires
        is_ascii_chars(s),
    ensures
        label_of(s) is Ok <==> 1 <= s.len() <= MAX_LABEL_BYTES && s[0] != '-' && s.last() != '-'
            && forall|i: int| 0 <= i < s.len() ==> allowed(#[trigger] s[i]),
        label_of(s) is Ok ==> label_of(s) == Ok::<Seq<char>, ParseLabelErrorView>(s),
{
    is_ascii_chars_encode_utf8(s);
    if bad_char(s) is None {
        lemma_no_bad_char(s);
    } else {
        lemma_bad_char_is_held(s);
    }
}

/// The first character of `s` that a label may not hold is a character of `s`.
proof fn lemma_bad_char_is_held(s: Seq<char>)
    requires
        bad_char(s) is Some,
    ensures
        exists|i: int| 0 <= i < s.len() && !allowed(#[trigger] s[i]),
    decreases s.len(),
{
    if allowed(s[0]) {
        let t = s.drop_first();
        lemma_bad_char_is_held(t);
        let i = choose|i: int| 0 <= i < t.len() && !allowed(#[trigger] t[i]);
        assert(s[i + 1] == t[i]);
    }
}

/// The first character of `cs` that a label may not hold.
fn find_bad_char(cs: &[char]) -> (r: Option<char>)
    ensures
        r == bad_char(cs@),
{
    let mut i: usize = 0;
    assert(cs@.skip(0) == cs@);
    while i < cs.len()
        invariant
            i <= cs.len(),
            bad_char(cs@) == bad_char(cs@.skip(i as int)),
        decreases cs.len() - i,
    {
        let c = cs[i];
        let ok = c > '\u{7f}' || ('a' <= c && c <= 'z') || ('A' <= c && c <= 'Z') || ('0' <= c
            && c <= '9') || c == '-';
        assert(cs@.skip(i as int)[0] == c);
        if !ok {
            return Some(c);
        }
        assert(cs@.skip(i as int).drop_first() == cs@.skip(i + 1));
        i += 1;
    }
    None
}

impl Label {
    /// Reads a label.
    pub fn parse(s: &str) -> (r: Result<Label, ParseLabelError>)
        ensures
            match r {
                Ok(label) => label_of(s@) == Ok::<Seq<char>, ParseLabelErrorView>(label@),
                Err(e) => label_of(s@) == Err::<Seq<char>, ParseLabelErrorView>(e@),
            },
    {
        let chars = chars_of(s);
        let cs = chars.as_slice();
        if cs.len() == 0 {
            return Err(ParseLabelError::Empty);
        }
        if cs[0] == '-' {
            return Err(ParseLabelError::StartsWithHyphen);
        }
        if cs[cs.len() - 1] == '-' {
            return Err(ParseLabelError::EndsWithHyphen);
        }
        if s.as_bytes().len() > MAX_LABEL_BYTES {
            return Err(ParseLabelError::TooLong);
        }
        match find_bad_char(cs) {
            Some(c) => {
                return Err(ParseLabelError::BadChar(c));
            },
            None => {},
        }
        if s.is_ascii() {
            return Ok(Label(s.to_owned()));
        }
        match idna::domain_to_ascii(s) {
            Ok(ascii) => Ok(Label(ascii)),
            Err(e) => Err(ParseLabelError::IdnaError(e)),
        }
    }

    /// The label as text.
    pub fn as_str(&self) -> (s: &str)
        ensures
            s@ == self@,
    {
        self.0.as_str()
    }

    /// The label as text.
    pub fn to_string(&self) -> (s: String)
        ensures
            s@ == self@,
    {
        self.0.clone()
    }
}

impl Clone for Label {
    fn clone(&self) -> (label: Label)
        ensures
            label@ == self@,
    {
        Label(self.0.clone())
    }
}

impl FromStr for Label {
    type Err = ParseLabelError;

    fn from_str(s: &str) -> (r: Result<Label, ParseLabelError>)
        ensures
            match r {
                Ok(label) => label_of(s@) == Ok::<Seq<char>, ParseLabelErrorView>(label@),
                Err(e) => label_of(s@) == Err::<Seq<char>, ParseLabelErrorView>(e@),
            },
    {
        Label::parse(s)
    }
}

} // verus!
