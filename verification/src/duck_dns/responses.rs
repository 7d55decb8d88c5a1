//! What the update service answers: a few lines of text.
//!
//! The first line is the status, `OK` or `KO`. A verbose answer goes on with the IPv4
//! address, the IPv6 address and whether anything changed, each on a line of its own, an
//! address that is not set leaving its line empty. The answer to an update of the text
//! record goes on with the text and whether anything changed.

use vstd::prelude::*;
use vstd::slice::slice_subrange;
use vstd::string::StringExecFns;
use std::str::FromStr;

use crate::net::{ipv4_text, ipv6_text, AddrKind, AddrParseError, Ipv4Addr, Ipv6Addr};
use crate::text::{chars_of, lines_of, push_char, same_text, split_lines, string_of};

verus! {

/// Whether the service did what was asked.
#[derive(Clone, Copy, Debug, PartialEq, Eq, Structural)]
pub enum Status {
    OK,
    KO,
}

/// Whether the request changed anything.
#[derive(Clone, Copy, Debug, PartialEq, Eq, Structural)]
pub enum Updated {
    Updated,
    Nochange,
}

/// Why a text is no answer to an update of the addresses.
#[derive(Clone, Copy, Debug, PartialEq, Eq, Structural)]
pub enum ParseResponseError {
    /// The first line is neither `OK` nor `KO`.
    UnrecognizedStatus,
    /// The line of an address writes none.
    BadAddr(AddrParseError),
    /// The fourth line is neither `UPDATED` nor `NOCHANGE`.
    UnrecognizedUpdated,
    /// More follows the fourth line than one empty line.
    ExpectedEnd,
}

/// The answer to an update of the addresses.
#[derive(Clone, Copy, Debug, PartialEq, Eq, Structural)]
pub struct Response {
    pub status: Status,
    pub ipv4: Option<Ipv4Addr>,
    pub ipv6: Option<Ipv6Addr>,
    pub updated: Option<Updated>,
}

/// Why a text is no answer to an update of the text record.
#[derive(Clone, Copy, Debug, PartialEq, Eq, Structural)]
pub enum ParseTxtResponseError {
    /// The first line is neither `OK` nor `KO`.
    UnrecognizedStatus,
    /// The third line is neither `UPDATED` nor `NOCHANGE`.
    UnrecognizedUpdated,
    /// More follows the third line than one empty line.
    ExpectedEnd,
}

/// The answer to an update of the text record.
#[derive(Debug)]
pub struct TxtResponse {
    pub status: Status,
    pub txt: Option<String>,
    pub updated: Option<Updated>,
}

/// A `TxtResponse`, with the text in place of its string.
pub struct TxtResponseView {
    pub status: Status,
    pub txt: Option<Seq<char>>,
    pub updated: Option<Updated>,
}

impl View for TxtResponse {
    type V = TxtResponseView;

    open spec fn view(&self) -> TxtResponseView {
        TxtResponseView {
            status: self.status,
            txt: match self.txt {
                Some(txt) => Some(txt@),
                None => None,
            },
            updated: self.updated,
        }
    }
}

/// The status that a line writes.
pub open spec fn status_of(line: Seq<char>) -> Option<Status> {
    if line == "OK"@ {
        Some(Status::OK)
    } else if line == "KO"@ {
        Some(Status::KO)
    } else {
        None
    }
}

/// What a line says of whether anything changed.
pub open spec fn updated_of(line: Seq<char>) -> Option<Updated> {
    if line == "UPDATED"@ {
        Some(Updated::Updated)
    } else if line == "NOCHANGE"@ {
        Some(Updated::Nochange)
    } else {
        None
    }
}

/// Whether nothing follows line `i` of `lines` but one empty line at most; line `i` itself
/// is the first that is not read.
pub open spec fn ends_at(lines: Seq<Seq<char>>, i: int) -> bool {
    lines.len() <= i || (lines.len() == i + 1 && lines[i].len() == 0)
}

/// What a text is read as, as the answer to an update of the addresses. Of several faults
/// the one in the earliest line is told.
pub open spec fn response_of(s: Seq<char>) -> Result<Response, ParseResponseError> {
    let lines = lines_of(s);
    if lines.len() < 1 || status_of(lines[0]) is None {
        Err(ParseResponseError::UnrecognizedStatus)
    } else if lines.len() > 1 && lines[1].len() > 0 && ipv4_text(lines[1]) is None {
        Err(ParseResponseError::BadAddr(AddrParseError(AddrKind::Ipv4)))
    } else if lines.len() > 2 && lines[2].len() > 0 && ipv6_text(lines[2]) is None {
        Err(ParseResponseError::BadAddr(AddrParseError(AddrKind::Ipv6)))
    } else if lines.len() > 3 && updated_of(lines[3]) is None {
        Err(ParseResponseError::UnrecognizedUpdated)
    } else if !ends_at(lines, 4) {
        Err(ParseResponseError::ExpectedEnd)
    } else {
        Ok(
            Response {
                status: status_of(lines[0])->0,
                ipv4: if lines.len() > 1 && lines[1].len() > 0 {
                    ipv4_text(lines[1])
                } else {
                    None
                },
                ipv6: if lines.len() > 2 && lines[2].len() > 0 {
                    ipv6_text(lines[2])
                } else {
                    None
                },
                updated: if lines.len() > 3 {
                    updated_of(lines[3])
                } else {
                    None
                },
            },
        )
    }
}

/// What a text is read as, as the answer to an update of the text record. Of several
/// faults the one in the earliest line is told.
pub open spec fn txt_response_of(s: Seq<char>) -> Result<TxtResponseView, ParseTxtResponseError> {
    let lines = lines_of(s);
    if lines.len() < 1 || status_of(lines[0]) is None {
        Err(ParseTxtResponseError::UnrecognizedStatus)
    } else if lines.len() > 2 && updated_of(lines[2]) is None {
        Err(ParseTxtResponseError::UnrecognizedUpdated)
    } else if !ends_at(lines, 3) {
        Err(ParseTxtResponseError::ExpectedEnd)
    } else {
        Ok(
            TxtResponseView {
                status: status_of(lines[0])->0,
                txt: if lines.len() > 1 {
                    Some(lines[1])
                } else {
                    None
                },
                updated: if lines.len() > 2 {
                    updated_of(lines[2])
                } else {
                    None
                },
            },
        )
    }
}

impl Status {
    /// The status as the service writes it.
    pub open spec fn text(self) -> Seq<char> {
        match self {
            Status::OK => "OK"@,
            Status::KO => "KO"@,
        }
    }

    /// The status as the service writes it.
    pub fn to_string(&self) -> (s: String)
        ensures
            s@ == self.text(),
    {
        match self {
            Status::OK => "OK".to_owned(),
            Status::KO => "KO".to_owned(),
        }
    }
}

impl Updated {
    /// Whether anything changed, as the service writes it.
    pub open spec fn text(self) -> Seq<char> {
        match self {
            Updated::Updated => "UPDATED"@,
            Updated::Nochange => "NOCHANGE"@,
        }
    }

    /// Whether anything changed, as the service writes it.
    pub fn to_string(&self) -> (s: String)
        ensures
            s@ == self.text(),
    {
        match self {
            Updated::Updated => "UPDATED".to_owned(),
            Updated::Nochange => "NOCHANGE".to_owned(),
        }
    }
}

impl ParseResponseError {
    /// The error in words.
    pub open spec fn text(self) -> Seq<char> {
        match self {
            ParseResponseError::UnrecognizedStatus => "unrecognized status line"@,
            ParseResponseError::BadAddr(e) => e.text(),
            ParseResponseError::UnrecognizedUpdated => "unrecognized updated line"@,
            ParseResponseError::ExpectedEnd => "expected end of input"@,
        }
    }

    /// The error in words.
    pub fn to_string(&self) -> (s: String)
        ensures
            s@ == self.text(),
    {
        match self {
            ParseResponseError::UnrecognizedStatus => "unrecognized status line".to_owned(),
            ParseResponseError::BadAddr(e) => e.to_string(),
            ParseResponseError::UnrecognizedUpdated => "unrecognized updated line".to_owned(),
            ParseResponseError::ExpectedEnd => "expected end of input".to_owned(),
        }
    }
}

impl ParseTxtResponseError {
    /// The error in words.
    pub open spec fn text(self) -> Seq<char> {
        match self {
            ParseTxtResponseError::UnrecognizedStatus => "unrecognized status line"@,
            ParseTxtResponseError::UnrecognizedUpdated => "unrecognized updated line"@,
            ParseTxtResponseError::ExpectedEnd => "expected end of input"@,
        }
    }

    /// The error in words.
    pub fn to_string(&self) -> (s: String)
        ensures
            s@ == self.text(),
    {
        match self {
            ParseTxtResponseError::UnrecognizedStatus => "unrecognized status line".to_owned(),
            ParseTxtResponseError::UnrecognizedUpdated => "unrecognized updated line".to_owned(),
            ParseTxtResponseError::ExpectedEnd => "expected end of input".to_owned(),
        }
    }
}

/// An answer to an update of the addresses, as text: the status and, where the answer
/// tells whether anything changed, a line for each address, empty where the address is not
/// set, and a line that tells it. No line feed ends the last line.
pub open spec fn response_text(response: Response) -> Seq<char> {
    response.status.text() + match response.updated {
        Some(updated) => seq!['\n'] + match response.ipv4 {
            Some(ip) => ip.text(),
            None => Seq::empty(),
        } + seq!['\n'] + match response.ipv6 {
            Some(ip) => ip.text(),
            None => Seq::empty(),
        } + seq!['\n'] + updated.text(),
        None => Seq::empty(),
    }
}

/// An answer to an update of the text record, as text: the status and, where the answer
/// tells whether anything changed, a line for the text, empty where there is none, and a
/// line that tells it. No line feed ends the last line.
pub open spec fn txt_response_text(response: TxtResponseView) -> Seq<char> {
    response.status.text() + match response.updated {
        Some(updated) => seq!['\n'] + match response.txt {
            Some(txt) => txt,
            None => Seq::empty(),
        } + seq!['\n'] + updated.text(),
        None => Seq::empty(),
    }
}

/// The status that `cs[from..to]` writes.
fn status_at(cs: &[char], from: usize, to: usize) -> (r: Option<Status>)
    requires
        from <= to <= cs.len(),
    ensures
        r == status_of(cs@.subrange(from as int, to as int)),
{
    if same_text(cs, from, to, "OK") {
        Some(Status::OK)
    } else if same_text(cs, from, to, "KO") {
        Some(Status::KO)
    } else {
        None
    }
}

/// What `cs[from..to]` says of whether anything changed.
fn updated_at(cs: &[char], from: usize, to: usize) -> (r: Option<Updated>)
    requires
        from <= to <= cs.len(),
    ensures
        r == updated_of(cs@.subrange(from as int, to as int)),
{
    if same_text(cs, from, to, "UPDATED") {
        Some(Updated::Updated)
    } else if same_text(cs, from, to, "NOCHANGE") {
        Some(Updated::Nochange)
    } else {
        None
    }
}

/// Whether nothing follows line `i` but one empty line at most.
fn ends(lines: &Vec<(usize, usize)>, i: usize, Ghost(texts): Ghost<Seq<Seq<char>>>) -> (b: bool)
    requires
        lines@.len() == texts.len(),
        forall|j: int|
            0 <= j < lines@.len() ==> (#[trigger] lines@[j]).0 <= lines@[j].1 && lines@[j].1
                - lines@[j].0 == texts[j].len(),
    ensures
        b == ends_at(texts, i as int),
{
    lines.len() <= i || (lines.len() - i == 1 && lines[i].0 == lines[i].1)
}

impl Response {
    /// Whether the service did what was asked.
    pub fn status(&self) -> (r: Status)
        ensures
            r == self.status,
    {
        self.status
    }

    /// The IPv4 address that is set, if the answer tells it.
    pub fn ipv4(&self) -> (r: Option<&Ipv4Addr>)
        ensures
            match r {
                Some(ip) => self.ipv4 == Some(*ip),
                None => self.ipv4 is None,
            },
    {
        self.ipv4.as_ref()
    }

    /// The IPv6 address that is set, if the answer tells it.
    pub fn ipv6(&self) -> (r: Option<&Ipv6Addr>)
        ensures
            match r {
                Some(ip) => self.ipv6 == Some(*ip),
                None => self.ipv6 is None,
            },
    {
        self.ipv6.as_ref()
    }

    /// Whether the request changed anything, if the answer tells it.
    pub fn updated(&self) -> (r: Option<Updated>)
        ensures
            r == self.updated,
    {
        self.updated
    }

    /// The answer as text.
    pub fn to_string(&self) -> (s: String)
        ensures
            s@ == response_text(*self),
    {
        let mut s = self.status.to_string();
        match self.updated {
            Some(updated) => {
                push_char(&mut s, '\n');
                match self.ipv4 {
                    Some(ip) => {
                        ip.write_to(&mut s);
                    },
                    None => {},
                }
                push_char(&mut s, '\n');
                match self.ipv6 {
                    Some(ip) => {
                        ip.write_to(&mut s);
                    },
                    None => {},
                }
                push_char(&mut s, '\n');
                s.append(updated.to_string().as_str());
                assert(s@ == response_text(*self));
            },
            None => {
                assert(s@ == response_text(*self));
            },
        }
        s
    }

    /// Reads the answer to an update of the addresses.
    pub fn parse(s: &str) -> (r: Result<Response, ParseResponseError>)
        ensures
            r == response_of(s@),
    {
        let chars = chars_of(s);
        let cs = chars.as_slice();
        let lines = split_lines(cs);
        let ghost texts = lines_of(cs@);
        let n = lines.len();
        if n < 1 {
            return Err(ParseResponseError::UnrecognizedStatus);
        }
        let status = match status_at(cs, lines[0].0, lines[0].1) {
            Some(status) => status,
            None => {
                return Err(ParseResponseError::UnrecognizedStatus);
            },
        };
        let ipv4 = if n > 1 && lines[1].1 > lines[1].0 {
            match Ipv4Addr::from_chars(slice_subrange(cs, lines[1].0, lines[1].1)) {
                Ok(ip) => Some(ip),
                Err(e) => {
                    return Err(ParseResponseError::BadAddr(e));
                },
            }
        } else {
            None
        };
        let ipv6 = if n > 2 && lines[2].1 > lines[2].0 {
            match Ipv6Addr::from_chars(slice_subrange(cs, lines[2].0, lines[2].1)) {
                Ok(ip) => Some(ip),
                Err(e) => {
                    return Err(ParseResponseError::BadAddr(e));
                },
            }
        } else {
            None
        };
        let updated = if n > 3 {
            match updated_at(cs, lines[3].0, lines[3].1) {
                Some(updated) => Some(updated),
                None => {
                    return Err(ParseResponseError::UnrecognizedUpdated);
                },
            }
        } else {
            None
        };
        if !ends(&lines, 4, Ghost(texts)) {
            return Err(ParseResponseError::ExpectedEnd);
        }
        Ok(Response { status, ipv4, ipv6, updated })
    }
}

impl FromStr for Response {
    type Err = ParseResponseError;

    fn from_str(s: &str) -> (r: Result<Response, ParseResponseError>)
        ensures
            r == response_of(s@),
    {
        Response::parse(s)
    }
}

impl TxtResponse {
    /// Whether the service did what was asked.
    pub fn status(&self) -> (r: Status)
        ensures
            r == self.status,
    {
        self.status
    }

    /// The text that is set, if the answer tells it.
    pub fn txt(&self) -> (r: Option<&str>)
        ensures
            match r {
                Some(txt) => self@.txt == Some(txt@),
                None => self@.txt is None,
            },
    {
        match &self.txt {
            Some(txt) => Some(txt.as_str()),
            None => None,
        }
    }

    /// Whether the request changed anything, if the answer tells it.
    pub fn updated(&self) -> (r: Option<Updated>)
        ensures
            r == self.updated,
    {
        self.updated
    }

    /// The answer as text.
    pub fn to_string(&self) -> (s: String)
        ensures
            s@ == txt_response_text(self@),
    {
        let mut s = self.status.to_string();
        match self.updated {
            Some(updated) => {
                push_char(&mut s, '\n');
                match &self.txt {
                    Some(txt) => {
                        s.append(txt.as_str());
                    },
                    None => {},
                }
                push_char(&mut s, '\n');
                s.append(updated.to_string().as_str());
                assert(s@ == txt_response_text(self@));
            },
            None => {
                assert(s@ == txt_response_text(self@));
            },
        }
        s
    }

    /// Reads the answer to an update of the text record.
    pub fn parse(s: &str) -> (r: Result<TxtResponse, ParseTxtResponseError>)
        ensures
            match r {
                Ok(response) => txt_response_of(s@) == Ok::<
                    TxtResponseView,
                    ParseTxtResponseError,
                >(response@),
                Err(e) => txt_response_of(s@) == Err::<TxtResponseView, ParseTxtResponseError>(e),
            },
    {
        let chars = chars_of(s);
        let cs = chars.as_slice();
        let lines = split_lines(cs);
        let ghost texts = lines_of(cs@);
        let n = lines.len();
        if n < 1 {
            return Err(ParseTxtResponseError::UnrecognizedStatus);
        }
        let status = match status_at(cs, lines[0].0, lines[0].1) {
            Some(status) => status,
            None => {
                return Err(ParseTxtResponseError::UnrecognizedStatus);
            },
        };
        let txt = if n > 1 {
            Some(string_of(cs, lines[1].0, lines[1].1))
        } else {
            None
        };
        let updated = if n > 2 {
            match updated_at(cs, lines[2].0, lines[2].1) {
                Some(updated) => Some(updated),
                None => {
                    return Err(ParseTxtResponseError::UnrecognizedUpdated);
                },
            }
        } else {
            None
        };
        if !ends(&lines, 3, Ghost(texts)) {
            return Err(ParseTxtResponseError::ExpectedEnd);
        }
        Ok(TxtResponse { status, txt, updated })
    }
}

impl FromStr for TxtResponse {
    type Err = ParseTxtResponseError;

    fn from_str(s: &str) -> (r: Result<TxtResponse, ParseTxtResponseError>)
        ensures
            match r {
                Ok(response) => txt_response_of(s@) == Ok::<
                    TxtResponseView,
                    ParseTxtResponseError,
                >(response@),
                Err(e) => txt_response_of(s@) == Err::<TxtResponseView, ParseTxtResponseError>(e),
            },
    {
        TxtResponse::parse(s)
    }
}

} // verus!
