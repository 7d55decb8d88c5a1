//! Duration literals: an amount in decimal digits and a unit letter, as in `5m` or `12h`.

use std::num::ParseIntError;
use vstd::prelude::*;
use vstd::string::{StrSliceExecFns, StringExecFns};

use crate::text::{
    all_digits, chars_of, decimal_of, decimal_text, decimal_value, is_digit, lemma_decimal_text,
    lemma_run_len, lemma_run_len_is, run_len, scan, CharClass,
};

verus! {

/// `std::num::ParseIntError`, the error that reading an integer gives.
#[verifier::external_type_specification]
#[verifier::external_body]
pub struct ExParseIntError(ParseIntError);

/// A span of whole seconds.
#[derive(Clone, Copy, Debug, PartialEq, Eq, Structural)]
pub struct Duration {
    /// The number of seconds.
    pub secs: u64,
}

impl View for Duration {
    type V = nat;

    /// The number of seconds.
    open spec fn view(&self) -> nat {
        self.secs as nat
    }
}

impl Duration {
    /// The span of `secs` seconds.
    pub fn from_secs(secs: u64) -> (d: Duration)
        ensures
            d@ == secs,
    {
        Duration { secs }
    }

    /// The number of seconds in the span.
    pub fn as_secs(&self) -> (secs: u64)
        ensures
            secs == self@,
    {
        self.secs
    }

    /// The shorter of two spans.
    pub fn min(self, other: Duration) -> (d: Duration)
        ensures
            d@ == if self@ <= other@ {
                self@
            } else {
                other@
            },
    {
        if self.secs <= other.secs {
            self
        } else {
            other
        }
    }

    /// The span that `value` stands for, unless it is longer than a `Duration` can hold.
    pub fn try_from(value: Spec) -> (r: Result<Duration, Overflow>)
        ensures
            match r {
                Ok(d) => d@ == value.seconds(),
                Err(_) => value.seconds() > u64::MAX,
            },
        decreases value.rank(),
    {
        match value {
            Spec::Seconds(u) => Ok(Duration::from_secs(u)),
            Spec::Minutes(u) => match u.checked_mul(60) {
                Some(v) => Duration::try_from(Spec::Seconds(v)),
                None => Err(Overflow()),
            },
            Spec::Hours(u) => match u.checked_mul(60) {
                Some(v) => Duration::try_from(Spec::Minutes(v)),
                None => Err(Overflow()),
            },
            Spec::Days(u) => match u.checked_mul(24) {
                Some(v) => Duration::try_from(Spec::Hours(v)),
                None => Err(Overflow()),
            },
            Spec::Weeks(u) => match u.checked_mul(7) {
                Some(v) => Duration::try_from(Spec::Days(v)),
                None => Err(Overflow()),
            },
        }
    }
}

/// A span too long for a `Duration`.
#[derive(Debug)]
pub struct Overflow();

/// Why a string is no duration.
#[derive(Debug)]
pub enum ParseError<'a> {
    /// The string is no duration literal; the field is the part of it at which reading stopped.
    UnrecognizedInput(&'a str),
    /// The amount does not fit in 64 bits.
    BadInt(ParseIntError),
    /// The amount fits, but the span in seconds does not.
    Overflow,
}

/// A `ParseError` without what is borrowed or opaque in it.
pub enum ParseErrorView {
    UnrecognizedInput(Seq<char>),
    BadInt,
    Overflow,
}

impl<'a> View for ParseError<'a> {
    type V = ParseErrorView;

    open spec fn view(&self) -> ParseErrorView {
        match self {
            ParseError::UnrecognizedInput(rest) => ParseErrorView::UnrecognizedInput(rest@),
            ParseError::BadInt(_) => ParseErrorView::BadInt,
            ParseError::Overflow => ParseErrorView::Overflow,
        }
    }
}

/// The `Display` of a `ParseIntError`, through `to_string`: its reason in words.
#[verifier::external_body]
fn int_error_to_string(e: &ParseIntError) -> (s: String) {
    e.to_string()
}

/// `s` as the `Debug` of a string writes it: in double quotes, with what is no plain
/// character escaped.
pub uninterp spec fn quoted(s: Seq<char>) -> Seq<char>;

/// The `Debug` of a string, through `format`.
#[verifier::external_body]
fn quote(s: &str) -> (r: String)
    ensures
        r@ == quoted(s@),
{
    format!("{:?}", s)
}

impl<'a> ParseError<'a> {
    /// The error in words: `text` is what says that an input is unrecognized, or that a
    /// value is out of range. The words for an amount beyond 64 bits are those of the error
    /// that the variant holds, whatever they are.
    pub open spec fn words(self, text: Seq<char>) -> bool {
        match self {
            ParseError::UnrecognizedInput(rest) => text == "unrecognized input "@ + quoted(rest@),
            ParseError::BadInt(_) => true,
            ParseError::Overflow => text == "value out of range"@,
        }
    }

    /// The error in words.
    pub fn to_string(&self) -> (s: String)
        ensures
            self.words(s@),
    {
        match self {
            ParseError::UnrecognizedInput(rest) => {
                let mut s = "unrecognized input ".to_owned();
                s.append(quote(rest).as_str());
                s
            },
            ParseError::BadInt(e) => int_error_to_string(e),
            ParseError::Overflow => "value out of range".to_owned(),
        }
    }
}

/// An amount with its unit.
#[derive(Clone, Copy, Debug, PartialEq, Eq, Structural)]
pub enum Spec {
    Seconds(u64),
    Minutes(u64),
    Hours(u64),
    Days(u64),
    Weeks(u64),
}

impl Spec {
    /// The amount, whatever the unit.
    pub open spec fn amount(self) -> nat {
        match self {
            Spec::Seconds(u) => u as nat,
            Spec::Minutes(u) => u as nat,
            Spec::Hours(u) => u as nat,
            Spec::Days(u) => u as nat,
            Spec::Weeks(u) => u as nat,
        }
    }

    /// How many seconds one of the unit lasts.
    pub open spec fn unit_seconds(self) -> nat {
        match self {
            Spec::Seconds(_) => 1,
            Spec::Minutes(_) => 60,
            Spec::Hours(_) => 3_600,
            Spec::Days(_) => 86_400,
            Spec::Weeks(_) => 604_800,
        }
    }

    /// How many seconds the whole lasts; no bound applies.
    pub open spec fn seconds(self) -> nat {
        self.amount() * self.unit_seconds()
    }

    /// The place of the unit among the five, shortest first.
    pub open spec fn rank(self) -> nat {
        match self {
            Spec::Seconds(_) => 0,
            Spec::Minutes(_) => 1,
            Spec::Hours(_) => 2,
            Spec::Days(_) => 3,
            Spec::Weeks(_) => 4,
        }
    }
}

/// The amount `amount` in the unit that the letter `unit` names, if it names one.
pub open spec fn spec_of(amount: u64, unit: char) -> Option<Spec> {
    if unit == 's' {
        Some(Spec::Seconds(amount))
    } else if unit == 'm' {
        Some(Spec::Minutes(amount))
    } else if unit == 'h' {
        Some(Spec::Hours(amount))
    } else if unit == 'd' {
        Some(Spec::Days(amount))
    } else if unit == 'w' {
        Some(Spec::Weeks(amount))
    } else {
        None
    }
}

/// How many characters at the start of `s` write the amount: a lone `0`, or a digit other
/// than `0` with all the digits that follow it; 0 where `s` starts with neither.
pub open spec fn amount_len(s: Seq<char>) -> nat {
    if s.len() > 0 && s[0] == '0' {
        1
    } else {
        run_len(s, CharClass::Digit)
    }
}

/// What the literal `s` is read as: its amount and unit, or the reason why it has none.
///
/// The literal is an amount, one unit letter and nothing more. Reading stops at the first
/// character that does not fit, and the error holds the input from there on.
pub open spec fn literal_spec(s: Seq<char>) -> Result<Spec, ParseErrorView> {
    let n = amount_len(s) as int;
    if n == 0 {
        Err(ParseErrorView::UnrecognizedInput(s))
    } else if n == s.len() || spec_of(0, s[n]) is None {
        Err(ParseErrorView::UnrecognizedInput(s.skip(n)))
    } else if n + 1 < s.len() {
        Err(ParseErrorView::UnrecognizedInput(s.skip(n + 1)))
    } else if decimal_value(s.take(n)) > u64::MAX {
        Err(ParseErrorView::BadInt)
    } else {
        Ok(spec_of(decimal_value(s.take(n)) as u64, s[n])->0)
    }
}

/// How many seconds the literal `s` stands for, or the reason why it stands for none.
pub open spec fn literal_seconds(s: Seq<char>) -> Result<nat, ParseErrorView> {
    match literal_spec(s) {
        Ok(spec) => if spec.seconds() <= u64::MAX {
            Ok(spec.seconds())
        } else {
            Err(ParseErrorView::Overflow)
        },
        Err(e) => Err(e),
    }
}

/// An amount of 64 bits, written in decimal digits with a unit letter after it, is read as
/// that amount in that unit; as a span it is that many seconds where they fit in 64 bits,
/// and an overflow where they do not.
pub proof fn law_literal_reads_back(amount: u64, unit: char)
    requires
        spec_of(amount, unit) is Some,
    ensures
        literal_spec(decimal_text(amount as nat) + seq![unit]) == Ok::<Spec, ParseErrorView>(
            spec_of(amount, unit)->0,
        ),
        literal_seconds(decimal_text(amount as nat) + seq![unit]) == if spec_of(
            amount,
            unit,
        )->0.seconds() <= u64::MAX {
            Ok::<nat, ParseErrorView>(spec_of(amount, unit)->0.seconds())
        } else {
            Err::<nat, ParseErrorView>(ParseErrorView::Overflow)
        },
{
    let digits = decimal_text(amount as nat);
    let s = digits + seq![unit];
    lemma_decimal_text(amount as nat);
    let n = digits.len();
    assert(s[n as int] == unit);
    assert(!is_digit(unit));
    assert forall|i: int| 0 <= i < n implies CharClass::Digit.has(#[trigger] s[i]) by {
        assert(s[i] == digits[i]);
    }
    lemma_run_len_is(s, CharClass::Digit, n);
    assert(s[0] == digits[0]);
    assert(amount_len(s) == n);
    assert(s.take(n as int) == digits);
}

/// `str::parse` for `u64`, on decimal digits that write a number beyond 64 bits: the error
/// that it gives.
#[verifier::external_body]
fn overflow_error(digits: &str) -> (e: ParseIntError)
    requires
        all_digits(digits@),
        decimal_value(digits@) > u64::MAX,
{
    digits.parse::<u64>().unwrap_err()
}

/// The amount `amount` in the unit that the letter `unit` names.
fn make_spec(amount: u64, unit: char) -> (r: Option<Spec>)
    ensures
        r == spec_of(amount, unit),
{
    if unit == 's' {
        Some(Spec::Seconds(amount))
    } else if unit == 'm' {
        Some(Spec::Minutes(amount))
    } else if unit == 'h' {
        Some(Spec::Hours(amount))
    } else if unit == 'd' {
        Some(Spec::Days(amount))
    } else if unit == 'w' {
        Some(Spec::Weeks(amount))
    } else {
        None
    }
}

/// Reads a duration literal as an amount and a unit.
pub fn parse_spec(s: &str) -> (r: Result<Spec, ParseError<'_>>)
    ensures
        match r {
            Ok(spec) => literal_spec(s@) == Ok::<Spec, ParseErrorView>(spec),
            Err(e) => literal_spec(s@) == Err::<Spec, ParseErrorView>(e@),
        },
{
    let cs = chars_of(s);
    let len = cs.len();
    let n: usize = if len > 0 && cs[0] == '0' {
        1
    } else {
        scan(cs.as_slice(), 0, CharClass::Digit)
    };
    proof {
        assert(cs@.skip(0) == cs@);
        lemma_run_len(cs@, CharClass::Digit);
    }
    if n == 0 {
        return Err(ParseError::UnrecognizedInput(s));
    }
    if n == len {
        return Err(ParseError::UnrecognizedInput(s.substring_char(n, len)));
    }
    let unit = cs[n];
    if make_spec(0, unit).is_none() {
        return Err(ParseError::UnrecognizedInput(s.substring_char(n, len)));
    }
    if n + 1 < len {
        return Err(ParseError::UnrecognizedInput(s.substring_char(n + 1, len)));
    }
    let digits = s.substring_char(0, n);
    assert(digits@ == s@.take(n as int));
    assert(all_digits(digits@)) by {
        assert forall|i: int| 0 <= i < digits@.len() implies is_digit(#[trigger] digits@[i]) by {
            assert(digits@[i] == cs@[i]);
        }
    }
    assert(digits@ == cs@.subrange(0, n as int));
    match decimal_of(cs.as_slice(), 0, n) {
        Some(amount) => match make_spec(amount, unit) {
            Some(spec) => Ok(spec),
            None => Err(ParseError::UnrecognizedInput(s.substring_char(n, len))),
        },
        None => Err(ParseError::BadInt(overflow_error(digits))),
    }
}

/// Reads a duration literal: decimal digits without a leading zero (a lone `0` is an
/// amount), then one of `s`, `m`, `h`, `d`, `w` for seconds, minutes, hours, days, weeks.
///
/// A literal whose span in seconds does not fit in 64 bits gives `Overflow` where its
/// amount fits and `BadInt` where not even that does; a string that is no literal gives
/// `UnrecognizedInput`.
pub fn parse_duration(s: &str) -> (r: Result<Duration, ParseError<'_>>)
    ensures
        match r {
            Ok(d) => literal_seconds(s@) == Ok::<nat, ParseErrorView>(d@),
            Err(e) => literal_seconds(s@) == Err::<nat, ParseErrorView>(e@),
        },
        r matches Err(ParseError::Overflow) <==> (literal_spec(s@) matches Ok(spec)
            && spec.seconds() > u64::MAX),
{
    match parse_spec(s) {
        Ok(spec) => match Duration::try_from(spec) {
            Ok(d) => Ok(d),
            Err(_) => Err(ParseError::Overflow),
        },
        Err(e) => Err(e),
    }
}

} // verus!
