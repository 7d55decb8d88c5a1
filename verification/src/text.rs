//! Characters of strings: classes and runs of them, numbers in decimal and hexadecimal
//! digits, white space, and lines.

use vstd::prelude::*;
use vstd::std_specs::iter::IteratorSpec;

verus! {

/// Whether `c` is one of the ten ASCII decimal digits.
pub open spec fn is_digit(c: char) -> bool {
    '0' <= c <= '9'
}

/// The number that the decimal digit `c` stands for.
pub open spec fn digit_value(c: char) -> nat
    recommends
        is_digit(c),
{
    (c as u32 - '0' as u32) as nat
}

/// Whether every character of `s` is a decimal digit.
pub open spec fn all_digits(s: Seq<char>) -> bool {
    forall|i: int| 0 <= i < s.len() ==> is_digit(#[trigger] s[i])
}

/// The number that the decimal digits `s` write, most significant digit first.
pub open spec fn decimal_value(s: Seq<char>) -> nat
    decreases s.len(),
{
    if s.len() == 0 {
        0
    } else {
        decimal_value(s.drop_last()) * 10 + digit_value(s.last())
    }
}

/// The decimal digit that stands for `d`.
pub open spec fn digit_char(d: nat) -> char
    recommends
        d < 10,
{
    (d + '0' as u32) as char
}

/// The decimal digits that write `n`, without leading zeros; `0` is written `0`.
pub open spec fn decimal_text(n: nat) -> Seq<char>
    decreases n,
{
    if n < 10 {
        seq![digit_char(n)]
    } else {
        decimal_text(n / 10).push(digit_char(n % 10))
    }
}

/// The digits that write a number are digits, at least one, and write that number; no
/// number but 0 starts with the digit `0`; and a number below a thousand takes three digits
/// at most.
pub proof fn lemma_decimal_text(n: nat)
    ensures
        decimal_text(n).len() >= 1,
        all_digits(decimal_text(n)),
        decimal_value(decimal_text(n)) == n,
        n == 0 <==> decimal_text(n)[0] == '0',
        n < 10 ==> decimal_text(n).len() == 1,
        n < 100 ==> decimal_text(n).len() <= 2,
        n < 1000 ==> decimal_text(n).len() <= 3,
    decreases n,
{
    let s = decimal_text(n);
    if n < 10 {
        assert(s == seq![digit_char(n)]);
        assert(s.drop_last().len() == 0);
        assert(decimal_value(s.drop_last()) == 0);
        assert(digit_value(s.last()) == n);
    } else {
        let t = decimal_text(n / 10);
        lemma_decimal_text(n / 10);
        let c = digit_char(n % 10);
        assert(s == t.push(c));
        assert(s.drop_last() == t);
        assert(s.last() == c);
        assert(is_digit(c));
        assert(digit_value(c) == n % 10);
        assert(s[0] == t[0]);
        assert forall|i: int| 0 <= i < s.len() implies is_digit(#[trigger] s[i]) by {
            if i < t.len() {
                assert(s[i] == t[i]);
            }
        }
    }
}

/// The digits at the start of a number write no more than the whole number.
pub proof fn lemma_decimal_prefix(s: Seq<char>, k: int)
    requires
        0 <= k <= s.len(),
    ensures
        decimal_value(s.take(k)) <= decimal_value(s),
    decreases s.len() - k,
{
    if k < s.len() {
        lemma_decimal_prefix(s, k + 1);
        assert(s.take(k + 1).drop_last() == s.take(k));
    } else {
        assert(s.take(k) == s);
    }
}

/// Whether `c` is a hexadecimal digit, in either case.
pub open spec fn is_hex_digit(c: char) -> bool {
    '0' <= c <= '9' || 'a' <= c <= 'f' || 'A' <= c <= 'F'
}

/// The number that the hexadecimal digit `c` stands for.
pub open spec fn hex_digit_value(c: char) -> nat
    recommends
        is_hex_digit(c),
{
    if '0' <= c <= '9' {
        (c as u32 - '0' as u32) as nat
    } else if 'a' <= c <= 'f' {
        (c as u32 - 'a' as u32 + 10) as nat
    } else {
        (c as u32 - 'A' as u32 + 10) as nat
    }
}

/// The number that the hexadecimal digits `s` write, most significant digit first.
pub open spec fn hex_value(s: Seq<char>) -> nat
    decreases s.len(),
{
    if s.len() == 0 {
        0
    } else {
        hex_value(s.drop_last()) * 16 + hex_digit_value(s.last())
    }
}

/// The hexadecimal digit that stands for `d`, a letter in lower case.
pub open spec fn hex_char(d: nat) -> char
    recommends
        d < 16,
{
    if d < 10 {
        (d + '0' as u32) as char
    } else {
        (d - 10 + 'a' as u32) as char
    }
}

/// The hexadecimal digits that write `n`, letters in lower case, without leading zeros; `0`
/// is written `0`.
pub open spec fn hex_text(n: nat) -> Seq<char>
    decreases n,
{
    if n < 16 {
        seq![hex_char(n)]
    } else {
        hex_text(n / 16).push(hex_char(n % 16))
    }
}

/// The least number that `n` hexadecimal digits cannot write.
pub open spec fn hex_limit(n: nat) -> nat
    decreases n,
{
    if n == 0 {
        1
    } else {
        16 * hex_limit((n - 1) as nat)
    }
}

/// Hexadecimal digits write a number below the limit of their count.
pub proof fn lemma_hex_value_bound(s: Seq<char>)
    requires
        forall|i: int| 0 <= i < s.len() ==> is_hex_digit(#[trigger] s[i]),
    ensures
        hex_value(s) < hex_limit(s.len()),
    decreases s.len(),
{
    if s.len() > 0 {
        let t = s.drop_last();
        assert forall|i: int| 0 <= i < t.len() implies is_hex_digit(#[trigger] t[i]) by {
            assert(t[i] == s[i]);
        }
        lemma_hex_value_bound(t);
        assert(is_hex_digit(s.last()));
    }
}

/// Whether `c` is a space or a tab, the two characters that separate tokens.
pub open spec fn is_blank(c: char) -> bool {
    c == ' ' || c == '\t'
}

/// Whether `c` is white space, as Unicode defines it: the property `White_Space`.
pub open spec fn is_whitespace(c: char) -> bool {
    let n = c as u32;
    ||| 0x09 <= n <= 0x0d
    ||| n == 0x20
    ||| n == 0x85
    ||| n == 0xa0
    ||| n == 0x1680
    ||| 0x2000 <= n <= 0x200a
    ||| n == 0x2028
    ||| n == 0x2029
    ||| n == 0x202f
    ||| n == 0x205f
    ||| n == 0x3000
}

/// How much of `s` is left when the white space at its end is taken off.
pub open spec fn trim_end_len(s: Seq<char>) -> nat
    decreases s.len(),
{
    if s.len() > 0 && is_whitespace(s.last()) {
        trim_end_len(s.drop_last())
    } else {
        s.len()
    }
}

/// `s` without the white space at its end.
pub open spec fn trim_end(s: Seq<char>) -> Seq<char> {
    s.take(trim_end_len(s) as int)
}

/// A class of characters that a token is made of.
#[derive(Clone, Copy, Debug, PartialEq, Eq, Structural)]
pub enum CharClass {
    /// The ten decimal digits.
    Digit,
    /// Space and tab.
    Blank,
    /// Every character but space and tab.
    Visible,
    /// The hexadecimal digits, in either case.
    Hex,
    /// Every character but the line feed.
    InLine,
}

impl CharClass {
    /// Whether `c` belongs to the class.
    pub open spec fn has(self, c: char) -> bool {
        match self {
            CharClass::Digit => is_digit(c),
            CharClass::Blank => is_blank(c),
            CharClass::Visible => !is_blank(c),
            CharClass::Hex => is_hex_digit(c),
            CharClass::InLine => c != '\n',
        }
    }

    /// Whether `c` belongs to the class.
    pub fn contains(self, c: char) -> (b: bool)
        ensures
            b == self.has(c),
    {
        match self {
            CharClass::Digit => '0' <= c && c <= '9',
            CharClass::Blank => c == ' ' || c == '\t',
            CharClass::Visible => !(c == ' ' || c == '\t'),
            CharClass::Hex => ('0' <= c && c <= '9') || ('a' <= c && c <= 'f') || ('A' <= c && c
                <= 'F'),
            CharClass::InLine => c != '\n',
        }
    }
}

/// How many characters at the start of `s` belong to `class`, up to the first that does not.
pub open spec fn run_len(s: Seq<char>, class: CharClass) -> nat
    decreases s.len(),
{
    if s.len() > 0 && class.has(s[0]) {
        1 + run_len(s.drop_first(), class)
    } else {
        0
    }
}

/// A run is no longer than the sequence, holds only characters of the class, and ends at the
/// end of the sequence or before a character outside the class.
pub proof fn lemma_run_len(s: Seq<char>, class: CharClass)
    ensures
        run_len(s, class) <= s.len(),
        forall|i: int| 0 <= i < run_len(s, class) ==> class.has(#[trigger] s[i]),
        run_len(s, class) < s.len() ==> !class.has(s[run_len(s, class) as int]),
    decreases s.len(),
{
    if s.len() > 0 && class.has(s[0]) {
        let t = s.drop_first();
        lemma_run_len(t, class);
        assert forall|i: int| 0 <= i < run_len(s, class) implies class.has(#[trigger] s[i]) by {
            if i > 0 {
                assert(s[i] == t[i - 1]);
            }
        }
        if run_len(s, class) < s.len() {
            assert(s[run_len(s, class) as int] == t[run_len(t, class) as int]);
        }
    }
}

/// The run at the start of `s` has length `n` if the first `n` characters belong to the
/// class and the one after them, if there is one, does not.
pub proof fn lemma_run_len_is(s: Seq<char>, class: CharClass, n: nat)
    requires
        n <= s.len(),
        forall|i: int| 0 <= i < n ==> class.has(#[trigger] s[i]),
        n < s.len() ==> !class.has(s[n as int]),
    ensures
        run_len(s, class) == n,
    decreases s.len(),
{
    if n > 0 {
        let t = s.drop_first();
        assert(class.has(s[0]));
        assert forall|i: int| 0 <= i < n - 1 implies class.has(#[trigger] t[i]) by {
            assert(t[i] == s[i + 1]);
        }
        if n - 1 < t.len() {
            assert(t[n - 1] == s[n as int]);
        }
        lemma_run_len_is(t, class, (n - 1) as nat);
    }
}

/// The index at which the run of `class` that starts at `from` ends.
pub fn scan(cs: &[char], from: usize, class: CharClass) -> (end: usize)
    requires
        from <= cs.len(),
    ensures
        from <= end <= cs.len(),
        end == from + run_len(cs@.skip(from as int), class),
{
    let mut end: usize = from;
    while end < cs.len() && class.contains(cs[end])
        invariant
            from <= end <= cs.len(),
            forall|i: int| from <= i < end ==> class.has(#[trigger] cs@[i]),
        decreases cs.len() - end,
    {
        end += 1;
    }
    proof {
        let t = cs@.skip(from as int);
        assert forall|i: int| 0 <= i < end - from implies class.has(#[trigger] t[i]) by {
            assert(t[i] == cs@[from + i]);
        }
        lemma_run_len_is(t, class, (end - from) as nat);
    }
    end
}

/// The characters of `s`, in order.
pub fn chars_of(s: &str) -> (v: Vec<char>)
    ensures
        v@ == s@,
{
    broadcast use vstd::string::group_string_axioms;

    let mut v: Vec<char> = Vec::new();
    let mut it = s.chars();
    loop
        invariant
            it.obeys_prophetic_iter_laws(),
            it.decrease() is Some,
            v@ + it.remaining() == s@,
        ensures
            v@ == s@,
        decreases it.decrease()->0,
    {
        match it.next() {
            Some(c) => {
                v.push(c);
            },
            None => {
                break ;
            },
        }
    }
    v
}

/// `String::push`: the string afterwards is the string before with `c` at its end.
#[verifier::external_body]
pub(crate) fn push_char(s: &mut String, c: char)
    ensures
        final(s)@ == old(s)@.push(c),
{
    s.push(c);
}

/// The string whose characters are `cs[from..to]`.
pub fn string_of(cs: &[char], from: usize, to: usize) -> (s: String)
    requires
        from <= to <= cs.len(),
    ensures
        s@ == cs@.subrange(from as int, to as int),
{
    let mut s = String::new();
    let mut i: usize = from;
    while i < to
        invariant
            from <= i <= to <= cs.len(),
            s@ == cs@.subrange(from as int, i as int),
        decreases to - i,
    {
        push_char(&mut s, cs[i]);
        i += 1;
    }
    s
}

/// Whether `cs[from..to]` is the text `other`.
pub fn same_text(cs: &[char], from: usize, to: usize, other: &str) -> (b: bool)
    requires
        from <= to <= cs.len(),
    ensures
        b == (cs@.subrange(from as int, to as int) == other@),
{
    let os = chars_of(other);
    same_chars(cs, from, to, os.as_slice())
}

/// Whether `cs[from..to]` holds the characters `os`.
pub fn same_chars(cs: &[char], from: usize, to: usize, os: &[char]) -> (b: bool)
    requires
        from <= to <= cs.len(),
    ensures
        b == (cs@.subrange(from as int, to as int) == os@),
{
    let ghost part = cs@.subrange(from as int, to as int);
    if os.len() != to - from {
        return false;
    }
    let mut i: usize = 0;
    while i < os.len()
        invariant
            from <= to <= cs.len(),
            os@.len() == to - from,
            part == cs@.subrange(from as int, to as int),
            i <= os@.len(),
            forall|j: int| 0 <= j < i ==> part[j] == os@[j],
        decreases os@.len() - i,
    {
        if cs[from + i] != os[i] {
            assert(part[i as int] == cs@[from + i]);
            assert(part[i as int] != os@[i as int]);
            return false;
        }
        i += 1;
    }
    assert(part =~= os@);
    true
}

/// The lines of `s`. A line ends at a line feed, or at the end of `s` if no line feed
/// stands there; a carriage return before the line feed belongs to the end of the line, not
/// to the line. An empty `s` has no line.
pub open spec fn lines_of(s: Seq<char>) -> Seq<Seq<char>>
    decreases s.len(),
{
    if s.len() == 0 {
        Seq::empty()
    } else {
        let n = run_len(s, CharClass::InLine) as int;
        if n < s.len() {
            seq![without_return(s.take(n))] + lines_of(s.skip(n + 1))
        } else {
            seq![s]
        }
    }
}

/// `line` without the carriage return at its end, if one stands there.
pub open spec fn without_return(line: Seq<char>) -> Seq<char> {
    if line.len() > 0 && line.last() == '\r' {
        line.drop_last()
    } else {
        line
    }
}

/// Where the lines of `cs` start and end.
pub fn split_lines(cs: &[char]) -> (lines: Vec<(usize, usize)>)
    ensures
        lines@.len() == lines_of(cs@).len(),
        forall|i: int|
            0 <= i < lines@.len() ==> (#[trigger] lines@[i]).0 <= lines@[i].1 <= cs.len()
                && cs@.subrange(lines@[i].0 as int, lines@[i].1 as int) == lines_of(cs@)[i],
{
    let mut lines: Vec<(usize, usize)> = Vec::new();
    let mut pos: usize = 0;
    let ghost mut done: Seq<Seq<char>> = Seq::empty();
    proof {
        assert(cs@.skip(0) == cs@);
    }
    while pos < cs.len()
        invariant
            pos <= cs.len(),
            lines@.len() == done.len(),
            lines_of(cs@) == done + lines_of(cs@.skip(pos as int)),
            forall|i: int|
                0 <= i < lines@.len() ==> (#[trigger] lines@[i]).0 <= lines@[i].1 <= cs.len()
                    && cs@.subrange(lines@[i].0 as int, lines@[i].1 as int) == done[i],
        decreases cs.len() - pos,
    {
        let ghost rest = cs@.skip(pos as int);
        let end = scan(cs, pos, CharClass::InLine);
        let ghost n = (end - pos) as int;
        proof {
            lemma_run_len(rest, CharClass::InLine);
            assert(rest.take(n) == cs@.subrange(pos as int, end as int));
        }
        if end < cs.len() {
            let stop = if end > pos && cs[end - 1] == '\r' {
                end - 1
            } else {
                end
            };
            proof {
                let line = rest.take(n);
                if n > 0 {
                    assert(line.last() == cs@[end - 1]);
                }
                assert(without_return(line) == cs@.subrange(pos as int, stop as int));
                assert(rest.skip(n + 1) == cs@.skip(end + 1));
                let line = cs@.subrange(pos as int, stop as int);
                assert(done + (seq![line] + lines_of(cs@.skip(end + 1))) == done.push(line)
                    + lines_of(cs@.skip(end + 1)));
                done = done.push(line);
            }
            lines.push((pos, stop));
            pos = end + 1;
        } else {
            proof {
                assert(rest.take(n) == rest);
                assert(cs@.skip(cs.len() as int).len() == 0);
                assert(lines_of(cs@.skip(cs.len() as int)) == Seq::<Seq<char>>::empty());
                assert(done + seq![rest] == done.push(rest) + Seq::<Seq<char>>::empty());
                done = done.push(rest);
            }
            lines.push((pos, end));
            pos = end;
        }
    }
    proof {
        assert(cs@.skip(pos as int).len() == 0);
        assert(done + Seq::<Seq<char>>::empty() == done);
    }
    lines
}

/// Whether `c` is white space.
pub fn whitespace(c: char) -> (b: bool)
    ensures
        b == is_whitespace(c),
{
    let n = c as u32;
    (0x09 <= n && n <= 0x0d) || n == 0x20 || n == 0x85 || n == 0xa0 || n == 0x1680 || (0x2000
        <= n && n <= 0x200a) || n == 0x2028 || n == 0x2029 || n == 0x202f || n == 0x205f || n
        == 0x3000
}

/// The length of `cs` without the white space at its end.
pub fn trimmed_end(cs: &[char]) -> (n: usize)
    ensures
        n == trim_end_len(cs@),
        n <= cs.len(),
{
    let mut n: usize = cs.len();
    proof {
        assert(cs@.take(n as int) == cs@);
    }
    while n > 0 && whitespace(cs[n - 1])
        invariant
            n <= cs.len(),
            trim_end_len(cs@) == trim_end_len(cs@.take(n as int)),
        decreases n,
    {
        proof {
            assert(cs@.take(n as int).drop_last() == cs@.take(n - 1));
        }
        n -= 1;
    }
    n
}

/// The number that the decimal digits `cs[from..to]` write, unless it exceeds 64 bits.
pub fn decimal_of(cs: &[char], from: usize, to: usize) -> (r: Option<u64>)
    requires
        from <= to <= cs.len(),
        all_digits(cs@.subrange(from as int, to as int)),
    ensures
        r is Some <==> decimal_value(cs@.subrange(from as int, to as int)) <= u64::MAX,
        r is Some ==> r->0 == decimal_value(cs@.subrange(from as int, to as int)),
{
    let ghost whole = cs@.subrange(from as int, to as int);
    let mut value: u64 = 0;
    let mut i: usize = from;
    while i < to
        invariant
            from <= i <= to <= cs.len(),
            whole == cs@.subrange(from as int, to as int),
            all_digits(whole),
            value == decimal_value(whole.take(i - from)),
        decreases to - i,
    {
        let c = cs[i];
        proof {
            assert(whole[i - from] == c);
            assert(is_digit(c));
            assert(whole.take(i - from + 1).drop_last() == whole.take(i - from));
            lemma_decimal_prefix(whole, i - from + 1);
        }
        let d: u64 = (c as u32 - '0' as u32) as u64;
        let next = match value.checked_mul(10) {
            Some(v) => v.checked_add(d),
            None => None,
        };
        match next {
            Some(v) => {
                value = v;
            },
            None => {
                return None;
            },
        }
        i += 1;
    }
    proof {
        assert(whole.take(to - from) == whole);
    }
    Some(value)
}

/// The number that the hexadecimal digits `cs[from..to]` write, of which there are four at
/// most.
pub fn hex_of(cs: &[char], from: usize, to: usize) -> (r: u16)
    requires
        from <= to <= cs.len(),
        to - from <= 4,
        forall|i: int| from <= i < to ==> is_hex_digit(#[trigger] cs@[i]),
    ensures
        r == hex_value(cs@.subrange(from as int, to as int)),
{
    let ghost whole = cs@.subrange(from as int, to as int);
    let mut value: u32 = 0;
    let mut i: usize = from;
    proof {
        reveal_with_fuel(hex_limit, 5);
    }
    while i < to
        invariant
            from <= i <= to <= cs.len(),
            to - from <= 4,
            whole == cs@.subrange(from as int, to as int),
            forall|i: int| from <= i < to ==> is_hex_digit(#[trigger] cs@[i]),
            value == hex_value(whole.take(i - from)),
            value < hex_limit((i - from) as nat),
            hex_limit(0) == 1,
            hex_limit(1) == 16,
            hex_limit(2) == 256,
            hex_limit(3) == 4096,
            hex_limit(4) == 65536,
        decreases to - i,
    {
        let c = cs[i];
        proof {
            assert(whole[i - from] == c);
            assert(whole.take(i - from + 1).drop_last() == whole.take(i - from));
        }
        let d: u32 = if '0' <= c && c <= '9' {
            c as u32 - '0' as u32
        } else if 'a' <= c && c <= 'f' {
            c as u32 - 'a' as u32 + 10
        } else {
            c as u32 - 'A' as u32 + 10
        };
        value = value * 16 + d;
        i += 1;
    }
    proof {
        assert(whole.take(to - from) == whole);
    }
    value as u16
}

/// Appends to `s` the hexadecimal digits that write `n`.
pub fn push_hex(s: &mut String, n: u16)
    ensures
        final(s)@ == old(s)@ + hex_text(n as nat),
    decreases n,
{
    if n >= 16 {
        push_hex(s, n / 16);
    }
    let d: u8 = (n % 16) as u8;
    let c: char = if d < 10 {
        (d + 48u8) as char
    } else {
        (d - 10 + 97u8) as char
    };
    assert(c == hex_char((n % 16) as nat));
    push_char(s, c);
}

/// Appends to `s` the decimal digits that write `n`.
pub fn push_decimal(s: &mut String, n: u64)
    ensures
        final(s)@ == old(s)@ + decimal_text(n as nat),
    decreases n,
{
    if n >= 10 {
        push_decimal(s, n / 10);
    }
    let d: u8 = (n % 10) as u8;
    let c: char = (d + 48u8) as char;
    assert(c == digit_char((n % 10) as nat));
    push_char(s, c);
}

} // verus!
