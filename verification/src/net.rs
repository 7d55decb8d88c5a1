//! Internet addresses, and the text that writes them.

use std::str::FromStr;
use vstd::prelude::*;

use crate::text::{
    all_digits, chars_of, decimal_of, decimal_text, decimal_value, hex_limit, hex_of, hex_text,
    hex_value, is_digit, is_hex_digit, lemma_decimal_text, lemma_hex_value_bound, lemma_run_len,
    lemma_run_len_is, push_char, push_decimal, push_hex, run_len, scan, CharClass,
};

verus! {

/// An IPv4 address: its four octets, first to last.
#[derive(Clone, Copy, Debug, PartialEq, Eq, Hash, Structural)]
pub struct Ipv4Addr(pub u8, pub u8, pub u8, pub u8);

/// An IPv6 address: its eight groups of sixteen bits, first to last.
#[derive(Clone, Copy, Debug, PartialEq, Eq, Hash, Structural)]
pub struct Ipv6Addr(pub u16, pub u16, pub u16, pub u16, pub u16, pub u16, pub u16, pub u16);

/// An address of either family.
#[derive(Clone, Copy, Debug, PartialEq, Eq, Hash, Structural)]
pub enum IpAddr {
    V4(Ipv4Addr),
    V6(Ipv6Addr),
}

/// An address with a port; an IPv6 one also names the scope that the address belongs to.
#[derive(Clone, Copy, Debug, PartialEq, Eq, Hash, Structural)]
#[allow(inconsistent_fields)]
pub enum SocketAddr {
    V4 { ip: Ipv4Addr, port: u16 },
    V6 { ip: Ipv6Addr, port: u16, scope_id: u32 },
}

/// What a string was to write.
#[derive(Clone, Copy, Debug, PartialEq, Eq, Structural)]
pub enum AddrKind {
    /// An address of either family.
    Ip,
    /// An IPv4 address.
    Ipv4,
    /// An IPv6 address.
    Ipv6,
    /// An address with a port.
    Socket,
}

/// A string that does not write what it was to write.
#[derive(Clone, Copy, Debug, PartialEq, Eq, Structural)]
pub struct AddrParseError(pub AddrKind);

impl AddrParseError {
    /// The error in words.
    pub open spec fn text(self) -> Seq<char> {
        match self.0 {
            AddrKind::Ip => "invalid IP address syntax"@,
            AddrKind::Ipv4 => "invalid IPv4 address syntax"@,
            AddrKind::Ipv6 => "invalid IPv6 address syntax"@,
            AddrKind::Socket => "invalid socket address syntax"@,
        }
    }

    /// The error in words.
    pub fn to_string(&self) -> (s: String)
        ensures
            s@ == self.text(),
    {
        match self.0 {
            AddrKind::Ip => "invalid IP address syntax".to_owned(),
            AddrKind::Ipv4 => "invalid IPv4 address syntax".to_owned(),
            AddrKind::Ipv6 => "invalid IPv6 address syntax".to_owned(),
            AddrKind::Socket => "invalid socket address syntax".to_owned(),
        }
    }
}

/// The octet that `s` starts with, and how many characters write it: one to three decimal
/// digits, without a leading zero unless the octet is a lone `0`, worth at most 255. All the
/// digits at the start of `s` count, so that a fourth digit leaves no octet.
#[verifier::opaque]
pub open spec fn octet_prefix(s: Seq<char>) -> Option<(u8, nat)> {
    let n = run_len(s, CharClass::Digit);
    if 1 <= n <= 3 && (n == 1 || s[0] != '0') && decimal_value(s.take(n as int)) <= 255 {
        Some((decimal_value(s.take(n as int)) as u8, n))
    } else {
        None
    }
}

/// A dot and the octet after it, with the length of both.
pub open spec fn dot_octet_prefix(s: Seq<char>) -> Option<(u8, nat)> {
    if s.len() > 0 && s[0] == '.' {
        match octet_prefix(s.skip(1)) {
            Some((v, n)) => Some((v, n + 1)),
            None => None,
        }
    } else {
        None
    }
}

/// The dotted-decimal address that `s` starts with, and how many characters write it: four
/// octets with dots between them.
#[verifier::opaque]
pub open spec fn ipv4_prefix(s: Seq<char>) -> Option<(Ipv4Addr, nat)> {
    match octet_prefix(s) {
        Some((a, n1)) => match dot_octet_prefix(s.skip(n1 as int)) {
            Some((b, n2)) => match dot_octet_prefix(s.skip((n1 + n2) as int)) {
                Some((c, n3)) => match dot_octet_prefix(s.skip((n1 + n2 + n3) as int)) {
                    Some((d, n4)) => Some((Ipv4Addr(a, b, c, d), n1 + n2 + n3 + n4)),
                    None => None,
                },
                None => None,
            },
            None => None,
        },
        None => None,
    }
}

/// The address that the whole of `s` writes in dotted decimal, if it writes one.
pub open spec fn ipv4_text(s: Seq<char>) -> Option<Ipv4Addr> {
    match ipv4_prefix(s) {
        Some((ip, n)) => if n == s.len() {
            Some(ip)
        } else {
            None
        },
        None => None,
    }
}

/// The number that the whole of `s` writes in decimal digits, leading zeros allowed, if it
/// is at most `max`.
pub open spec fn number_text(s: Seq<char>, max: nat) -> Option<nat> {
    if s.len() > 0 && all_digits(s) && decimal_value(s) <= max {
        Some(decimal_value(s))
    } else {
        None
    }
}

/// The IPv4 address and port that the whole of `s` writes, with a colon between them.
pub open spec fn socket_addr_v4_text(s: Seq<char>) -> Option<SocketAddr> {
    match ipv4_prefix(s) {
        Some((ip, n)) => if n < s.len() && s[n as int] == ':' {
            match number_text(s.skip(n + 1 as int), 0xffff) {
                Some(port) => Some(SocketAddr::V4 { ip, port: port as u16 }),
                None => None,
            }
        } else {
            None
        },
        None => None,
    }
}

/// The group that `s` starts with, and how many characters write it: one to four
/// hexadecimal digits. All the hexadecimal digits at the start of `s` count, so that a fifth
/// digit leaves no group.
#[verifier::opaque]
pub open spec fn group_prefix(s: Seq<char>) -> Option<(u16, nat)> {
    let n = run_len(s, CharClass::Hex);
    if 1 <= n <= 4 {
        Some((hex_value(s.take(n as int)) as u16, n))
    } else {
        None
    }
}

/// The group of sixteen bits that two octets make, the first one high.
pub open spec fn octet_pair(high: u8, low: u8) -> u16 {
    (high as nat * 256 + low as nat) as u16
}

/// What is read of a run of groups: the groups, how many characters write them, and
/// whether the run ended in a dotted-decimal address, which gave its last two groups.
pub struct Groups {
    pub groups: Seq<u16>,
    pub len: nat,
    pub dotted: bool,
}

/// The run of groups that `s` starts with, of `room` groups at most.
///
/// Colons stand between the groups: where `first` holds, `s` starts with a group, and else
/// with the colon before it. Where two groups or more are still to come, a dotted-decimal
/// address may stand for two groups, and ends the run. The run ends before a colon that no
/// group follows.
pub open spec fn groups_prefix(s: Seq<char>, first: bool, room: nat) -> Groups
    decreases room,
{
    let none = Groups { groups: Seq::empty(), len: 0, dotted: false };
    if room == 0 || (!first && !(s.len() > 0 && s[0] == ':')) {
        none
    } else {
        let colon: nat = if first {
            0
        } else {
            1
        };
        let t = s.skip(colon as int);
        if room >= 2 && ipv4_prefix(t) is Some {
            let (ip, n) = ipv4_prefix(t)->0;
            Groups {
                groups: seq![octet_pair(ip.0, ip.1), octet_pair(ip.2, ip.3)],
                len: colon + n,
                dotted: true,
            }
        } else {
            match group_prefix(t) {
                Some((group, n)) => {
                    let rest = groups_prefix(t.skip(n as int), false, (room - 1) as nat);
                    Groups {
                        groups: seq![group] + rest.groups,
                        len: colon + n + rest.len,
                        dotted: rest.dotted,
                    }
                },
                None => none,
            }
        }
    }
}

/// The address whose groups are `groups`, of which there are eight.
pub open spec fn ipv6_of(groups: Seq<u16>) -> Ipv6Addr
    recommends
        groups.len() == 8,
{
    Ipv6Addr(
        groups[0],
        groups[1],
        groups[2],
        groups[3],
        groups[4],
        groups[5],
        groups[6],
        groups[7],
    )
}

/// The groups `head` and `tail` with as many zero groups between them as eight take.
pub open spec fn spread(head: Seq<u16>, tail: Seq<u16>) -> Seq<u16> {
    head + Seq::new((8 - head.len() - tail.len()) as nat, |i: int| 0u16) + tail
}

/// The IPv6 address that `s` starts with, and how many characters write it: eight groups,
/// or fewer with one `::` where zero groups are left out, at least one. A dotted-decimal
/// address may stand for the last two groups.
#[verifier::opaque]
pub open spec fn ipv6_prefix(s: Seq<char>) -> Option<(Ipv6Addr, nat)> {
    let head = groups_prefix(s, true, 8);
    if head.groups.len() == 8 {
        Some((ipv6_of(head.groups), head.len))
    } else if head.dotted {
        None
    } else if head.len + 2 <= s.len() && s[head.len as int] == ':' && s[head.len as int + 1]
        == ':' {
        let tail = groups_prefix(
            s.skip(head.len as int + 2),
            true,
            (7 - head.groups.len()) as nat,
        );
        Some((ipv6_of(spread(head.groups, tail.groups)), head.len + 2 + tail.len))
    } else {
        None
    }
}

/// The address that the whole of `s` writes as an IPv6 address, if it writes one.
pub open spec fn ipv6_text(s: Seq<char>) -> Option<Ipv6Addr> {
    match ipv6_prefix(s) {
        Some((ip, n)) => if n == s.len() {
            Some(ip)
        } else {
            None
        },
        None => None,
    }
}

/// The scope that `s` starts with, and how many characters write it: a percent sign and a
/// decimal number of 32 bits. Where `s` starts with none, the scope is 0 and takes no
/// characters.
pub open spec fn scope_prefix(s: Seq<char>) -> (u32, nat) {
    let n = run_len(s.skip(1), CharClass::Digit);
    if s.len() > 0 && s[0] == '%' && n > 0 && decimal_value(s.subrange(1, 1 + n as int))
        <= 0xffff_ffff {
        (decimal_value(s.subrange(1, 1 + n as int)) as u32, 1 + n)
    } else {
        (0, 0)
    }
}

/// The IPv6 address and port that the whole of `s` writes: the address in square brackets,
/// with its scope if it names one, then a colon and the port.
pub open spec fn socket_addr_v6_text(s: Seq<char>) -> Option<SocketAddr> {
    if s.len() > 0 && s[0] == '[' {
        match ipv6_prefix(s.skip(1)) {
            Some((ip, n)) => {
                let (scope_id, m) = scope_prefix(s.skip(1 + n as int));
                let close = (1 + n + m) as int;
                if close + 1 < s.len() && s[close] == ']' && s[close + 1] == ':' {
                    match number_text(s.skip(close + 2), 0xffff) {
                        Some(port) => Some(SocketAddr::V6 { ip, port: port as u16, scope_id }),
                        None => None,
                    }
                } else {
                    None
                }
            },
            None => None,
        }
    } else {
        None
    }
}

/// The address that the whole of `s` writes, if it writes one. A string that starts with
/// a dotted-decimal address writes that address or none.
pub open spec fn ip_text(s: Seq<char>) -> Option<IpAddr> {
    match ipv4_prefix(s) {
        Some((ip, n)) => if n == s.len() {
            Some(IpAddr::V4(ip))
        } else {
            None
        },
        None => match ipv6_text(s) {
            Some(ip) => Some(IpAddr::V6(ip)),
            None => None,
        },
    }
}

/// The address and port that the whole of `s` writes, if it writes them.
pub open spec fn socket_addr_text(s: Seq<char>) -> Option<SocketAddr> {
    match socket_addr_v4_text(s) {
        Some(addr) => Some(addr),
        None => socket_addr_v6_text(s),
    }
}

/// An octet in decimal digits, before the end or before what is no digit, is read as that
/// octet.
proof fn lemma_octet_reads_back(v: u8, rest: Seq<char>)
    requires
        rest.len() == 0 || !is_digit(rest[0]),
    ensures
        octet_prefix(decimal_text(v as nat) + rest) == Some((v, decimal_text(v as nat).len())),
{
    reveal(octet_prefix);
    let digits = decimal_text(v as nat);
    let s = digits + rest;
    let n = digits.len();
    lemma_decimal_text(v as nat);
    assert forall|i: int| 0 <= i < n implies CharClass::Digit.has(#[trigger] s[i]) by {
        assert(s[i] == digits[i]);
    }
    if n < s.len() {
        assert(s[n as int] == rest[0]);
    }
    lemma_run_len_is(s, CharClass::Digit, n);
    assert(s.take(n as int) == digits);
    assert(s[0] == digits[0]);
}

/// A dot and an octet in decimal digits, before the end or before what is no digit, are
/// read as that octet.
proof fn lemma_dot_octet_reads_back(v: u8, rest: Seq<char>)
    requires
        rest.len() == 0 || !is_digit(rest[0]),
    ensures
        dot_octet_prefix(seq!['.'] + (decimal_text(v as nat) + rest)) == Some(
            (v, decimal_text(v as nat).len() + 1),
        ),
{
    let s = seq!['.'] + (decimal_text(v as nat) + rest);
    assert(s[0] == '.');
    assert(s.skip(1) == decimal_text(v as nat) + rest);
    lemma_octet_reads_back(v, rest);
}

/// Four octets, the last three after dots, make an address.
proof fn lemma_ipv4_of_octets(s: Seq<char>, ip: Ipv4Addr, n1: nat, n2: nat, n3: nat, n4: nat)
    requires
        octet_prefix(s) == Some((ip.0, n1)),
        dot_octet_prefix(s.skip(n1 as int)) == Some((ip.1, n2)),
        dot_octet_prefix(s.skip((n1 + n2) as int)) == Some((ip.2, n3)),
        dot_octet_prefix(s.skip((n1 + n2 + n3) as int)) == Some((ip.3, n4)),
    ensures
        ipv4_prefix(s) == Some((ip, n1 + n2 + n3 + n4)),
{
    reveal(ipv4_prefix);
}

/// What follows the first of two sequences in a row is the second.
proof fn lemma_skip_first(first: Seq<char>, second: Seq<char>)
    ensures
        (first + second).skip(first.len() as int) == second,
{
}

/// An address that is written in dotted decimal is read as that address.
pub proof fn law_ipv4_reads_back(ip: Ipv4Addr)
    ensures
        ipv4_text(ip.text()) == Some(ip),
{
    let dot = seq!['.'];
    let none = Seq::<char>::empty();
    let a = decimal_text(ip.0 as nat);
    let b = decimal_text(ip.1 as nat);
    let c = decimal_text(ip.2 as nat);
    let d = decimal_text(ip.3 as nat);
    let from_d = dot + (d + none);
    let from_c = dot + (c + from_d);
    let from_b = dot + (b + from_c);
    let s = a + from_b;
    assert(s == ip.text()) by {
        assert(d + none == d);
    }
    assert(from_b[0] == '.' && from_c[0] == '.' && from_d[0] == '.');
    lemma_octet_reads_back(ip.0, from_b);
    lemma_dot_octet_reads_back(ip.1, from_c);
    lemma_dot_octet_reads_back(ip.2, from_d);
    lemma_dot_octet_reads_back(ip.3, none);
    let n1 = a.len();
    let n2 = b.len() + 1;
    let n3 = c.len() + 1;
    let n4 = d.len() + 1;
    assert(s.skip(n1 as int) == from_b) by {
        lemma_skip_first(a, from_b);
    }
    assert(s.skip((n1 + n2) as int) == from_c) by {
        lemma_skip_first(a + dot + b, from_c);
        assert(s == (a + dot + b) + from_c);
    }
    assert(s.skip((n1 + n2 + n3) as int) == from_d) by {
        lemma_skip_first(a + dot + b + dot + c, from_d);
        assert(s == (a + dot + b + dot + c) + from_d);
    }
    lemma_ipv4_of_octets(s, ip, n1, n2, n3, n4);
    assert(s.len() == n1 + n2 + n3 + n4);
}

/// The octet that starts at `from`, with the index at which it ends.
fn octet_at(cs: &[char], from: usize) -> (r: Option<(u8, usize)>)
    requires
        from <= cs.len(),
    ensures
        match octet_prefix(cs@.skip(from as int)) {
            Some((v, n)) => r == Some((v, (from + n) as usize)) && from + n <= cs.len(),
            None => r is None,
        },
{
    let end = scan(cs, from, CharClass::Digit);
    let n = end - from;
    proof {
        reveal(octet_prefix);
        let t = cs@.skip(from as int);
        lemma_run_len(t, CharClass::Digit);
        assert(t.take(n as int) == cs@.subrange(from as int, end as int));
        assert forall|i: int| 0 <= i < n implies is_digit(
            #[trigger] cs@.subrange(from as int, end as int)[i],
        ) by {
            assert(cs@.subrange(from as int, end as int)[i] == t[i]);
        }
        if n > 0 {
            assert(t[0] == cs@[from as int]);
        }
    }
    if n < 1 || n > 3 {
        return None;
    }
    if n > 1 && cs[from] == '0' {
        return None;
    }
    match decimal_of(cs, from, end) {
        Some(v) => if v <= 255 {
            Some((v as u8, end))
        } else {
            None
        },
        None => None,
    }
}

/// The dot and octet that start at `from`, with the index at which they end.
fn dot_octet_at(cs: &[char], from: usize) -> (r: Option<(u8, usize)>)
    requires
        from <= cs.len(),
    ensures
        match dot_octet_prefix(cs@.skip(from as int)) {
            Some((v, n)) => r == Some((v, (from + n) as usize)) && from + n <= cs.len(),
            None => r is None,
        },
{
    if from < cs.len() && cs[from] == '.' {
        assert(cs@.skip(from as int).skip(1) == cs@.skip(from + 1));
        octet_at(cs, from + 1)
    } else {
        None
    }
}

/// The dotted-decimal address that starts at `from`, with the index at which it ends.
pub fn ipv4_at(cs: &[char], from: usize) -> (r: Option<(Ipv4Addr, usize)>)
    requires
        from <= cs.len(),
    ensures
        match ipv4_prefix(cs@.skip(from as int)) {
            Some((ip, n)) => r == Some((ip, (from + n) as usize)) && from + n <= cs.len(),
            None => r is None,
        },
{
    let ghost t = cs@.skip(from as int);
    proof {
        reveal(ipv4_prefix);
    }
    match octet_at(cs, from) {
        None => None,
        Some((a, e1)) => {
            let ghost n1 = (e1 - from) as nat;
            assert(octet_prefix(t) == Some((a, n1)));
            assert(t.skip(n1 as int) == cs@.skip(e1 as int));
            match dot_octet_at(cs, e1) {
                None => None,
                Some((b, e2)) => {
                    let ghost n2 = (e2 - e1) as nat;
                    assert(dot_octet_prefix(t.skip(n1 as int)) == Some((b, n2)));
                    assert(t.skip((n1 + n2) as int) == cs@.skip(e2 as int));
                    match dot_octet_at(cs, e2) {
                        None => None,
                        Some((c, e3)) => {
                            let ghost n3 = (e3 - e2) as nat;
                            assert(dot_octet_prefix(t.skip((n1 + n2) as int)) == Some((c, n3)));
                            assert(t.skip((n1 + n2 + n3) as int) == cs@.skip(e3 as int));
                            match dot_octet_at(cs, e3) {
                                None => None,
                                Some((d, e4)) => {
                                    let ghost n4 = (e4 - e3) as nat;
                                    assert(dot_octet_prefix(t.skip((n1 + n2 + n3) as int)) == Some(
                                        (d, n4),
                                    ));
                                    Some((Ipv4Addr(a, b, c, d), e4))
                                },
                            }
                        },
                    }
                },
            }
        },
    }
}

impl Ipv4Addr {
    /// The address with the four octets given.
    pub fn new(a: u8, b: u8, c: u8, d: u8) -> (ip: Ipv4Addr)
        ensures
            ip == Ipv4Addr(a, b, c, d),
    {
        Ipv4Addr(a, b, c, d)
    }

    /// The address `0.0.0.0`, which stands for no address in particular.
    pub fn unspecified() -> (ip: Ipv4Addr)
        ensures
            ip == Ipv4Addr(0, 0, 0, 0),
    {
        Ipv4Addr(0, 0, 0, 0)
    }

    /// The four octets, first to last.
    pub fn octets(&self) -> (o: [u8; 4])
        ensures
            o@ == seq![self.0, self.1, self.2, self.3],
    {
        [self.0, self.1, self.2, self.3]
    }

    /// The text that writes the address: four decimal numbers with dots between them.
    pub open spec fn text(self) -> Seq<char> {
        decimal_text(self.0 as nat) + seq!['.'] + decimal_text(self.1 as nat) + seq!['.']
            + decimal_text(self.2 as nat) + seq!['.'] + decimal_text(self.3 as nat)
    }

    /// Reads an address in dotted decimal; the whole of `cs` has to write it.
    pub fn from_chars(cs: &[char]) -> (r: Result<Ipv4Addr, AddrParseError>)
        ensures
            match r {
                Ok(ip) => ipv4_text(cs@) == Some(ip),
                Err(e) => ipv4_text(cs@) is None && e == AddrParseError(AddrKind::Ipv4),
            },
    {
        assert(cs@.skip(0) == cs@);
        match ipv4_at(cs, 0) {
            Some((ip, end)) => if end == cs.len() {
                Ok(ip)
            } else {
                Err(AddrParseError(AddrKind::Ipv4))
            },
            None => Err(AddrParseError(AddrKind::Ipv4)),
        }
    }

    /// Reads an address in dotted decimal; the whole of `s` has to write it.
    pub fn parse(s: &str) -> (r: Result<Ipv4Addr, AddrParseError>)
        ensures
            match r {
                Ok(ip) => ipv4_text(s@) == Some(ip),
                Err(e) => ipv4_text(s@) is None && e == AddrParseError(AddrKind::Ipv4),
            },
    {
        let cs = chars_of(s);
        Ipv4Addr::from_chars(cs.as_slice())
    }

    /// Appends to `out` the text that writes the address.
    pub fn write_to(&self, out: &mut String)
        ensures
            final(out)@ == old(out)@ + self.text(),
    {
        push_decimal(out, self.0 as u64);
        push_char(out, '.');
        push_decimal(out, self.1 as u64);
        push_char(out, '.');
        push_decimal(out, self.2 as u64);
        push_char(out, '.');
        push_decimal(out, self.3 as u64);
    }

    /// The address in dotted decimal.
    pub fn to_string(&self) -> (s: String)
        ensures
            s@ == self.text(),
    {
        let mut s = String::new();
        self.write_to(&mut s);
        s
    }
}

/// The number that `cs[from..]` writes in decimal digits, if it is at most `max`.
fn number_at(cs: &[char], from: usize, max: u64) -> (r: Option<u64>)
    requires
        from <= cs.len(),
    ensures
        match number_text(cs@.skip(from as int), max as nat) {
            Some(v) => r == Some(v as u64),
            None => r is None,
        },
{
    let end = scan(cs, from, CharClass::Digit);
    proof {
        let t = cs@.skip(from as int);
        lemma_run_len(t, CharClass::Digit);
        assert(t == cs@.subrange(from as int, cs.len() as int));
        if end < cs.len() {
            assert(!is_digit(t[end - from]));
        }
    }
    if end == from || end < cs.len() {
        return None;
    }
    match decimal_of(cs, from, end) {
        Some(v) => if v <= max {
            Some(v)
        } else {
            None
        },
        None => None,
    }
}

/// The group that starts at `from`, with the index at which it ends.
fn group_at(cs: &[char], from: usize) -> (r: Option<(u16, usize)>)
    requires
        from <= cs.len(),
    ensures
        match group_prefix(cs@.skip(from as int)) {
            Some((v, n)) => r == Some((v, (from + n) as usize)) && from + n <= cs.len(),
            None => r is None,
        },
{
    let end = scan(cs, from, CharClass::Hex);
    let n = end - from;
    proof {
        reveal(group_prefix);
        let t = cs@.skip(from as int);
        lemma_run_len(t, CharClass::Hex);
        assert(t.take(n as int) == cs@.subrange(from as int, end as int));
        assert forall|i: int| from <= i < end implies is_hex_digit(
            #[trigger] cs@[i],
        ) by {
            assert(cs@[i] == t[i - from]);
        }
        if 1 <= n <= 4 {
            lemma_hex_value_bound(t.take(n as int));
            reveal_with_fuel(hex_limit, 5);
        }
    }
    if n < 1 || n > 4 {
        return None;
    }
    Some((hex_of(cs, from, end), end))
}

/// The two groups that the four octets of `ip` make.
fn groups_of_ipv4(ip: Ipv4Addr) -> (groups: Vec<u16>)
    ensures
        groups@ == seq![octet_pair(ip.0, ip.1), octet_pair(ip.2, ip.3)],
{
    let mut groups: Vec<u16> = Vec::new();
    groups.push((ip.0 as u16) * 256 + ip.1 as u16);
    groups.push((ip.2 as u16) * 256 + ip.3 as u16);
    groups
}

/// The run of groups that starts at `from`, of `room` groups at most: the groups, the
/// index at which the run ends, and whether it ended in a dotted-decimal address.
fn groups_at(cs: &[char], from: usize, first: bool, room: usize) -> (r: (Vec<u16>, usize, bool))
    requires
        from <= cs.len(),
    ensures
        r.0@ == groups_prefix(cs@.skip(from as int), first, room as nat).groups,
        r.1 == from + groups_prefix(cs@.skip(from as int), first, room as nat).len,
        r.2 == groups_prefix(cs@.skip(from as int), first, room as nat).dotted,
        r.1 <= cs.len(),
        r.0@.len() <= room,
    decreases room,
{
    let ghost t = cs@.skip(from as int);
    if room == 0 || (!first && !(from < cs.len() && cs[from] == ':')) {
        assert(!first ==> (t.len() > 0 <==> from < cs.len()));
        assert(from < cs.len() ==> t[0] == cs@[from as int]);
        return (Vec::new(), from, false);
    }
    let start = if first {
        from
    } else {
        from + 1
    };
    assert(t.skip(start - from) == cs@.skip(start as int));
    let dotted = if room >= 2 {
        ipv4_at(cs, start)
    } else {
        None
    };
    match dotted {
        Some((ip, end)) => (groups_of_ipv4(ip), end, true),
        None => match group_at(cs, start) {
            Some((group, end)) => {
                assert(cs@.skip(start as int).skip(end - start) == cs@.skip(end as int));
                let (mut groups, last, dotted) = groups_at(cs, end, false, room - 1);
                let ghost rest = groups@;
                groups.insert(0, group);
                assert(groups@ == seq![group] + rest);
                (groups, last, dotted)
            },
            None => (Vec::new(), from, false),
        },
    }
}

/// The address whose groups are `groups`.
fn ipv6_from(groups: &Vec<u16>) -> (ip: Ipv6Addr)
    requires
        groups@.len() == 8,
    ensures
        ip == ipv6_of(groups@),
{
    Ipv6Addr(
        groups[0],
        groups[1],
        groups[2],
        groups[3],
        groups[4],
        groups[5],
        groups[6],
        groups[7],
    )
}

/// The IPv6 address that starts at `from`, with the index at which it ends.
pub fn ipv6_at(cs: &[char], from: usize) -> (r: Option<(Ipv6Addr, usize)>)
    requires
        from <= cs.len(),
    ensures
        match ipv6_prefix(cs@.skip(from as int)) {
            Some((ip, n)) => r == Some((ip, (from + n) as usize)) && from + n <= cs.len(),
            None => r is None,
        },
{
    let ghost t = cs@.skip(from as int);
    proof {
        reveal(ipv6_prefix);
    }
    let (head, mid, dotted) = groups_at(cs, from, true, 8);
    if head.len() == 8 {
        return Some((ipv6_from(&head), mid));
    }
    if dotted {
        return None;
    }
    if cs.len() - mid < 2 || cs[mid] != ':' || cs[mid + 1] != ':' {
        return None;
    }
    assert(t[mid - from] == cs@[mid as int]);
    assert(t[mid - from + 1] == cs@[mid + 1]);
    assert(t.skip(mid - from + 2) == cs@.skip(mid + 2));
    let (tail, end, _) = groups_at(cs, mid + 2, true, 7 - head.len());
    let ghost head_groups = head@;
    let mut groups = head;
    while groups.len() + tail.len() < 8
        invariant
            head_groups.len() <= groups@.len(),
            groups@.len() + tail@.len() <= 8,
            groups@ == head_groups + Seq::new(
                (groups@.len() - head_groups.len()) as nat,
                |i: int| 0u16,
            ),
        decreases 8 - groups@.len(),
    {
        groups.push(0);
    }
    let mut i: usize = 0;
    let ghost padded = groups@;
    while i < tail.len()
        invariant
            i <= tail@.len(),
            padded.len() + tail@.len() == 8,
            groups@ == padded + tail@.take(i as int),
        decreases tail@.len() - i,
    {
        groups.push(tail[i]);
        assert(tail@.take(i + 1) == tail@.take(i as int).push(tail@[i as int]));
        i += 1;
    }
    assert(tail@.take(tail@.len() as int) == tail@);
    assert(groups@ == spread(head_groups, tail@));
    Some((ipv6_from(&groups), end))
}

/// The scope that starts at `from`, with the index at which it ends.
fn scope_at(cs: &[char], from: usize) -> (r: (u32, usize))
    requires
        from <= cs.len(),
    ensures
        r.0 == scope_prefix(cs@.skip(from as int)).0,
        r.1 == from + scope_prefix(cs@.skip(from as int)).1,
        r.1 <= cs.len(),
{
    let ghost t = cs@.skip(from as int);
    if from < cs.len() && cs[from] == '%' {
        let end = scan(cs, from + 1, CharClass::Digit);
        proof {
            assert(t.skip(1) == cs@.skip(from + 1));
            lemma_run_len(t.skip(1), CharClass::Digit);
            assert(t.subrange(1, 1 + (end - from - 1)) == cs@.subrange(from + 1, end as int));
            assert forall|i: int| 0 <= i < end - from - 1 implies is_digit(
                #[trigger] cs@.subrange(from + 1, end as int)[i],
            ) by {
                assert(cs@.subrange(from + 1, end as int)[i] == t.skip(1)[i]);
            }
        }
        if end == from + 1 {
            return (0, from);
        }
        match decimal_of(cs, from + 1, end) {
            Some(v) => if v <= 0xffff_ffff {
                (v as u32, end)
            } else {
                (0, from)
            },
            None => (0, from),
        }
    } else {
        (0, from)
    }
}

/// The groups of an address, first to last.
pub open spec fn groups_of(ip: Ipv6Addr) -> Seq<u16> {
    seq![ip.0, ip.1, ip.2, ip.3, ip.4, ip.5, ip.6, ip.7]
}

/// The text that writes `groups`: each in hexadecimal, with colons between them.
pub open spec fn groups_text(groups: Seq<u16>) -> Seq<char>
    decreases groups.len(),
{
    if groups.len() == 0 {
        Seq::empty()
    } else if groups.len() == 1 {
        hex_text(groups[0] as nat)
    } else {
        groups_text(groups.drop_last()) + seq![':'] + hex_text(groups.last() as nat)
    }
}

/// How many zero groups stand in a row from index `i` on.
pub open spec fn zeros_from(groups: Seq<u16>, i: int) -> nat
    decreases groups.len() - i,
{
    if 0 <= i < groups.len() && groups[i] == 0 {
        1 + zeros_from(groups, i + 1)
    } else {
        0
    }
}

/// Where the longest row of zero groups that starts at index `i` or later starts, and how
/// long it is; of two rows of one length, the one that comes first. Without a zero group the
/// length is 0.
pub open spec fn longest_zeros(groups: Seq<u16>, i: int) -> (int, nat)
    decreases groups.len() - i,
{
    if 0 <= i < groups.len() {
        let later = longest_zeros(groups, i + 1);
        if zeros_from(groups, i) > 0 && zeros_from(groups, i) >= later.1 {
            (i, zeros_from(groups, i))
        } else {
            later
        }
    } else {
        (0, 0)
    }
}

/// Whether the address stands for an IPv4 one: five zero groups, then one of all ones.
pub open spec fn is_ipv4_mapped(ip: Ipv6Addr) -> bool {
    ip.0 == 0 && ip.1 == 0 && ip.2 == 0 && ip.3 == 0 && ip.4 == 0 && ip.5 == 0xffff
}

/// The IPv4 address that the last two groups of `ip` hold.
pub open spec fn embedded_ipv4(ip: Ipv6Addr) -> Ipv4Addr {
    Ipv4Addr((ip.6 / 256) as u8, (ip.6 % 256) as u8, (ip.7 / 256) as u8, (ip.7 % 256) as u8)
}

/// The text that writes an IPv6 address. An address that stands for an IPv4 one is `::ffff:`
/// and that address in dotted decimal. Any other is its groups in hexadecimal with colons
/// between them, with `::` in place of the longest row of two zero groups or more.
pub open spec fn ipv6_written(ip: Ipv6Addr) -> Seq<char> {
    let groups = groups_of(ip);
    let (start, len) = longest_zeros(groups, 0);
    if is_ipv4_mapped(ip) {
        seq![':', ':', 'f', 'f', 'f', 'f', ':'] + embedded_ipv4(ip).text()
    } else if len > 1 {
        groups_text(groups.take(start)) + seq![':', ':'] + groups_text(groups.skip(start + len))
    } else {
        groups_text(groups)
    }
}

/// Appends to `out` the text that writes `groups[from..to]`.
fn push_groups(out: &mut String, groups: &[u16; 8], from: usize, to: usize)
    requires
        from <= to <= 8,
    ensures
        final(out)@ == old(out)@ + groups_text(groups@.subrange(from as int, to as int)),
{
    let mut i: usize = from;
    assert(groups@.subrange(from as int, from as int) == Seq::<u16>::empty());
    while i < to
        invariant
            from <= i <= to <= 8,
            out@ == old(out)@ + groups_text(groups@.subrange(from as int, i as int)),
        decreases to - i,
    {
        let ghost before = groups@.subrange(from as int, i as int);
        let ghost after = groups@.subrange(from as int, i + 1);
        assert(after.drop_last() == before);
        assert(after.last() == groups@[i as int]);
        if i > from {
            push_char(out, ':');
        }
        push_hex(out, groups[i]);
        i += 1;
    }
}

/// How many zero groups stand in a row from index `i` on.
fn count_zeros(groups: &[u16; 8], i: usize) -> (n: usize)
    requires
        i <= 8,
    ensures
        n == zeros_from(groups@, i as int),
        i + n <= 8,
    decreases 8 - i,
{
    if i < 8 && groups[i] == 0 {
        1 + count_zeros(groups, i + 1)
    } else {
        0
    }
}

/// Where the longest row of zero groups that starts at index `i` or later starts, and how
/// long it is.
fn find_zeros(groups: &[u16; 8], i: usize) -> (r: (usize, usize))
    requires
        i <= 8,
    ensures
        (r.0 as int, r.1 as nat) == longest_zeros(groups@, i as int),
        r.0 + r.1 <= 8,
    decreases 8 - i,
{
    if i < 8 {
        let later = find_zeros(groups, i + 1);
        let here = count_zeros(groups, i);
        if here > 0 && here >= later.1 {
            (i, here)
        } else {
            later
        }
    } else {
        (0, 0)
    }
}

impl Ipv6Addr {
    /// The text that writes the address.
    pub open spec fn text(self) -> Seq<char> {
        ipv6_written(self)
    }

    /// Appends to `out` the text that writes the address.
    pub fn write_to(&self, out: &mut String)
        ensures
            final(out)@ == old(out)@ + self.text(),
    {
        let groups = self.segments();
        assert(groups@ == groups_of(*self));
        if self.0 == 0 && self.1 == 0 && self.2 == 0 && self.3 == 0 && self.4 == 0 && self.5
            == 0xffff {
            push_char(out, ':');
            push_char(out, ':');
            push_char(out, 'f');
            push_char(out, 'f');
            push_char(out, 'f');
            push_char(out, 'f');
            push_char(out, ':');
            assert(out@ == old(out)@ + seq![':', ':', 'f', 'f', 'f', 'f', ':']);
            let ip = Ipv4Addr(
                (self.6 / 256) as u8,
                (self.6 % 256) as u8,
                (self.7 / 256) as u8,
                (self.7 % 256) as u8,
            );
            ip.write_to(out);
            return ;
        }
        let (start, len) = find_zeros(&groups, 0);
        if len > 1 {
            assert(groups@.take(start as int) == groups@.subrange(0, start as int));
            assert(groups@.skip(start + len) == groups@.subrange(start + len, 8));
            push_groups(out, &groups, 0, start);
            push_char(out, ':');
            push_char(out, ':');
            push_groups(out, &groups, start + len, 8);
        } else {
            assert(groups@.subrange(0, 8) == groups@);
            push_groups(out, &groups, 0, 8);
        }
    }

    /// The address as text.
    pub fn to_string(&self) -> (s: String)
        ensures
            s@ == self.text(),
    {
        let mut s = String::new();
        self.write_to(&mut s);
        s
    }

    /// The address with the eight groups given.
    pub fn new(a: u16, b: u16, c: u16, d: u16, e: u16, f: u16, g: u16, h: u16) -> (ip: Ipv6Addr)
        ensures
            ip == Ipv6Addr(a, b, c, d, e, f, g, h),
    {
        Ipv6Addr(a, b, c, d, e, f, g, h)
    }

    /// The eight groups, first to last.
    pub fn segments(&self) -> (groups: [u16; 8])
        ensures
            groups@ == seq![self.0, self.1, self.2, self.3, self.4, self.5, self.6, self.7],
    {
        [self.0, self.1, self.2, self.3, self.4, self.5, self.6, self.7]
    }

    /// Reads an IPv6 address; the whole of `cs` has to write it.
    pub fn from_chars(cs: &[char]) -> (r: Result<Ipv6Addr, AddrParseError>)
        ensures
            match r {
                Ok(ip) => ipv6_text(cs@) == Some(ip),
                Err(e) => ipv6_text(cs@) is None && e == AddrParseError(AddrKind::Ipv6),
            },
    {
        assert(cs@.skip(0) == cs@);
        match ipv6_at(cs, 0) {
            Some((ip, end)) => if end == cs.len() {
                Ok(ip)
            } else {
                Err(AddrParseError(AddrKind::Ipv6))
            },
            None => Err(AddrParseError(AddrKind::Ipv6)),
        }
    }

    /// Reads an IPv6 address; the whole of `s` has to write it.
    pub fn parse(s: &str) -> (r: Result<Ipv6Addr, AddrParseError>)
        ensures
            match r {
                Ok(ip) => ipv6_text(s@) == Some(ip),
                Err(e) => ipv6_text(s@) is None && e == AddrParseError(AddrKind::Ipv6),
            },
    {
        let cs = chars_of(s);
        Ipv6Addr::from_chars(cs.as_slice())
    }
}

impl FromStr for Ipv6Addr {
    type Err = AddrParseError;

    fn from_str(s: &str) -> (r: Result<Ipv6Addr, AddrParseError>)
        ensures
            match r {
                Ok(ip) => ipv6_text(s@) == Some(ip),
                Err(e) => ipv6_text(s@) is None && e == AddrParseError(AddrKind::Ipv6),
            },
    {
        Ipv6Addr::parse(s)
    }
}

impl IpAddr {
    /// Reads an address of either family; the whole of `s` has to write it.
    pub fn parse(s: &str) -> (r: Result<IpAddr, AddrParseError>)
        ensures
            match r {
                Ok(ip) => ip_text(s@) == Some(ip),
                Err(e) => ip_text(s@) is None && e == AddrParseError(AddrKind::Ip),
            },
    {
        let cs = chars_of(s);
        assert(cs@.skip(0) == cs@);
        match ipv4_at(cs.as_slice(), 0) {
            Some((ip, end)) => if end == cs.len() {
                Ok(IpAddr::V4(ip))
            } else {
                Err(AddrParseError(AddrKind::Ip))
            },
            None => match ipv6_at(cs.as_slice(), 0) {
                Some((ip, end)) => if end == cs.len() {
                    Ok(IpAddr::V6(ip))
                } else {
                    Err(AddrParseError(AddrKind::Ip))
                },
                None => Err(AddrParseError(AddrKind::Ip)),
            },
        }
    }
}

/// The address `ip` with the port `port`, in no scope in particular.
pub open spec fn socket_addr(ip: IpAddr, port: u16) -> SocketAddr {
    match ip {
        IpAddr::V4(ip) => SocketAddr::V4 { ip, port },
        IpAddr::V6(ip) => SocketAddr::V6 { ip, port, scope_id: 0 },
    }
}

impl SocketAddr {
    /// The address `ip` with the port `port`, in no scope in particular.
    pub fn new(ip: IpAddr, port: u16) -> (addr: SocketAddr)
        ensures
            addr == socket_addr(ip, port),
    {
        match ip {
            IpAddr::V4(ip) => SocketAddr::V4 { ip, port },
            IpAddr::V6(ip) => SocketAddr::V6 { ip, port, scope_id: 0 },
        }
    }

    /// Reads an address with its port; the whole of `s` has to write them.
    pub fn parse(s: &str) -> (r: Result<SocketAddr, AddrParseError>)
        ensures
            match r {
                Ok(addr) => socket_addr_text(s@) == Some(addr),
                Err(e) => socket_addr_text(s@) is None && e == AddrParseError(AddrKind::Socket),
            },
    {
        let chars = chars_of(s);
        let cs = chars.as_slice();
        assert(cs@.skip(0) == cs@);
        match ipv4_at(cs, 0) {
            Some((ip, end)) => {
                if end < cs.len() && cs[end] == ':' {
                    match number_at(cs, end + 1, 0xffff) {
                        Some(port) => {
                            return Ok(SocketAddr::V4 { ip, port: port as u16 });
                        },
                        None => {},
                    }
                }
            },
            None => {},
        }
        if cs.len() == 0 || cs[0] != '[' {
            return Err(AddrParseError(AddrKind::Socket));
        }
        match ipv6_at(cs, 1) {
            Some((ip, end)) => {
                assert(cs@.skip(1).skip(end - 1) == cs@.skip(end as int));
                let (scope_id, close) = scope_at(cs, end);
                if cs.len() - close >= 2 && cs[close] == ']' && cs[close + 1] == ':' {
                    match number_at(cs, close + 2, 0xffff) {
                        Some(port) => Ok(SocketAddr::V6 { ip, port: port as u16, scope_id }),
                        None => Err(AddrParseError(AddrKind::Socket)),
                    }
                } else {
                    Err(AddrParseError(AddrKind::Socket))
                }
            },
            None => Err(AddrParseError(AddrKind::Socket)),
        }
    }
}

impl FromStr for IpAddr {
    type Err = AddrParseError;

    fn from_str(s: &str) -> (r: Result<IpAddr, AddrParseError>)
        ensures
            match r {
                Ok(ip) => ip_text(s@) == Some(ip),
                Err(e) => ip_text(s@) is None && e == AddrParseError(AddrKind::Ip),
            },
    {
        IpAddr::parse(s)
    }
}

impl FromStr for SocketAddr {
    type Err = AddrParseError;

    fn from_str(s: &str) -> (r: Result<SocketAddr, AddrParseError>)
        ensures
            match r {
                Ok(addr) => socket_addr_text(s@) == Some(addr),
                Err(e) => socket_addr_text(s@) is None && e == AddrParseError(AddrKind::Socket),
            },
    {
        SocketAddr::parse(s)
    }
}

impl FromStr for Ipv4Addr {
    type Err = AddrParseError;

    fn from_str(s: &str) -> (r: Result<Ipv4Addr, AddrParseError>)
        ensures
            match r {
                Ok(ip) => ipv4_text(s@) == Some(ip),
                Err(e) => ipv4_text(s@) is None && e == AddrParseError(AddrKind::Ipv4),
            },
    {
        Ipv4Addr::parse(s)
    }
}

} // verus!
