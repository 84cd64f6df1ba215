//! Text as the protocol and the configuration use it: decimal numbers, IPv4
//! addresses and endpoints, read from and written to bytes.

use vstd::prelude::*;
use vstd::slice::slice_subrange;
use vstd::string::StringExecFns;
use vstd::utf8::encode_utf8_decode_utf8;

verus! {

/// The character of the decimal digit `d`.
pub open spec fn digit_char(d: nat) -> char
    recommends
        d < 10,
{
    if d == 0 {
        '0'
    } else if d == 1 {
        '1'
    } else if d == 2 {
        '2'
    } else if d == 3 {
        '3'
    } else if d == 4 {
        '4'
    } else if d == 5 {
        '5'
    } else if d == 6 {
        '6'
    } else if d == 7 {
        '7'
    } else if d == 8 {
        '8'
    } else {
        '9'
    }
}

/// The decimal numeral of `n`, without sign or leading zeros.
pub open spec fn decimal_text(n: nat) -> Seq<char>
    decreases n,
{
    if n < 10 {
        seq![digit_char(n)]
    } else {
        decimal_text(n / 10).push(digit_char(n % 10))
    }
}

/// The one-character string of the decimal digit `d`.
fn digit_str(d: usize) -> (s: &'static str)
    requires
        d < 10,
    ensures
        s@ == seq![digit_char(d as nat)],
{
    proof {
        reveal_strlit("0");
        reveal_strlit("1");
        reveal_strlit("2");
        reveal_strlit("3");
        reveal_strlit("4");
        reveal_strlit("5");
        reveal_strlit("6");
        reveal_strlit("7");
        reveal_strlit("8");
        reveal_strlit("9");
    }
    let s = if d == 0 {
        "0"
    } else if d == 1 {
        "1"
    } else if d == 2 {
        "2"
    } else if d == 3 {
        "3"
    } else if d == 4 {
        "4"
    } else if d == 5 {
        "5"
    } else if d == 6 {
        "6"
    } else if d == 7 {
        "7"
    } else if d == 8 {
        "8"
    } else {
        "9"
    };
    assert(s@ =~= seq![digit_char(d as nat)]);
    s
}

/// Appends the decimal numeral of `n` to `out`.
pub fn append_decimal(out: &mut String, n: usize)
    ensures
        final(out)@ == old(out)@ + decimal_text(n as nat),
    decreases n,
{
    if n >= 10 {
        append_decimal(out, n / 10);
    }
    out.append(digit_str(n % 10));
    proof {
        if n >= 10 {
            assert(out@ =~= old(out)@ + decimal_text(n as nat));
        } else {
            assert(out@ =~= old(out)@ + decimal_text(n as nat));
        }
    }
}

/// `'+'`
pub const PLUS: u8 = 0x2B;
/// `'.'`
pub const DOT: u8 = 0x2E;
/// `'/'`
pub const SLASH: u8 = 0x2F;
/// `':'`
pub const COLON: u8 = 0x3A;

/// Whether `b` is one of the characters `'0'` to `'9'`.
pub open spec fn is_digit(b: u8) -> bool {
    0x30 <= b <= 0x39
}

/// Whether `s` holds decimal digits and nothing else.
pub open spec fn all_digits(s: Seq<u8>) -> bool {
    forall|i: int| 0 <= i < s.len() ==> is_digit(#[trigger] s[i])
}

/// The number that the decimal digits `s` denote; leading zeros count for
/// nothing.
pub open spec fn digits_value(s: Seq<u8>) -> nat
    decreases s.len(),
{
    if s.len() == 0 {
        0
    } else {
        10 * digits_value(s.drop_last()) + (s.last() - 0x30) as nat
    }
}

/// The number that `s` denotes if `s` is a non-empty run of decimal digits
/// whose value is at most `max`.
pub open spec fn number(s: Seq<u8>, max: nat) -> Option<nat> {
    if s.len() > 0 && all_digits(s) && digits_value(s) <= max {
        Some(digits_value(s))
    } else {
        None
    }
}

/// The number that `s` denotes if `s` is, after an optional `'+'`, a
/// non-empty run of decimal digits whose value is at most `max`.
pub open spec fn unsigned(s: Seq<u8>, max: nat) -> Option<nat> {
    if s.len() > 0 && s[0] == PLUS {
        number(s.drop_first(), max)
    } else {
        number(s, max)
    }
}

/// The value of `s` as one part of a dotted IPv4 address: one to three
/// digits, no zero in front of another digit, at most 255.
pub open spec fn octet(s: Seq<u8>) -> Option<u8> {
    if 1 <= s.len() <= 3 && all_digits(s) && !(s.len() > 1 && s[0] == 0x30) && digits_value(s)
        <= 255 {
        Some(digits_value(s) as u8)
    } else {
        None
    }
}

/// Where the field that starts at `from` ends: at the first `sep` at or after
/// `from`, or at the end of `s`.
pub open spec fn field_end(s: Seq<u8>, from: int, sep: u8) -> int
    decreases s.len() - from,
{
    if from >= s.len() {
        s.len() as int
    } else if s[from] == sep {
        from
    } else {
        field_end(s, from + 1, sep)
    }
}

/// The four octets of the IPv4 address that `s` denotes: four fields
/// separated by three dots, each field an octet.
pub open spec fn ipv4(s: Seq<u8>) -> Option<Seq<u8>> {
    let e1 = field_end(s, 0, DOT);
    let e2 = field_end(s, e1 + 1, DOT);
    let e3 = field_end(s, e2 + 1, DOT);
    if e1 < s.len() && e2 < s.len() && e3 < s.len() {
        let a = octet(s.subrange(0, e1));
        let b = octet(s.subrange(e1 + 1, e2));
        let c = octet(s.subrange(e2 + 1, e3));
        let d = octet(s.subrange(e3 + 1, s.len() as int));
        if a is Some && b is Some && c is Some && d is Some {
            Some(seq![a->0, b->0, c->0, d->0])
        } else {
            None
        }
    } else {
        None
    }
}

/// The address and port of the endpoint that `s` denotes: an IPv4 address, a
/// colon, and a port number of at most 65535 in decimal digits.
pub open spec fn endpoint(s: Seq<u8>) -> Option<(Seq<u8>, u16)> {
    let colon = field_end(s, 0, COLON);
    if colon < s.len() {
        let addr = ipv4(s.subrange(0, colon));
        let port = number(s.subrange(colon + 1, s.len() as int), 65535);
        if addr is Some && port is Some {
            Some((addr->0, port->0 as u16))
        } else {
            None
        }
    } else {
        None
    }
}

/// A longer run of digits never denotes a smaller number than its beginning.
pub proof fn digits_value_grows(s: Seq<u8>, n: int)
    requires
        0 <= n <= s.len(),
    ensures
        digits_value(s.take(n)) <= digits_value(s),
    decreases s.len() - n,
{
    if n == s.len() {
        assert(s.take(n) == s);
    } else {
        digits_value_grows(s.drop_last(), n);
        assert(s.drop_last().take(n) == s.take(n));
    }
}

/// Finds the first `sep` at or after `from`; gives the length of `s` if there
/// is none.
pub fn find_byte(s: &[u8], from: usize, sep: u8) -> (end: usize)
    requires
        from <= s@.len(),
    ensures
        end == field_end(s@, from as int, sep),
        from <= end <= s@.len(),
        end < s@.len() ==> s@[end as int] == sep,
{
    let mut i: usize = from;
    while i < s.len() && s[i] != sep
        invariant
            from <= i <= s@.len(),
            field_end(s@, from as int, sep) == field_end(s@, i as int, sep),
        decreases s@.len() - i,
    {
        i = i + 1;
    }
    i
}

/// Reads a non-empty run of decimal digits whose value is at most `max`.
pub fn parse_number(s: &[u8], max: u64) -> (r: Option<u64>)
    ensures
        r is Some <==> number(s@, max as nat) is Some,
        r matches Some(v) ==> number(s@, max as nat) == Some(v as nat),
{
    if s.len() == 0 {
        return None;
    }
    let mut value: u64 = 0;
    let mut i: usize = 0;
    while i < s.len()
        invariant
            i <= s@.len(),
            all_digits(s@.take(i as int)),
            value == digits_value(s@.take(i as int)),
            value <= max,
        decreases s@.len() - i,
    {
        let b: u8 = s[i];
        proof {
            let next = s@.take(i + 1);
            assert(next.drop_last() == s@.take(i as int));
            assert(next.last() == b);
            digits_value_grows(s@, i + 1);
        }
        if b < 0x30 || b > 0x39 {
            assert(!is_digit(s@[i as int]));
            return None;
        }
        let d: u64 = (b - 0x30) as u64;
        if value > max / 10 {
            return None;
        }
        let shifted: u64 = value * 10;
        if d > max || shifted > max - d {
            return None;
        }
        value = shifted + d;
        proof {
            let next = s@.take(i + 1);
            assert forall|j: int| 0 <= j < next.len() implies is_digit(#[trigger] next[j]) by {
                if j < i {
                    assert(next[j] == s@.take(i as int)[j]);
                }
            }
        }
        i = i + 1;
    }
    assert(s@.take(i as int) == s@);
    Some(value)
}

/// Reads a decimal number of at most `max` the way the integer types read
/// themselves from text: an optional `'+'`, then at least one digit.
pub fn parse_unsigned(s: &[u8], max: u64) -> (r: Option<u64>)
    ensures
        r is Some <==> unsigned(s@, max as nat) is Some,
        r matches Some(v) ==> unsigned(s@, max as nat) == Some(v as nat),
{
    if s.len() > 0 && s[0] == PLUS {
        let rest = slice_subrange(s, 1, s.len());
        assert(rest@ == s@.drop_first());
        parse_number(rest, max)
    } else {
        parse_number(s, max)
    }
}

/// Reads one part of a dotted IPv4 address.
pub fn parse_octet(s: &[u8]) -> (r: Option<u8>)
    ensures
        r == octet(s@),
{
    if s.len() < 1 || s.len() > 3 {
        return None;
    }
    if s.len() > 1 && s[0] == 0x30 {
        return None;
    }
    match parse_number(s, 255) {
        Some(v) => Some(v as u8),
        None => None,
    }
}

/// Reads a dotted IPv4 address.
pub fn parse_ipv4(s: &[u8]) -> (r: Option<[u8; 4]>)
    ensures
        r is Some <==> ipv4(s@) is Some,
        r matches Some(octets) ==> ipv4(s@) == Some(octets@),
{
    let len = s.len();
    let e1 = find_byte(s, 0, DOT);
    if e1 >= len {
        return None;
    }
    let e2 = find_byte(s, e1 + 1, DOT);
    if e2 >= len {
        return None;
    }
    let e3 = find_byte(s, e2 + 1, DOT);
    if e3 >= len {
        return None;
    }
    let a = parse_octet(slice_subrange(s, 0, e1));
    let b = parse_octet(slice_subrange(s, e1 + 1, e2));
    let c = parse_octet(slice_subrange(s, e2 + 1, e3));
    let d = parse_octet(slice_subrange(s, e3 + 1, len));
    match (a, b, c, d) {
        (Some(a), Some(b), Some(c), Some(d)) => {
            let octets: [u8; 4] = [a, b, c, d];
            assert(octets@ =~= seq![a, b, c, d]);
            Some(octets)
        },
        _ => None,
    }
}

/// Reads an endpoint of the form `a.b.c.d:port`.
pub fn parse_endpoint(s: &[u8]) -> (r: Option<([u8; 4], u16)>)
    ensures
        r is Some <==> endpoint(s@) is Some,
        r matches Some((octets, port)) ==> endpoint(s@) == Some((octets@, port)),
{
    let len = s.len();
    let colon = find_byte(s, 0, COLON);
    if colon >= len {
        return None;
    }
    let addr = parse_ipv4(slice_subrange(s, 0, colon));
    let port = parse_number(slice_subrange(s, colon + 1, len), 65535);
    match (addr, port) {
        (Some(octets), Some(port)) => Some((octets, port as u16)),
        _ => None,
    }
}

/// Tells whether two byte strings are the same.
pub fn bytes_eq(a: &[u8], b: &[u8]) -> (same: bool)
    ensures
        same == (a@ == b@),
{
    if a.len() != b.len() {
        return false;
    }
    let mut i: usize = 0;
    while i < a.len()
        invariant
            a@.len() == b@.len(),
            i <= a@.len(),
            a@.take(i as int) == b@.take(i as int),
        decreases a@.len() - i,
    {
        if a[i] != b[i] {
            return false;
        }
        assert(a@.take(i + 1) =~= a@.take(i as int).push(a@[i as int]));
        assert(b@.take(i + 1) =~= b@.take(i as int).push(b@[i as int]));
        i = i + 1;
    }
    assert(a@.take(i as int) == a@);
    assert(b@.take(i as int) == b@);
    true
}

/// Tells whether two strings are the same.
pub fn str_eq(a: &str, b: &str) -> (same: bool)
    ensures
        same == (a@ == b@),
{
    proof {
        encode_utf8_decode_utf8(a@);
        encode_utf8_decode_utf8(b@);
    }
    bytes_eq(a.as_bytes(), b.as_bytes())
}

/// Whether `s` begins with `prefix`.
pub open spec fn has_prefix(s: Seq<u8>, prefix: Seq<u8>) -> bool {
    prefix.len() <= s.len() && s.subrange(0, prefix.len() as int) == prefix
}

/// Whether `s` ends with `suffix`.
pub open spec fn has_suffix(s: Seq<u8>, suffix: Seq<u8>) -> bool {
    suffix.len() <= s.len() && s.subrange(s.len() - suffix.len(), s.len() as int) == suffix
}

/// Whether `part` stands at position `at` of `s`.
pub open spec fn occurs_at(s: Seq<u8>, part: Seq<u8>, at: int) -> bool {
    0 <= at && at + part.len() <= s.len() && s.subrange(at, at + part.len()) == part
}

/// Whether `part` stands somewhere in `s`.
pub open spec fn occurs_in(s: Seq<u8>, part: Seq<u8>) -> bool {
    exists|at: int| occurs_at(s, part, at)
}

/// Tells whether `s` begins with `prefix`.
pub fn starts_with(s: &[u8], prefix: &[u8]) -> (yes: bool)
    ensures
        yes == has_prefix(s@, prefix@),
{
    if prefix.len() > s.len() {
        return false;
    }
    bytes_eq(slice_subrange(s, 0, prefix.len()), prefix)
}

/// Tells whether `s` ends with `suffix`.
pub fn ends_with(s: &[u8], suffix: &[u8]) -> (yes: bool)
    ensures
        yes == has_suffix(s@, suffix@),
{
    if suffix.len() > s.len() {
        return false;
    }
    bytes_eq(slice_subrange(s, s.len() - suffix.len(), s.len()), suffix)
}

/// Tells whether `part` stands somewhere in `s`.
pub fn contains(s: &[u8], part: &[u8]) -> (yes: bool)
    ensures
        yes == occurs_in(s@, part@),
{
    if part.len() > s.len() {
        assert(forall|at: int| !occurs_at(s@, part@, at));
        return false;
    }
    let last: usize = s.len() - part.len();
    let mut at: usize = 0;
    loop
        invariant
            part@.len() <= s@.len() <= usize::MAX,
            last == s@.len() - part@.len(),
            at <= last,
            forall|k: int| 0 <= k < at ==> !occurs_at(s@, part@, k),
        decreases last - at,
    {
        if bytes_eq(slice_subrange(s, at, at + part.len()), part) {
            assert(occurs_at(s@, part@, at as int));
            return true;
        }
        if at == last {
            assert(forall|k: int| !occurs_at(s@, part@, k));
            return false;
        }
        at = at + 1;
    }
}

} // verus!
