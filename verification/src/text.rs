//! Text helpers: decimal rendering, hexadecimal parsing, string comparison
//! and the UTF-16 strings that device packets hold.

use vstd::prelude::*;

verus! {

// ----------------------------------------------------------------------
// Decimal rendering
// ----------------------------------------------------------------------

/// The ASCII digit for `d` (`0 <= d < 10`).
pub open spec fn digit_char(d: int) -> char {
    if d == 0 {
        '0'
    } else if d == 1 {
        '1'
    } else if d == 2 {
        '2'
    } else if d == 3 {
        '3'
    } else if d == 4 {
        '4'
    } else if d == 5 {
        '5'
    } else if d == 6 {
        '6'
    } else if d == 7 {
        '7'
    } else if d == 8 {
        '8'
    } else {
        '9'
    }
}

/// The decimal representation of `n`, without leading zeros.
pub open spec fn spec_decimal(n: nat) -> Seq<char>
    decreases n,
{
    if n < 10 {
        seq![digit_char(n as int)]
    } else {
        spec_decimal(n / 10) + seq![digit_char((n % 10) as int)]
    }
}

fn digit_str(d: u32) -> (r: &'static str)
    requires
        d < 10,
    ensures
        r@ == seq![digit_char(d as int)],
{
    if d == 0 {
        proof {
            reveal_strlit("0");
        }
        "0"
    } else if d == 1 {
        proof {
            reveal_strlit("1");
        }
        "1"
    } else if d == 2 {
        proof {
            reveal_strlit("2");
        }
        "2"
    } else if d == 3 {
        proof {
            reveal_strlit("3");
        }
        "3"
    } else if d == 4 {
        proof {
            reveal_strlit("4");
        }
        "4"
    } else if d == 5 {
        proof {
            reveal_strlit("5");
        }
        "5"
    } else if d == 6 {
        proof {
            reveal_strlit("6");
        }
        "6"
    } else if d == 7 {
        proof {
            reveal_strlit("7");
        }
        "7"
    } else if d == 8 {
        proof {
            reveal_strlit("8");
        }
        "8"
    } else {
        proof {
            reveal_strlit("9");
        }
        "9"
    }
}

/// Renders `n` in decimal, as `n.to_string()` does.
pub fn decimal_string(n: u32) -> (r: String)
    ensures
        r@ == spec_decimal(n as nat),
    decreases n,
{
    if n < 10 {
        String::from_str(digit_str(n))
    } else {
        let mut s = decimal_string(n / 10);
        s.append(digit_str(n % 10));
        s
    }
}

// ----------------------------------------------------------------------
// Laws
// ----------------------------------------------------------------------

/// The number that the decimal digits `s` denote, most significant first.
pub open spec fn decimal_value(s: Seq<char>) -> int
    decreases s.len(),
{
    if s.len() == 0 {
        0
    } else {
        decimal_value(s.drop_last()) * 10 + (s.last() as int - '0' as int)
    }
}

/// Decimal rendering gives at least one digit `0` to `9`, without a leading
/// zero unless the number is zero, and the digits denote the number.
pub proof fn lemma_decimal_round_trip(n: nat)
    ensures
        spec_decimal(n).len() > 0,
        forall|i: int| 0 <= i < spec_decimal(n).len() ==> '0' <= #[trigger] spec_decimal(n)[i] <= '9',
        n > 0 ==> spec_decimal(n)[0] != '0',
        decimal_value(spec_decimal(n)) == n,
    decreases n,
{
    let s = spec_decimal(n);
    if n >= 10 {
        lemma_decimal_round_trip(n / 10);
        assert(s.drop_last() =~= spec_decimal(n / 10));
        assert(s[0] == spec_decimal(n / 10)[0]);
        assert(s.last() as int - '0' as int == n % 10);
        assert((n / 10) * 10 + n % 10 == n);
        assert(decimal_value(s) == decimal_value(s.drop_last()) * 10 + (s.last() as int - '0' as int));
    } else {
        assert(s.drop_last() =~= Seq::<char>::empty());
        assert(s.last() as int - '0' as int == n);
        assert(decimal_value(Seq::<char>::empty()) == 0);
        assert(decimal_value(s) == decimal_value(s.drop_last()) * 10 + (s.last() as int - '0' as int));
    }
}

/// The hexadecimal digit for `d` (`0 <= d < 16`), upper or lower case.
pub open spec fn hex_char(d: int, upper: bool) -> char {
    if d < 10 {
        (48 + d) as char
    } else if upper {
        (55 + d) as char
    } else {
        (87 + d) as char
    }
}

/// The hexadecimal digits of `n`, most significant first, without leading
/// zeros.
pub open spec fn hex_digits(n: nat, upper: bool) -> Seq<char>
    decreases n,
{
    if n < 16 {
        seq![hex_char(n as int, upper)]
    } else {
        hex_digits(n / 16, upper) + seq![hex_char((n % 16) as int, upper)]
    }
}

proof fn lemma_hex_digits_value(n: nat, upper: bool)
    ensures
        hex_digits(n, upper).len() > 0,
        forall|i: int| 0 <= i < hex_digits(n, upper).len() ==> is_hex_digit(#[trigger] hex_digits(n, upper)[i]),
        spec_hex_value(hex_digits(n, upper)) == n,
    decreases n,
{
    let h = hex_digits(n, upper);
    if n < 16 {
        assert(h.drop_last() =~= Seq::<char>::empty());
        assert(hex_digit_value(h.last()) == n);
        assert(spec_hex_value(Seq::<char>::empty()) == 0);
        assert(spec_hex_value(h) == spec_hex_value(h.drop_last()) * 16 + hex_digit_value(h.last()));
    } else {
        lemma_hex_digits_value(n / 16, upper);
        assert(h.drop_last() =~= hex_digits(n / 16, upper));
        assert(hex_digit_value(h.last()) == n % 16);
        assert((n / 16) * 16 + n % 16 == n);
        assert(spec_hex_value(h) == spec_hex_value(h.drop_last()) * 16 + hex_digit_value(h.last()));
        assert forall|i: int| 0 <= i < h.len() implies is_hex_digit(#[trigger] h[i]) by {
            if i < h.len() - 1 {
                assert(h[i] == hex_digits(n / 16, upper)[i]);
            }
        }
    }
}

/// Parsing the hexadecimal digits of a `u32`, in upper or lower case, with
/// or without a leading `+`, gives the number back.
pub proof fn lemma_hex_round_trip(n: u32, upper: bool)
    ensures
        spec_parse_hex_u32(hex_digits(n as nat, upper)) == Some(n),
        spec_parse_hex_u32(seq!['+'] + hex_digits(n as nat, upper)) == Some(n),
{
    let h = hex_digits(n as nat, upper);
    lemma_hex_digits_value(n as nat, upper);
    assert(is_hex_digit(h[0]));
    assert(unsigned_digits(h) == h);
    assert((seq!['+'] + h).skip(1) =~= h);
    assert(unsigned_digits(seq!['+'] + h) == h);
}

// ----------------------------------------------------------------------
// Hexadecimal parsing
// ----------------------------------------------------------------------

/// Whether `c` is a hexadecimal digit (either case).
pub open spec fn is_hex_digit(c: char) -> bool {
    ('0' <= c && c <= '9') || ('a' <= c && c <= 'f') || ('A' <= c && c <= 'F')
}

/// The value of the hexadecimal digit `c`.
pub open spec fn hex_digit_value(c: char) -> nat {
    if '0' <= c && c <= '9' {
        (c as int - '0' as int) as nat
    } else if 'a' <= c && c <= 'f' {
        (c as int - 'a' as int + 10) as nat
    } else if 'A' <= c && c <= 'F' {
        (c as int - 'A' as int + 10) as nat
    } else {
        0
    }
}

/// The number that the hexadecimal digits `d` denote, most significant first.
pub open spec fn spec_hex_value(d: Seq<char>) -> nat
    decreases d.len(),
{
    if d.len() == 0 {
        0
    } else {
        spec_hex_value(d.drop_last()) * 16 + hex_digit_value(d.last())
    }
}

/// `s` without the `+` sign that may lead it.
pub open spec fn unsigned_digits(s: Seq<char>) -> Seq<char> {
    if s.len() > 0 && s[0] == '+' {
        s.skip(1)
    } else {
        s
    }
}

/// What `u32::from_str_radix(s, 16)` gives: an optional leading `+`, then at
/// least one hexadecimal digit, denoting a value that fits in 32 bits.
pub open spec fn spec_parse_hex_u32(s: Seq<char>) -> Option<u32> {
    let d = unsigned_digits(s);
    if d.len() == 0 {
        None
    } else if !(forall|i: int| 0 <= i < d.len() ==> is_hex_digit(#[trigger] d[i])) {
        None
    } else if spec_hex_value(d) > u32::MAX {
        None
    } else {
        Some(spec_hex_value(d) as u32)
    }
}

proof fn lemma_hex_value_prefix(d: Seq<char>, i: int)
    requires
        0 <= i <= d.len(),
    ensures
        spec_hex_value(d.take(i)) <= spec_hex_value(d),
    decreases d.len(),
{
    if i == d.len() {
        assert(d.take(i) =~= d);
    } else {
        lemma_hex_value_prefix(d.drop_last(), i);
        assert(d.drop_last().take(i) =~= d.take(i));
    }
}

fn hex_digit(c: char) -> (r: Option<u64>)
    ensures
        r is Some <==> is_hex_digit(c),
        r matches Some(v) ==> v == hex_digit_value(c) && v < 16,
{
    if '0' <= c && c <= '9' {
        Some((c as u32 - '0' as u32) as u64)
    } else if 'a' <= c && c <= 'f' {
        Some((c as u32 - 'a' as u32 + 10) as u64)
    } else if 'A' <= c && c <= 'F' {
        Some((c as u32 - 'A' as u32 + 10) as u64)
    } else {
        None
    }
}

/// Parses `s` as a hexadecimal `u32`, as `u32::from_str_radix(s, 16)` does;
/// `None` where that returns an error.
pub fn parse_hex_u32(s: &str) -> (r: Option<u32>)
    ensures
        r == spec_parse_hex_u32(s@),
{
    let n = s.unicode_len();
    let start: usize = if n > 0 && s.get_char(0) == '+' {
        1
    } else {
        0
    };
    let ghost d = unsigned_digits(s@);
    assert(d =~= s@.skip(start as int));
    if start >= n {
        return None;
    }
    let mut acc: u64 = 0;
    let mut i: usize = start;
    while i < n
        invariant
            start <= i <= n,
            n == s@.len(),
            d =~= s@.skip(start as int),
            d == unsigned_digits(s@),
            d.len() > 0,
            forall|j: int| 0 <= j < i - start ==> is_hex_digit(#[trigger] d[j]),
            acc == spec_hex_value(d.take(i - start)),
            acc <= u32::MAX,
        decreases n - i,
    {
        let c = s.get_char(i);
        assert(c == d[i - start]);
        match hex_digit(c) {
            None => {
                assert(!(forall|j: int| 0 <= j < d.len() ==> is_hex_digit(#[trigger] d[j]))) by {
                    assert(!is_hex_digit(d[i - start]));
                }
                return None;
            },
            Some(v) => {
                assert(d.take(i - start + 1).drop_last() =~= d.take(i - start));
                assert(d.take(i - start + 1).last() == c);
                let next = acc * 16 + v;
                assert(next == spec_hex_value(d.take(i - start + 1)));
                i = i + 1;
                if next > 0xffff_ffffu64 {
                    proof {
                        lemma_hex_value_prefix(d, i - start);
                    }
                    return None;
                }
                acc = next;
            },
        }
    }
    assert(d.take(n - start) =~= d);
    Some(acc as u32)
}

// ----------------------------------------------------------------------
// Upper case
// ----------------------------------------------------------------------

/// What `str::to_uppercase` gives for `s`: each character replaced by its
/// Unicode upper-case mapping.
pub uninterp spec fn unicode_uppercase(s: Seq<char>) -> Seq<char>;

/// Whether every character of `s` is ASCII.
pub open spec fn is_ascii_chars(s: Seq<char>) -> bool {
    forall|i: int| 0 <= i < s.len() ==> (#[trigger] s[i] as int) < 128
}

/// The upper-case form of an ASCII character: `a` to `z` become `A` to `Z`,
/// the others stay.
pub open spec fn ascii_upper(c: char) -> char {
    if 'a' <= c && c <= 'z' {
        (c as int - 32) as char
    } else {
        c
    }
}

/// `s` with each ASCII lower-case letter made upper case.
pub open spec fn ascii_uppercase(s: Seq<char>) -> Seq<char> {
    Seq::new(s.len(), |i: int| ascii_upper(s[i]))
}

/// `str::to_uppercase`.
///
/// Trusted: the contract claims that the result is a function of the text,
/// named `unicode_uppercase`, and that on ASCII text it maps `a` to `z` to
/// `A` to `Z` and keeps every other character, as the Unicode upper-case
/// mapping does there; beyond ASCII the mapping is left to that name.
#[verifier::external_body]
pub(crate) fn to_uppercase(s: &str) -> (r: String)
    ensures
        r@ == unicode_uppercase(s@),
        is_ascii_chars(s@) ==> r@ == ascii_uppercase(s@),
{
    s.to_uppercase()
}

// ----------------------------------------------------------------------
// Comparison
// ----------------------------------------------------------------------

/// Whether `a` and `b` hold the same characters.
pub fn str_eq(a: &str, b: &str) -> (r: bool)
    ensures
        r == (a@ == b@),
{
    let n = a.unicode_len();
    if n != b.unicode_len() {
        return false;
    }
    let mut i: usize = 0;
    while i < n
        invariant
            i <= n,
            n == a@.len(),
            n == b@.len(),
            forall|j: int| 0 <= j < i ==> a@[j] == b@[j],
        decreases n - i,
    {
        if a.get_char(i) != b.get_char(i) {
            return false;
        }
        i = i + 1;
    }
    assert(a@ =~= b@);
    true
}

// ----------------------------------------------------------------------
// UTF-16
// ----------------------------------------------------------------------

/// The 16-bit units of `b`, read little-endian from consecutive byte pairs;
/// an odd last byte is left out.
pub open spec fn spec_utf16_units(b: Seq<u8>) -> Seq<u16> {
    Seq::new(b.len() / 2, |i: int| (b[2 * i] + 256 * b[2 * i + 1]) as u16)
}

/// Decoding of UTF-16: a unit outside `0xD800..0xE000` is a character of its
/// own; a high surrogate (`0xD800..0xDC00`) followed by a low surrogate
/// (`0xDC00..0xE000`) is one character; anything else is invalid (`None`).
pub open spec fn spec_utf16_decode(u: Seq<u16>) -> Option<Seq<char>>
    decreases u.len(),
{
    if u.len() == 0 {
        Some(Seq::empty())
    } else if u[0] < 0xD800 || u[0] >= 0xE000 {
        match spec_utf16_decode(u.skip(1)) {
            Some(rest) => Some(seq![u[0] as char] + rest),
            None => None,
        }
    } else if u[0] < 0xDC00 && u.len() >= 2 && 0xDC00 <= u[1] && u[1] < 0xE000 {
        let cp = 0x10000 + (u[0] - 0xD800) * 1024 + (u[1] - 0xDC00);
        match spec_utf16_decode(u.skip(2)) {
            Some(rest) => Some(seq![cp as char] + rest),
            None => None,
        }
    } else {
        None
    }
}

/// Splits `b` into 16-bit little-endian units.
pub fn utf16_units(b: &[u8]) -> (r: Vec<u16>)
    ensures
        r@ == spec_utf16_units(b@),
{
    let len = b.len();
    let n = len / 2;
    let mut r: Vec<u16> = Vec::new();
    let mut i: usize = 0;
    while i < n
        invariant
            i <= n,
            len == b@.len(),
            n == len / 2,
            r@.len() == i,
            forall|j: int| 0 <= j < i ==> r@[j] == spec_utf16_units(b@)[j],
        decreases n - i,
    {
        let lo = b[2 * i] as u16;
        let hi = b[2 * i + 1] as u16;
        r.push(lo + 256 * hi);
        i = i + 1;
    }
    assert(r@ =~= spec_utf16_units(b@));
    r
}

/// UTF-16 units are read little-endian from consecutive byte pairs; an odd
/// last byte is left out.
pub proof fn lemma_utf16_units_little_endian(b: Seq<u8>)
    ensures
        spec_utf16_units(b).len() * 2 <= b.len() < spec_utf16_units(b).len() * 2 + 2,
        forall|i: int|
            0 <= i < spec_utf16_units(b).len() ==> #[trigger] spec_utf16_units(b)[i] as int == b[2 * i]
                + 256 * b[2 * i + 1],
{
}

/// A `u32` is never parsed from empty text, from a lone `+`, or from text
/// that starts with `-`.
pub proof fn lemma_hex_refuses_signs_and_empty(s: Seq<char>)
    ensures
        spec_parse_hex_u32(Seq::empty()) is None,
        spec_parse_hex_u32(seq!['+']) is None,
        spec_parse_hex_u32(seq!['-'] + s) is None,
{
    assert(seq!['+'].skip(1) =~= Seq::<char>::empty());
    let t = seq!['-'] + s;
    assert(t[0] == '-');
    assert(!is_hex_digit(t[0]));
}

/// Units below the surrogate range decode to the characters with the same
/// codes, one each.
pub proof fn lemma_utf16_plain_units(u: Seq<u16>)
    requires
        forall|i: int| 0 <= i < u.len() ==> #[trigger] u[i] < 0xD800,
    ensures
        spec_utf16_decode(u) == Some(Seq::new(u.len(), |i: int| u[i] as char)),
    decreases u.len(),
{
    if u.len() > 0 {
        lemma_utf16_plain_units(u.skip(1));
        assert(seq![u[0] as char] + Seq::new(u.skip(1).len(), |i: int| u.skip(1)[i] as char) =~= Seq::new(
            u.len(),
            |i: int| u[i] as char,
        ));
    } else {
        assert(Seq::<char>::empty() =~= Seq::new(u.len(), |i: int| u[i] as char));
    }
}

/// A low surrogate (`0xDC00..0xE000`) cannot start UTF-16 text, and a high
/// surrogate (`0xD800..0xDC00`) cannot end it.
pub proof fn lemma_utf16_unpaired_surrogates(u: Seq<u16>)
    ensures
        u.len() > 0 && 0xDC00 <= u[0] < 0xE000 ==> spec_utf16_decode(u) is None,
        u.len() == 1 && 0xD800 <= u[0] < 0xDC00 ==> spec_utf16_decode(u) is None,
{
}

/// Decodes UTF-16 units with `String::from_utf16`.
///
/// Trusted: the contract claims that `String::from_utf16` succeeds exactly on
/// valid UTF-16 and then yields the decoded characters, as `spec_utf16_decode`
/// writes out the UTF-16 rules.
#[verifier::external_body]
fn string_from_utf16(units: &[u16]) -> (r: Option<String>)
    ensures
        r is Some <==> spec_utf16_decode(units@) is Some,
        r matches Some(s) ==> spec_utf16_decode(units@) == Some(s@),
{
    String::from_utf16(units).ok()
}

/// Reads the UTF-16 text held little-endian in `b`; `None` where the units
/// are not valid UTF-16.
pub fn utf16_string(b: &[u8]) -> (r: Option<String>)
    ensures
        r is Some <==> spec_utf16_decode(spec_utf16_units(b@)) is Some,
        r matches Some(s) ==> spec_utf16_decode(spec_utf16_units(b@)) == Some(s@),
{
    let units = utf16_units(b);
    string_from_utf16(units.as_slice())
}

} // verus!
