//! GUIDs, as the BCD store writes them: 16 bytes in the mixed-endian layout
//! of Windows, or text in the `{xxxxxxxx-xxxx-xxxx-xxxx-xxxxxxxxxxxx}` form.

use std::str::FromStr;
use uuid::Uuid;
use vstd::prelude::*;

use crate::text::{digit_char, hex_char, is_ascii_chars};

verus! {

/// A GUID, held as its 16 bytes in the order of its textual form, most
/// significant first (the order of `uuid::Uuid::as_bytes`).
#[derive(Clone, Copy, Debug, PartialEq, Eq)]
pub struct Guid {
    pub bytes: [u8; 16],
}

/// The bytes, in textual order, of the GUID stored in `b` in the Windows
/// layout: the first three fields little-endian, the last eight bytes as
/// they stand.
pub open spec fn spec_guid_from_le(b: Seq<u8>) -> Seq<u8> {
    seq![
        b[3], b[2], b[1], b[0],
        b[5], b[4],
        b[7], b[6],
        b[8], b[9], b[10], b[11], b[12], b[13], b[14], b[15],
    ]
}

/// `uuid::Uuid::from_bytes_le`, taken back to its bytes.
///
/// Trusted: the contract claims what the source of `from_bytes_le` shows, that
/// it reverses the first four bytes and each of the next two pairs and keeps
/// the last eight.
#[verifier::external_body]
fn uuid_from_bytes_le(b: [u8; 16]) -> (r: [u8; 16])
    ensures
        r@ == spec_guid_from_le(b@),
{
    Uuid::from_bytes_le(b).into_bytes()
}

/// Reads the GUID stored in the Windows layout at `raw[at..at + 16]`.
pub fn guid_from_le_bytes(raw: &[u8], at: usize) -> (g: Guid)
    requires
        at + 16 <= raw@.len(),
    ensures
        g.bytes@ == spec_guid_from_le(raw@.subrange(at as int, at + 16)),
{
    let len = raw.len();
    let mut b: [u8; 16] = [0u8; 16];
    let mut i: usize = 0;
    while i < 16
        invariant
            i <= 16,
            at + 16 <= len,
            len == raw@.len(),
            forall|j: int| 0 <= j < i ==> b@[j] == raw@[at + j],
        decreases 16 - i,
    {
        b[i] = raw[at + i];
        i = i + 1;
    }
    assert(b@ =~= raw@.subrange(at as int, at + 16));
    Guid { bytes: uuid_from_bytes_le(b) }
}

/// The lower-case hexadecimal digit for `n` (`0 <= n < 16`).
pub open spec fn hex_lower_char(n: int) -> char {
    if n < 10 {
        digit_char(n)
    } else if n == 10 {
        'a'
    } else if n == 11 {
        'b'
    } else if n == 12 {
        'c'
    } else if n == 13 {
        'd'
    } else if n == 14 {
        'e'
    } else {
        'f'
    }
}

/// Two lower-case hexadecimal digits per byte, the high digit first.
pub open spec fn spec_hex_lower(b: Seq<u8>) -> Seq<char> {
    Seq::new(
        2 * b.len(),
        |i: int|
            hex_lower_char(
                if i % 2 == 0 {
                    b[i / 2] / 16
                } else {
                    b[i / 2] % 16
                } as int,
            ),
    )
}

/// The braced text of the GUID with bytes `b`:
/// `{xxxxxxxx-xxxx-xxxx-xxxx-xxxxxxxxxxxx}`, in lower case.
pub open spec fn spec_braced(b: Seq<u8>) -> Seq<char> {
    seq!['{'] + spec_hex_lower(b.subrange(0, 4)) + seq!['-'] + spec_hex_lower(b.subrange(4, 6))
        + seq!['-'] + spec_hex_lower(b.subrange(6, 8)) + seq!['-'] + spec_hex_lower(
        b.subrange(8, 10),
    ) + seq!['-'] + spec_hex_lower(b.subrange(10, 16)) + seq!['}']
}

proof fn lemma_hex_lower_is_ascii(b: Seq<u8>)
    ensures
        is_ascii_chars(spec_hex_lower(b)),
{
    assert forall|i: int| 0 <= i < spec_hex_lower(b).len() implies (#[trigger] spec_hex_lower(
        b,
    )[i] as int) < 128 by {
        let n = if i % 2 == 0 {
            b[i / 2] / 16
        } else {
            b[i / 2] % 16
        } as int;
        assert(spec_hex_lower(b)[i] == hex_lower_char(n));
    }
}

proof fn lemma_concat_is_ascii(a: Seq<char>, b: Seq<char>)
    requires
        is_ascii_chars(a),
        is_ascii_chars(b),
    ensures
        is_ascii_chars(a + b),
{
    assert forall|i: int| 0 <= i < (a + b).len() implies (#[trigger] (a + b)[i] as int) < 128 by {
        if i < a.len() {
            assert((a + b)[i] == a[i]);
        } else {
            assert((a + b)[i] == b[i - a.len()]);
        }
    }
}

/// The braced text of a GUID is ASCII.
pub proof fn lemma_braced_is_ascii(b: Seq<u8>)
    ensures
        is_ascii_chars(spec_braced(b)),
{
    let open_brace: Seq<char> = seq!['{'];
    let hyphen: Seq<char> = seq!['-'];
    let close_brace: Seq<char> = seq!['}'];
    assert(is_ascii_chars(open_brace));
    assert(is_ascii_chars(hyphen));
    assert(is_ascii_chars(close_brace));
    lemma_hex_lower_is_ascii(b.subrange(0, 4));
    lemma_hex_lower_is_ascii(b.subrange(4, 6));
    lemma_hex_lower_is_ascii(b.subrange(6, 8));
    lemma_hex_lower_is_ascii(b.subrange(8, 10));
    lemma_hex_lower_is_ascii(b.subrange(10, 16));
    let s1 = open_brace + spec_hex_lower(b.subrange(0, 4));
    lemma_concat_is_ascii(open_brace, spec_hex_lower(b.subrange(0, 4)));
    let s2 = s1 + hyphen;
    lemma_concat_is_ascii(s1, hyphen);
    let s3 = s2 + spec_hex_lower(b.subrange(4, 6));
    lemma_concat_is_ascii(s2, spec_hex_lower(b.subrange(4, 6)));
    let s4 = s3 + hyphen;
    lemma_concat_is_ascii(s3, hyphen);
    let s5 = s4 + spec_hex_lower(b.subrange(6, 8));
    lemma_concat_is_ascii(s4, spec_hex_lower(b.subrange(6, 8)));
    let s6 = s5 + hyphen;
    lemma_concat_is_ascii(s5, hyphen);
    let s7 = s6 + spec_hex_lower(b.subrange(8, 10));
    lemma_concat_is_ascii(s6, spec_hex_lower(b.subrange(8, 10)));
    let s8 = s7 + hyphen;
    lemma_concat_is_ascii(s7, hyphen);
    let s9 = s8 + spec_hex_lower(b.subrange(10, 16));
    lemma_concat_is_ascii(s8, spec_hex_lower(b.subrange(10, 16)));
    lemma_concat_is_ascii(s9, close_brace);
}

/// Where the two digits of byte `i` stand in the braced text: after the
/// opening brace and after a hyphen for each group boundary passed.
pub open spec fn braced_position(i: int) -> int {
    1 + 2 * i + (if i >= 4 {
        1int
    } else {
        0
    }) + (if i >= 6 {
        1int
    } else {
        0
    }) + (if i >= 8 {
        1int
    } else {
        0
    }) + (if i >= 10 {
        1int
    } else {
        0
    })
}

/// The braced text of a GUID has 38 characters: braces at both ends,
/// hyphens at 9, 14, 19 and 24, and each byte in order as two lower-case
/// hexadecimal digits, the high one first.
pub proof fn lemma_braced_layout(b: Seq<u8>)
    requires
        b.len() == 16,
    ensures
        spec_braced(b).len() == 38,
        spec_braced(b)[0] == '{',
        spec_braced(b)[37] == '}',
        spec_braced(b)[9] == '-',
        spec_braced(b)[14] == '-',
        spec_braced(b)[19] == '-',
        spec_braced(b)[24] == '-',
        forall|i: int|
            0 <= i < 16 ==> #[trigger] spec_braced(b)[braced_position(i)] == hex_char(
                (b[i] / 16) as int,
                false,
            ) && spec_braced(b)[braced_position(i) + 1] == hex_char((b[i] % 16) as int, false),
{
    let t = spec_braced(b);
    let expected = Seq::new(
        38,
        |p: int|
            if p == 0 {
                '{'
            } else if p == 37 {
                '}'
            } else if p == 9 || p == 14 || p == 19 || p == 24 {
                '-'
            } else {
                let q = p - 1 - (if p > 9 {
                    1int
                } else {
                    0
                }) - (if p > 14 {
                    1int
                } else {
                    0
                }) - (if p > 19 {
                    1int
                } else {
                    0
                }) - (if p > 24 {
                    1int
                } else {
                    0
                });
                hex_lower_char(
                    if q % 2 == 0 {
                        b[q / 2] / 16
                    } else {
                        b[q / 2] % 16
                    } as int,
                )
            },
    );
    assert(t =~= expected);
    assert forall|i: int| 0 <= i < 16 implies #[trigger] t[braced_position(i)] == hex_char(
        (b[i] / 16) as int,
        false,
    ) && t[braced_position(i) + 1] == hex_char((b[i] % 16) as int, false) by {
        assert(t[braced_position(i)] == expected[braced_position(i)]);
        assert(t[braced_position(i) + 1] == expected[braced_position(i) + 1]);
    }
}

/// `uuid::Uuid::braced`, rendered with `to_string`.
///
/// Trusted: the contract claims what the source of the `uuid` crate shows,
/// that the braced form is the hyphenated form in lower case inside braces.
#[verifier::external_body]
pub(crate) fn braced_text(g: Guid) -> (r: String)
    ensures
        r@ == spec_braced(g.bytes@),
{
    Uuid::from_bytes(g.bytes).braced().to_string()
}

/// What `uuid::Uuid::from_str` gives for the text `s`: the 16 bytes of the
/// GUID, or `None` where `s` is not a GUID in one of the forms it accepts.
pub uninterp spec fn uuid_parse(s: Seq<char>) -> Option<Seq<u8>>;

/// `uuid::Uuid::from_str`.
///
/// Trusted: the contract claims only that the result is a function of the
/// text, named `uuid_parse`; which texts are accepted is left to that name.
#[verifier::external_body]
pub(crate) fn parse_guid(s: &str) -> (r: Option<Guid>)
    ensures
        match r {
            Some(g) => uuid_parse(s@) == Some(g.bytes@),
            None => uuid_parse(s@) is None,
        },
{
    match Uuid::from_str(s) {
        Ok(u) => Some(Guid { bytes: u.into_bytes() }),
        Err(_) => None,
    }
}

} // verus!
