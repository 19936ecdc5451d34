//! Percent-encoding of query-string components.
//!
//! A search keyword is percent-encoded before it is inserted into the query
//! string, so that reserved characters in the keyword cannot corrupt the
//! query's structure. The encoding itself is done by an outside crate; its
//! result is pinned down exactly here, byte for byte over the keyword's
//! UTF-8 form.

use vstd::prelude::*;
use vstd::utf8::encode_utf8;

verus! {

/// A byte the encoding keeps verbatim: ASCII alphanumerics and `-`, `.`,
/// `_`, `~`.
pub open spec fn is_unreserved_byte(b: u8) -> bool {
    (48 <= b && b <= 57)  // '0' ..= '9'
    || (65 <= b && b <= 90)  // 'A' ..= 'Z'
    || (97 <= b && b <= 122)  // 'a' ..= 'z'
    || b == 45  // '-'
    || b == 46  // '.'
    || b == 95  // '_'
    || b == 126  // '~'
}

/// The upper-case hexadecimal digit for a value below sixteen.
pub open spec fn hex_digit(n: int) -> char
    recommends
        0 <= n < 16,
{
    if n == 0 {
        '0'
    } else if n == 1 {
        '1'
    } else if n == 2 {
        '2'
    } else if n == 3 {
        '3'
    } else if n == 4 {
        '4'
    } else if n == 5 {
        '5'
    } else if n == 6 {
        '6'
    } else if n == 7 {
        '7'
    } else if n == 8 {
        '8'
    } else if n == 9 {
        '9'
    } else if n == 10 {
        'A'
    } else if n == 11 {
        'B'
    } else if n == 12 {
        'C'
    } else if n == 13 {
        'D'
    } else if n == 14 {
        'E'
    } else {
        'F'
    }
}

/// How one byte appears in the encoded output: unreserved bytes stand for
/// themselves, every other byte becomes `%` and two hex digits.
pub open spec fn encode_byte(b: u8) -> Seq<char> {
    if is_unreserved_byte(b) {
        seq![b as char]
    } else {
        seq!['%', hex_digit(b as int / 16), hex_digit(b as int % 16)]
    }
}

/// The percent-encoding of a byte sequence, as a character sequence (the
/// output is pure ASCII).
pub open spec fn percent_encode_bytes(bs: Seq<u8>) -> Seq<char>
    decreases bs.len(),
{
    if bs.len() == 0 {
        Seq::empty()
    } else {
        encode_byte(bs[0]) + percent_encode_bytes(bs.skip(1))
    }
}

/// The percent-encoding of a string: its UTF-8 bytes, encoded byte by byte.
pub open spec fn percent_encode_str(s: Seq<char>) -> Seq<char> {
    percent_encode_bytes(encode_utf8(s))
}

/// Relies on `urlencoding::encode`: percent-encodes every byte of the
/// argument's UTF-8 form except ASCII alphanumerics and `-`, `.`, `_`, `~`,
/// each escape written as `%` and two upper-case hexadecimal digits.
#[verifier::external_body]
pub fn encode_component(s: &str) -> (r: String)
    ensures
        r@ == percent_encode_str(s@),
{
    urlencoding::encode(s).into_owned()
}

/// No character of an encoded component is a query-string separator: the
/// encoding never emits `&`, `=`, `?` or `#`, whatever the input bytes, so
/// an encoded keyword cannot corrupt the structure of the query it is
/// inserted into.
pub proof fn lemma_encoded_no_separators(bs: Seq<u8>)
    ensures
        forall|i: int|
            0 <= i < percent_encode_bytes(bs).len() ==> percent_encode_bytes(bs)[i] != '&'
                && percent_encode_bytes(bs)[i] != '=' && percent_encode_bytes(bs)[i] != '?'
                && percent_encode_bytes(bs)[i] != '#',
    decreases bs.len(),
{
    if bs.len() > 0 {
        lemma_encoded_no_separators(bs.skip(1));
        assert forall|i: int| 0 <= i < percent_encode_bytes(bs).len() implies percent_encode_bytes(
            bs,
        )[i] != '&' && percent_encode_bytes(bs)[i] != '=' && percent_encode_bytes(bs)[i] != '?'
            && percent_encode_bytes(bs)[i] != '#' by {
            let head = encode_byte(bs[0]);
            if i < head.len() {
                assert(percent_encode_bytes(bs)[i] == head[i]);
            } else {
                assert(percent_encode_bytes(bs)[i] == percent_encode_bytes(bs.skip(1))[i
                    - head.len()]);
            }
        }
    }
}

} // verus!
