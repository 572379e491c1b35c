//! Percent-decoding of request paths: every `%` that is followed by two
//! hexadecimal digits stands for the octet that the digits give.

use vstd::prelude::*;
use vstd::utf8::{decode_utf8, encode_scalar, encode_utf8, is_ascii_chars, valid_utf8};

verus! {

/// `octet` is one of `0-9`, `A-F`, `a-f`.
pub open spec fn is_hex_digit(octet: u8) -> bool {
    ||| 0x30 <= octet <= 0x39
    ||| 0x41 <= octet <= 0x46
    ||| 0x61 <= octet <= 0x66
}

/// The number that a hexadecimal digit stands for.
pub open spec fn hex_value(octet: u8) -> int {
    if 0x30 <= octet <= 0x39 {
        octet - 0x30
    } else if 0x41 <= octet <= 0x46 {
        octet - 0x41 + 10
    } else {
        octet - 0x61 + 10
    }
}

/// `octets` starts with an escape: a `%` and two hexadecimal digits.
pub open spec fn starts_with_escape(octets: Seq<u8>) -> bool {
    &&& octets.len() >= 3
    &&& octets[0] == 0x25
    &&& is_hex_digit(octets[1])
    &&& is_hex_digit(octets[2])
}

/// The octet that the escape at the start of `octets` stands for.
pub open spec fn escaped_octet(octets: Seq<u8>) -> u8 {
    (16 * hex_value(octets[1]) + hex_value(octets[2])) as u8
}

/// `octets` with every escape replaced by the octet it stands for, read
/// once from left to right. A `%` that no two hexadecimal digits follow
/// stands for itself, and what an escape gives is not decoded again.
pub open spec fn percent_decoded(octets: Seq<u8>) -> Seq<u8>
    decreases octets.len(),
{
    if octets.len() == 0 {
        Seq::empty()
    } else if starts_with_escape(octets) {
        seq![escaped_octet(octets)] + percent_decoded(octets.skip(3))
    } else {
        seq![octets[0]] + percent_decoded(octets.skip(1))
    }
}

/// The text that `path` decodes to: its UTF-8 octets are percent-decoded,
/// and what comes out is read as UTF-8 again. `None` where that is no text.
pub open spec fn decoded_text(path: Seq<char>) -> Option<Seq<char>> {
    let octets = percent_decoded(encode_utf8(path));
    if valid_utf8(octets) {
        Some(decode_utf8(octets))
    } else {
        None
    }
}

/// Text as plain values.
pub open spec fn text_view(text: Option<String>) -> Option<Seq<char>> {
    match text {
        Some(t) => Some(t@),
        None => None,
    }
}

/// Where decoding gives ASCII octets only, the decoded text is those
/// octets, each read as the character with its number.
pub proof fn lemma_decoded_ascii_text(path: Seq<char>, text: Seq<char>)
    requires
        is_ascii_chars(text),
        percent_decoded(encode_utf8(path)) == Seq::new(text.len(), |i: int| text[i] as u8),
    ensures
        decoded_text(path) == Some(text),
{
    vstd::utf8::is_ascii_chars_encode_utf8(text);
    assert(encode_utf8(text) == percent_decoded(encode_utf8(path)));
    vstd::utf8::encode_utf8_valid_utf8(text);
    vstd::utf8::encode_utf8_decode_utf8(text);
}

/// A path that holds no `%` decodes to itself.
pub proof fn lemma_decoded_without_escape(path: Seq<char>)
    requires
        !path.contains('%'),
    ensures
        decoded_text(path) == Some(path),
{
    lemma_encoded_percent(path);
    lemma_decoded_without_percent(encode_utf8(path));
    vstd::utf8::encode_utf8_valid_utf8(path);
    vstd::utf8::encode_utf8_decode_utf8(path);
}

/// Octets that hold no `%` decode to themselves.
proof fn lemma_decoded_without_percent(octets: Seq<u8>)
    requires
        forall|k: int| 0 <= k < octets.len() ==> octets[k] != 0x25u8,
    ensures
        percent_decoded(octets) == octets,
    decreases octets.len(),
{
    if octets.len() > 0 {
        lemma_decoded_without_percent(octets.skip(1));
        assert(seq![octets[0]] + octets.skip(1) =~= octets);
    } else {
        assert(percent_decoded(octets) =~= octets);
    }
}

/// No octet of the UTF-8 form of a scalar other than `%` is a `%`.
proof fn lemma_scalar_without_percent(scalar: u32)
    requires
        scalar != 0x25,
    ensures
        forall|k: int| 0 <= k < encode_scalar(scalar).len() ==> encode_scalar(scalar)[k] != 0x25u8,
{
    assert(scalar <= 0x7F ==> ((scalar & 0x7F) as u8) != 0x25u8) by (bit_vector)
        requires
            scalar != 0x25,
    ;
    assert((0xC0u8 | ((scalar >> 6) & 0x1F) as u8) != 0x25u8) by (bit_vector);
    assert((0xE0u8 | ((scalar >> 12) & 0x0F) as u8) != 0x25u8) by (bit_vector);
    assert((0xF0u8 | ((scalar >> 18) & 0x7) as u8) != 0x25u8) by (bit_vector);
    assert((0x80u8 | (scalar & 0x3F) as u8) != 0x25u8) by (bit_vector);
    assert((0x80u8 | ((scalar >> 6) & 0x3F) as u8) != 0x25u8) by (bit_vector);
    assert((0x80u8 | ((scalar >> 12) & 0x3F) as u8) != 0x25u8) by (bit_vector);
}

/// The UTF-8 form of a text holds a `%` only where the text holds one.
proof fn lemma_encoded_percent(text: Seq<char>)
    requires
        !text.contains('%'),
    ensures
        forall|k: int| 0 <= k < encode_utf8(text).len() ==> encode_utf8(text)[k] != 0x25u8,
    decreases text.len(),
{
    if text.len() > 0 {
        let rest = text.drop_first();
        assert(text.contains(text[0]));
        assert forall|c: char| rest.contains(c) implies text.contains(c) by {
            let k = choose|k: int| 0 <= k < rest.len() && rest[k] == c;
            assert(text[k + 1] == c);
        }
        lemma_encoded_percent(rest);
        assert(text[0] as u32 != 0x25) by {
            vstd::utf8::char_u32_cast(text[0], text[0] as u32);
            vstd::utf8::char_u32_cast('%', 0x25u32);
        }
        lemma_scalar_without_percent(text[0] as u32);
        let head = encode_scalar(text[0] as u32);
        let tail = encode_utf8(rest);
        assert(encode_utf8(text) == head + tail);
        assert forall|k: int| 0 <= k < (head + tail).len() implies (head + tail)[k] != 0x25u8 by {
            if k < head.len() {
                assert((head + tail)[k] == head[k]);
            } else {
                assert((head + tail)[k] == tail[k - head.len()]);
            }
        }
    }
}

/// The number of a hexadecimal digit, if `octet` is one.
fn hex_digit_value(octet: u8) -> (value: Option<u8>)
    ensures
        match value {
            Some(v) => is_hex_digit(octet) && v == hex_value(octet),
            None => !is_hex_digit(octet),
        },
{
    if 0x30 <= octet && octet <= 0x39 {
        Some(octet - 0x30)
    } else if 0x41 <= octet && octet <= 0x46 {
        Some(octet - 0x41 + 10)
    } else if 0x61 <= octet && octet <= 0x66 {
        Some(octet - 0x61 + 10)
    } else {
        None
    }
}

/// The octet that the escape at `at` stands for, if an escape starts there.
fn escape_at(octets: &[u8], at: usize) -> (escaped: Option<u8>)
    requires
        at < octets@.len(),
    ensures
        match escaped {
            Some(octet) => starts_with_escape(octets@.skip(at as int)) && octet == escaped_octet(
                octets@.skip(at as int),
            ),
            None => !starts_with_escape(octets@.skip(at as int)),
        },
{
    let n: usize = octets.len();
    if octets[at] != 0x25 || n - at < 3 {
        return None;
    }
    match (hex_digit_value(octets[at + 1]), hex_digit_value(octets[at + 2])) {
        (Some(high), Some(low)) => Some(16 * high + low),
        _ => None,
    }
}

/// Percent-decodes `octets`: every `%` that two hexadecimal digits follow
/// becomes, with them, the octet they give; every other octet stays.
pub fn percent_decode(octets: &[u8]) -> (decoded: Vec<u8>)
    ensures
        decoded@ == percent_decoded(octets@),
{
    let n: usize = octets.len();
    let mut decoded: Vec<u8> = Vec::new();
    let mut at: usize = 0;
    assert(octets@.skip(0) =~= octets@);
    assert(decoded@ + percent_decoded(octets@) =~= percent_decoded(octets@));
    while at < n
        invariant
            n == octets@.len(),
            at <= n,
            decoded@ + percent_decoded(octets@.skip(at as int)) == percent_decoded(octets@),
        decreases n - at,
    {
        let ghost rest = octets@.skip(at as int);
        let ghost before = decoded@;
        match escape_at(octets, at) {
            Some(octet) => {
                decoded.push(octet);
                assert(rest.skip(3) =~= octets@.skip(at + 3));
                assert(decoded@ + percent_decoded(rest.skip(3)) =~= before + percent_decoded(rest));
                at += 3;
            },
            None => {
                decoded.push(octets[at]);
                assert(rest.skip(1) =~= octets@.skip(at + 1));
                assert(decoded@ + percent_decoded(rest.skip(1)) =~= before + percent_decoded(rest));
                at += 1;
            },
        }
    }
    assert(decoded@ + percent_decoded(octets@.skip(n as int)) =~= decoded@);
    decoded
}

/// Calls `String::from_utf8`. It gives the text whose UTF-8 form the
/// octets are, and fails exactly where they are no valid UTF-8; the
/// contract says so over `valid_utf8` and `decode_utf8`.
#[verifier::external_body]
fn text_of_octets(octets: Vec<u8>) -> (text: Option<String>)
    ensures
        match text {
            Some(t) => valid_utf8(octets@) && t@ == decode_utf8(octets@),
            None => !valid_utf8(octets@),
        },
{
    String::from_utf8(octets).ok()
}

/// Percent-decodes `path`. `None` where the decoded octets are no text.
pub fn decode_path(path: &str) -> (text: Option<String>)
    ensures
        text_view(text) == decoded_text(path@),
{
    text_of_octets(percent_decode(path.as_bytes()))
}

} // verus!
