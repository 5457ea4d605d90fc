//! Which texts can be sent as the value of an HTTP header.

use vstd::prelude::*;
use vstd::string::*;
use vstd::utf8::*;

verus! {

#[verifier::external_type_specification]
#[verifier::external_body]
pub struct ExHeaderValue(reqwest::header::HeaderValue);

#[verifier::external_type_specification]
#[verifier::external_body]
pub struct ExInvalidHeaderValue(reqwest::header::InvalidHeaderValue);

/// A byte that may stand in a header value: a tab, or anything from the
/// space upwards but the delete character.
pub open spec fn header_byte(b: u8) -> bool {
    (b >= 32 && b != 127) || b == 9
}

/// Every byte may stand in a header value.
pub open spec fn header_bytes(bytes: Seq<u8>) -> bool {
    forall|i: int| 0 <= i < bytes.len() ==> header_byte(#[trigger] bytes[i])
}

/// A character whose encoding may stand in a header value.
pub open spec fn header_char(c: char) -> bool {
    (c as u32 >= 32 && c as u32 != 127) || c as u32 == 9
}

/// Every character may stand in a header value.
pub open spec fn header_text(s: Seq<char>) -> bool {
    forall|i: int| 0 <= i < s.len() ==> header_char(#[trigger] s[i])
}

/// `HeaderValue::from_str`, as `reqwest::header` hands it on: it accepts a
/// text exactly when each byte of its UTF-8 encoding is a tab or is at
/// least 32 and not 127. Not proved: that equivalence.
#[verifier::external_body]
pub(crate) fn header_value(text: &str) -> (r: Result<
    reqwest::header::HeaderValue,
    reqwest::header::InvalidHeaderValue,
>)
    ensures
        r is Ok <==> header_bytes(text.spec_bytes()),
{
    reqwest::header::HeaderValue::from_str(text)
}

proof fn lemma_one_byte(c: u32)
    by (bit_vector)
    requires
        c <= 0x7F,
    ensures
        (c & 0x7F) as u8 == c,
{
}

proof fn lemma_high_bytes(c: u32)
    by (bit_vector)
    ensures
        (0xC0u8 | ((c >> 6) & 0x1F) as u8) >= 0x80u8,
        (0xE0u8 | ((c >> 12) & 0x0F) as u8) >= 0x80u8,
        (0xF0u8 | ((c >> 18) & 0x7) as u8) >= 0x80u8,
        (0x80u8 | (c & 0x3F) as u8) >= 0x80u8,
        (0x80u8 | ((c >> 6) & 0x3F) as u8) >= 0x80u8,
        (0x80u8 | ((c >> 12) & 0x3F) as u8) >= 0x80u8,
{
}

/// The bytes that encode one character may stand in a header value exactly
/// when the character may.
pub proof fn lemma_header_char_bytes(c: char)
    ensures
        header_bytes(encode_scalar(c as u32)) <==> header_char(c),
{
    let v: u32 = c as u32;
    let bytes = encode_scalar(v);
    char_is_scalar(c);
    lemma_high_bytes(v);
    if has_width_1_encoding(v) {
        lemma_one_byte(v);
        assert(bytes[0] == v);
        if header_bytes(bytes) {
            assert(header_byte(bytes[0]));
        }
    } else {
        assert(v >= 0x80);
        assert forall|i: int| 0 <= i < bytes.len() implies header_byte(#[trigger] bytes[i]) by {
            assert(bytes[i] >= 0x80u8);
        }
    }
}

/// The UTF-8 encoding of a text may stand in a header value exactly when
/// each of its characters may.
pub proof fn lemma_header_text_bytes(s: Seq<char>)
    ensures
        header_bytes(encode_utf8(s)) <==> header_text(s),
    decreases s.len(),
{
    if s.len() > 0 {
        let head = encode_scalar(s[0] as u32);
        let tail = encode_utf8(s.drop_first());
        lemma_header_char_bytes(s[0]);
        lemma_header_text_bytes(s.drop_first());
        assert(encode_utf8(s) == head + tail);
        if header_bytes(head + tail) {
            assert forall|i: int| 0 <= i < head.len() implies header_byte(#[trigger] head[i]) by {
                assert((head + tail)[i] == head[i]);
            }
            assert forall|i: int| 0 <= i < tail.len() implies header_byte(#[trigger] tail[i]) by {
                assert((head + tail)[head.len() + i] == tail[i]);
            }
            assert forall|i: int| 0 <= i < s.len() implies header_char(#[trigger] s[i]) by {
                if i > 0 {
                    assert(s.drop_first()[i - 1] == s[i]);
                }
            }
        }
        if header_text(s) {
            assert(header_char(s[0]));
            assert forall|i: int| 0 <= i < s.drop_first().len() implies header_char(
                #[trigger] s.drop_first()[i],
            ) by {
                assert(s.drop_first()[i] == s[i + 1]);
            }
        }
    }
}

} // verus!
