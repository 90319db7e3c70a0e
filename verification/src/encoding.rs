//! Percent-encoding of query values.

use vstd::prelude::*;
use vstd::utf8::encode_utf8;

verus! {

/// Bytes that stand for themselves in a query value: ASCII letters, digits and `-`, `.`, `_`, `~`.
pub open spec fn is_unreserved(b: u8) -> bool {
    ||| 0x30 <= b <= 0x39
    ||| 0x41 <= b <= 0x5a
    ||| 0x61 <= b <= 0x7a
    ||| b == 0x2d
    ||| b == 0x2e
    ||| b == 0x5f
    ||| b == 0x7e
}

/// The upper-case hexadecimal digit of a value below sixteen.
pub open spec fn upper_hex_digit(nibble: u8) -> char {
    if nibble < 10 {
        (0x30 + nibble) as u8 as char
    } else {
        (0x41 + nibble - 10) as u8 as char
    }
}

/// What one byte becomes: itself, or `%` and its two upper-case hex digits.
pub open spec fn percent_encode_byte(b: u8) -> Seq<char> {
    if is_unreserved(b) {
        seq![b as char]
    } else {
        seq!['%', upper_hex_digit((b / 16) as u8), upper_hex_digit((b % 16) as u8)]
    }
}

/// The percent-encoding of a byte string, byte by byte.
pub open spec fn percent_encode_bytes(bytes: Seq<u8>) -> Seq<char>
    decreases bytes.len(),
{
    if bytes.len() == 0 {
        Seq::empty()
    } else {
        percent_encode_byte(bytes[0]) + percent_encode_bytes(bytes.drop_first())
    }
}

/// The percent-encoding of a text: that of its UTF-8 bytes.
pub open spec fn percent_encode(text: Seq<char>) -> Seq<char> {
    percent_encode_bytes(encode_utf8(text))
}

/// A character that a percent-encoded value can hold.
pub open spec fn is_encoded_char(c: char) -> bool {
    ||| '0' <= c <= '9'
    ||| 'A' <= c <= 'Z'
    ||| 'a' <= c <= 'z'
    ||| c == '-'
    ||| c == '.'
    ||| c == '_'
    ||| c == '~'
    ||| c == '%'
}

/// Calls `urlencoding::encode`, which keeps ASCII letters, digits, `-`, `.`, `_` and `~`
/// and writes every other byte of the UTF-8 text as `%` and two upper-case hex digits.
#[verifier::external_body]
fn urlencoding_encode(text: &str) -> (encoded: String)
    ensures
        encoded@ == percent_encode(text@),
{
    urlencoding::encode(text).into_owned()
}

/// Percent-encodes a query value.
pub fn encode_component(text: &str) -> (encoded: String)
    ensures
        encoded@ == percent_encode(text@),
        forall|i: int| 0 <= i < encoded@.len() ==> is_encoded_char(#[trigger] encoded@[i]),
{
    let encoded = urlencoding_encode(text);
    proof {
        lemma_percent_encode_bytes_chars(encode_utf8(text@));
    }
    encoded
}

proof fn lemma_percent_encode_byte_chars(b: u8)
    ensures
        1 <= percent_encode_byte(b).len() <= 3,
        forall|i: int|
            0 <= i < percent_encode_byte(b).len() ==> is_encoded_char(
                #[trigger] percent_encode_byte(b)[i],
            ),
{
    if is_unreserved(b) {
        assert(is_encoded_char(b as char));
    } else {
        let hi = (b / 16) as u8;
        let lo = (b % 16) as u8;
        assert(hi < 16 && lo < 16);
        assert(is_encoded_char(upper_hex_digit(hi)));
        assert(is_encoded_char(upper_hex_digit(lo)));
    }
}

/// A percent-encoded value holds nothing but unreserved characters, `%` and hex digits:
/// no `&`, `=`, `?` or `#` that could end the value or start another parameter.
pub proof fn lemma_percent_encode_bytes_chars(bytes: Seq<u8>)
    ensures
        forall|i: int|
            0 <= i < percent_encode_bytes(bytes).len() ==> is_encoded_char(
                #[trigger] percent_encode_bytes(bytes)[i],
            ),
    decreases bytes.len(),
{
    if bytes.len() > 0 {
        let head = percent_encode_byte(bytes[0]);
        let tail = percent_encode_bytes(bytes.drop_first());
        lemma_percent_encode_byte_chars(bytes[0]);
        lemma_percent_encode_bytes_chars(bytes.drop_first());
        assert forall|i: int| 0 <= i < (head + tail).len() implies is_encoded_char(
            #[trigger] (head + tail)[i],
        ) by {
            if i < head.len() {
                assert((head + tail)[i] == head[i]);
            } else {
                assert((head + tail)[i] == tail[i - head.len()]);
            }
        }
    }
}

} // verus!
