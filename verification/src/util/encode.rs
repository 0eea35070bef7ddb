//! Percent-encoding of paths for use in links.

use crate::util::text::push_char;
use vstd::prelude::*;
use vstd::string::StringExecFns;
use vstd::utf8::{
    decode_utf8,
    encode_utf8,
    encode_utf8_decode_utf8,
    encode_utf8_valid_utf8,
    is_ascii_chars,
    is_ascii_chars_concat,
    is_ascii_chars_encode_utf8,
    valid_utf8,
};

verus! {

/// The upper-case hexadecimal digit for a value below 16.
pub open spec fn hex_digit(value: u8) -> char {
    if value < 10 {
        ((48 + value) as u8) as char
    } else {
        ((55 + value) as u8) as char
    }
}

/// Whether a byte of a path stands for itself in a link: the ASCII letters
/// and digits, and `/`, `-`, `_`, `.` and `+`.
pub open spec fn kept_byte(byte: u8) -> bool {
    ||| 0x30 <= byte <= 0x39
    ||| 0x41 <= byte <= 0x5a
    ||| 0x61 <= byte <= 0x7a
    ||| byte == 0x2f
    ||| byte == 0x2d
    ||| byte == 0x5f
    ||| byte == 0x2e
    ||| byte == 0x2b
}

/// The escape of a byte: `%` and its two upper-case hexadecimal digits.
pub open spec fn escaped_byte(byte: u8) -> Seq<char> {
    seq!['%', hex_digit(byte / 16), hex_digit(byte % 16)]
}

/// What a byte becomes in a link: itself if it is kept, else its escape.
pub open spec fn encoded_byte(byte: u8) -> Seq<char> {
    if kept_byte(byte) {
        seq![byte as char]
    } else {
        escaped_byte(byte)
    }
}

/// The bytes encoded one after the other.
pub open spec fn encoded_bytes(bytes: Seq<u8>) -> Seq<char>
    decreases bytes.len(),
{
    if bytes.len() == 0 {
        Seq::empty()
    } else {
        encoded_byte(bytes.first()) + encoded_bytes(bytes.drop_first())
    }
}

/// The percent-encoding of a text: each byte of its UTF-8 form, encoded.
pub open spec fn percent_encoded(text: Seq<char>) -> Seq<char> {
    encoded_bytes(encode_utf8(text))
}

/// Encoding goes byte by byte: a byte more adds its encoding at the end.
pub proof fn lemma_encoded_bytes_push(bytes: Seq<u8>, byte: u8)
    ensures
        encoded_bytes(bytes.push(byte)) == encoded_bytes(bytes) + encoded_byte(byte),
    decreases bytes.len(),
{
    if bytes.len() == 0 {
        let one = bytes.push(byte);
        assert(encoded_bytes(one.drop_first()) =~= Seq::<char>::empty());
    } else {
        lemma_encoded_bytes_push(bytes.drop_first(), byte);
        assert(bytes.push(byte).drop_first() =~= bytes.drop_first().push(byte));
    }
}

/// The value of a hexadecimal digit, given as the byte of its character.
pub open spec fn hex_value(byte: u8) -> Option<u8> {
    if 0x30 <= byte <= 0x39 {
        Some((byte - 0x30) as u8)
    } else if 0x41 <= byte <= 0x46 {
        Some((byte - 0x41 + 10) as u8)
    } else if 0x61 <= byte <= 0x66 {
        Some((byte - 0x61 + 10) as u8)
    } else {
        None
    }
}

/// Whether the bytes begin with an escape: `%` and two hexadecimal digits.
pub open spec fn begins_with_escape(bytes: Seq<u8>) -> bool {
    bytes.len() >= 3 && bytes[0] == 0x25 && hex_value(bytes[1]) is Some && hex_value(bytes[2])
        is Some
}

/// The bytes that percent-encoded bytes stand for: each escape gives the
/// byte it names, and every other byte stands for itself.
pub open spec fn decoded_bytes(bytes: Seq<u8>) -> Seq<u8>
    decreases bytes.len(),
{
    if bytes.len() == 0 {
        Seq::empty()
    } else if begins_with_escape(bytes) {
        seq![(16 * hex_value(bytes[1])->0 + hex_value(bytes[2])->0) as u8] + decoded_bytes(
            bytes.skip(3),
        )
    } else {
        seq![bytes[0]] + decoded_bytes(bytes.skip(1))
    }
}

/// The text that a percent-encoded text stands for, or `None` if the bytes
/// it stands for are not UTF-8.
pub open spec fn percent_decoded(text: Seq<char>) -> Option<Seq<char>> {
    let bytes = decoded_bytes(encode_utf8(text));
    if valid_utf8(bytes) {
        Some(decode_utf8(bytes))
    } else {
        None
    }
}

/// The encoding of one byte is made of ASCII characters, and decoding the
/// bytes of these characters gives the byte back.
proof fn lemma_encoded_byte(byte: u8)
    ensures
        is_ascii_chars(encoded_byte(byte)),
        kept_byte(byte) ==> encoded_byte(byte).len() == 1 && encoded_byte(byte)[0] as u8 == byte
            && byte != 0x25,
        !kept_byte(byte) ==> encoded_byte(byte).len() == 3 && encoded_byte(byte)[0] as u8 == 0x25
            && hex_value(encoded_byte(byte)[1] as u8) == Some((byte / 16) as u8) && hex_value(
            encoded_byte(byte)[2] as u8,
        ) == Some((byte % 16) as u8),
{
}

/// Percent-encoded bytes are ASCII characters.
pub proof fn lemma_encoded_bytes_are_ascii(bytes: Seq<u8>)
    ensures
        is_ascii_chars(encoded_bytes(bytes)),
    decreases bytes.len(),
{
    if bytes.len() > 0 {
        lemma_encoded_byte(bytes.first());
        lemma_encoded_bytes_are_ascii(bytes.drop_first());
        is_ascii_chars_concat(
            encoded_bytes(bytes),
            encoded_byte(bytes.first()),
            encoded_bytes(bytes.drop_first()),
        );
    }
}

/// Decoding the bytes of percent-encoded bytes gives the bytes back.
pub proof fn lemma_decoding_restores_bytes(bytes: Seq<u8>)
    ensures
        decoded_bytes(encode_utf8(encoded_bytes(bytes))) == bytes,
    decreases bytes.len(),
{
    if bytes.len() > 0 {
        let first = bytes.first();
        let rest = bytes.drop_first();
        let head = encoded_byte(first);
        let tail = encoded_bytes(rest);
        let whole = encoded_bytes(bytes);
        lemma_encoded_byte(first);
        lemma_encoded_bytes_are_ascii(bytes);
        lemma_encoded_bytes_are_ascii(rest);
        is_ascii_chars_encode_utf8(whole);
        is_ascii_chars_encode_utf8(tail);
        lemma_decoding_restores_bytes(rest);
        // behind the encoding of the first byte stand the bytes of the rest
        assert(encode_utf8(whole).skip(head.len() as int) =~= encode_utf8(tail));
    }
}

/// Percent-decoding restores what was percent-encoded, whatever the text.
pub proof fn lemma_decoding_restores(text: Seq<char>)
    ensures
        percent_decoded(percent_encoded(text)) == Some(text),
{
    lemma_decoding_restores_bytes(encode_utf8(text));
    encode_utf8_valid_utf8(text);
    encode_utf8_decode_utf8(text);
}

/// The UTF-8 form of two texts, one after the other, is the UTF-8 form of
/// the one followed by that of the other.
pub proof fn lemma_utf8_of_concat(a: Seq<char>, b: Seq<char>)
    ensures
        encode_utf8(a + b) == encode_utf8(a) + encode_utf8(b),
    decreases a.len(),
{
    if a.len() > 0 {
        lemma_utf8_of_concat(a.drop_first(), b);
        assert((a + b).drop_first() =~= a.drop_first() + b);
    }
}

/// Encoding the bytes of two sequences, one after the other, gives the
/// encoding of the one followed by that of the other.
pub proof fn lemma_encoded_bytes_of_concat(a: Seq<u8>, b: Seq<u8>)
    ensures
        encoded_bytes(a + b) == encoded_bytes(a) + encoded_bytes(b),
    decreases a.len(),
{
    if a.len() > 0 {
        lemma_encoded_bytes_of_concat(a.drop_first(), b);
        assert((a + b).drop_first() =~= a.drop_first() + b);
    }
}

/// Percent-encoding goes piece by piece.
pub proof fn lemma_encoded_of_concat(a: Seq<char>, b: Seq<char>)
    ensures
        percent_encoded(a + b) == percent_encoded(a) + percent_encoded(b),
{
    lemma_utf8_of_concat(a, b);
    lemma_encoded_bytes_of_concat(encode_utf8(a), encode_utf8(b));
}

/// A `/` stands for itself when percent-encoded.
pub proof fn lemma_slash_is_kept()
    ensures
        percent_encoded(seq!['/']) == seq!['/'],
{
    let one = seq!['/'];
    is_ascii_chars_encode_utf8(one);
    let bytes = encode_utf8(one);
    assert(encoded_bytes(bytes.drop_first()) =~= Seq::<char>::empty());
}

/// The escape of one byte.
///
/// Trusted: `percent_encoding::percent_encode_byte`, which returns `%`
/// followed by the byte's value as two upper-case hexadecimal digits.
#[verifier::external_body]
fn escape_byte(byte: u8) -> (escape: &'static str)
    ensures
        escape@ == escaped_byte(byte),
{
    percent_encoding::percent_encode_byte(byte)
}

/// Whether a byte stands for itself in a link.
pub fn is_kept_byte(byte: u8) -> (kept: bool)
    ensures
        kept == kept_byte(byte),
{
    (0x30 <= byte && byte <= 0x39) || (0x41 <= byte && byte <= 0x5a) || (0x61 <= byte && byte
        <= 0x7a) || byte == 0x2f || byte == 0x2d || byte == 0x5f || byte == 0x2e || byte == 0x2b
}

/// Percent-encodes a path for use in a link: every byte of its UTF-8 form
/// is escaped, except the ASCII letters and digits and `/`, `-`, `_`, `.`
/// and `+`.
pub fn percent_encode_path(text: &str) -> (encoded: String)
    ensures
        encoded@ == percent_encoded(text@),
{
    let bytes = text.as_bytes();
    let mut encoded = String::new();
    let mut i: usize = 0;
    while i < bytes.len()
        invariant
            i <= bytes.len(),
            bytes@ == encode_utf8(text@),
            encoded@ == encoded_bytes(bytes@.take(i as int)),
        decreases bytes.len() - i,
    {
        let byte = bytes[i];
        proof {
            lemma_encoded_bytes_push(bytes@.take(i as int), byte);
            assert(bytes@.take(i + 1) =~= bytes@.take(i as int).push(byte));
        }
        if is_kept_byte(byte) {
            push_char(&mut encoded, byte as char);
        } else {
            encoded.append(escape_byte(byte));
        }
        i += 1;
    }
    assert(bytes@.take(bytes.len() as int) =~= bytes@);
    encoded
}

} // verus!
