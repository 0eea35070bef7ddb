use media_server_1::util::encode::{is_kept_byte, percent_encode_path};
use percent_encoding::{percent_decode_str, utf8_percent_encode, AsciiSet, NON_ALPHANUMERIC};

const PATH_SET: &AsciiSet =
    &NON_ALPHANUMERIC.remove(b'/').remove(b'-').remove(b'_').remove(b'.').remove(b'+');

#[test]
fn encoding_exact_values() {
    assert_eq!(percent_encode_path("/movies/a b.mp4"), "/movies/a%20b.mp4");
    assert_eq!(percent_encode_path("a-b_c.d+e/f"), "a-b_c.d+e/f");
    assert_eq!(percent_encode_path("100%"), "100%25");
    assert_eq!(percent_encode_path("?#&=~"), "%3F%23%26%3D%7E");
    assert_eq!(percent_encode_path("\u{fc}"), "%C3%BC");
    assert_eq!(percent_encode_path("\u{65e5}"), "%E6%97%A5");
    assert_eq!(percent_encode_path("\u{1f600}"), "%F0%9F%98%80");
    assert_eq!(percent_encode_path("\n\u{0}\u{7f}"), "%0A%00%7F");
    assert_eq!(percent_encode_path(""), "");
}

#[test]
fn encoding_agrees_with_the_path_set() {
    let mut all = String::new();
    for code in 0u32..0x250 {
        if let Some(c) = char::from_u32(code) {
            all.push(c);
        }
    }
    all.push('\u{20ac}');
    all.push('\u{10348}');
    assert_eq!(percent_encode_path(&all), utf8_percent_encode(&all, PATH_SET).to_string());
}

#[test]
fn kept_bytes_are_alphanumerics_and_five_marks() {
    for byte in 0u8..=255 {
        let expected = byte.is_ascii_alphanumeric() || b"/-_.+".contains(&byte);
        assert_eq!(is_kept_byte(byte), expected, "byte {byte}");
    }
}

#[test]
fn decoding_restores_what_was_encoded() {
    for text in ["/movies/a b.mp4", "100% sure?", "f\u{fc}r/\u{65e5}\u{672c}/x", "%41%zz%"] {
        let encoded = percent_encode_path(text);
        assert!(encoded.is_ascii());
        assert_eq!(percent_decode_str(&encoded).decode_utf8().unwrap(), text);
    }
}
