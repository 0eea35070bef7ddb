use media_server_1::config::clone_strings;
use media_server_1::listing::push_escaped;
use media_server_1::logging::ffmpeg::push_right_aligned;
use media_server_1::util::path::join_segments;
use media_server_1::util::text::{chars_of, concat_str, ends_with_char, holds_char, string_of};

#[test]
fn characters_and_strings() {
    let chars = chars_of("a\u{fc}/\u{65e5}z");
    assert_eq!(chars, vec!['a', '\u{fc}', '/', '\u{65e5}', 'z']);
    assert_eq!(string_of(&chars, 1, 4), "\u{fc}/\u{65e5}");
    assert_eq!(string_of(&chars, 2, 2), "");
    assert_eq!(string_of(&chars, 0, 5), "a\u{fc}/\u{65e5}z");
    assert!(chars_of("").is_empty());
}

#[test]
fn searching_characters() {
    let chars = chars_of("a\\b/c");
    assert!(holds_char(&chars, 0, 5, '\\'));
    assert!(!holds_char(&chars, 2, 5, '\\'));
    assert!(holds_char(&chars, 1, 2, '\\'));
    assert!(!holds_char(&chars, 1, 1, '\\'));
    assert!(ends_with_char("a/", '/'));
    assert!(!ends_with_char("a", '/'));
    assert!(!ends_with_char("", '/'));
    assert!(ends_with_char("\u{65e5}", '\u{65e5}'));
}

#[test]
fn joining_strings() {
    assert_eq!(concat_str("ab", "cd"), "abcd");
    assert_eq!(concat_str("", ""), "");
    let parts = vec!["a".to_string(), "b c".to_string(), "d".to_string()];
    assert_eq!(join_segments(&parts), "a/b c/d");
    assert_eq!(join_segments(&vec!["a".to_string()]), "a");
    assert_eq!(join_segments(&vec![]), "");
    assert_eq!(clone_strings(&parts), parts);
}

#[test]
fn escaping_and_aligning() {
    let mut page = String::from("x");
    push_escaped(&mut page, "<&>\"'a\u{fc}");
    assert_eq!(page, "x&lt;&amp;&gt;&quot;&#x27;a\u{fc}");
    let mut line = String::from("[");
    push_right_aligned(&mut line, "ab", 5);
    push_right_aligned(&mut line, "abcdef", 5);
    push_right_aligned(&mut line, "", 2);
    assert_eq!(line, "[   ababcdef  ");
}
