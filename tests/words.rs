use feistel::wc::{is_separator, word_count};

#[test]
fn empty_input_has_no_words() {
    assert_eq!(word_count(b""), 0);
    assert_eq!(word_count(b"  \t\n"), 0);
    assert_eq!(word_count(b"!?.,;"), 0);
}

#[test]
fn counts_words_split_by_space_and_punctuation() {
    assert_eq!(word_count(b"hello world"), 2);
    assert_eq!(word_count(b"  hello   world  "), 2);
    assert_eq!(word_count(b"it's a day!"), 4);
    assert_eq!(word_count(b"one,two;three\nfour"), 4);
}

#[test]
fn word_at_end_of_input_is_counted() {
    assert_eq!(word_count(b"last"), 1);
    assert_eq!(word_count(b"a b c"), 3);
}

#[test]
fn non_ascii_bytes_are_word_bytes() {
    assert_eq!(word_count("caf\u{e9} na\u{ef}ve".as_bytes()), 2);
    assert_eq!(word_count(&[0x80, 0xff, b' ', 0x00]), 2);
}

#[test]
fn separators_match_std_ascii_classes() {
    for b in 0u8..=255 {
        assert_eq!(is_separator(b), b.is_ascii_whitespace() || b.is_ascii_punctuation());
    }
}
