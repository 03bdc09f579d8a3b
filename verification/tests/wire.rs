use chat_client::wire::{
    decode_line, encode_line, ends_with_terminator, strip_terminator, TERMINATOR_BYTE,
};

#[test]
fn terminator_byte_is_line_feed() {
    assert_eq!(TERMINATOR_BYTE, b'\n');
}

#[test]
fn encode_line_appends_one_terminator() {
    assert_eq!(encode_line("hello"), b"hello\n".to_vec());
}

#[test]
fn encode_line_keeps_an_existing_terminator() {
    assert_eq!(encode_line("hello\n"), b"hello\n".to_vec());
}

#[test]
fn encode_line_with_and_without_terminator_agree() {
    assert_eq!(encode_line("hello"), encode_line("hello\n"));
}

#[test]
fn encode_line_of_empty_text_is_a_bare_terminator() {
    assert_eq!(encode_line(""), vec![0x0Au8]);
}

#[test]
fn encode_line_of_a_bare_terminator_is_unchanged() {
    assert_eq!(encode_line("\n"), vec![0x0Au8]);
}

#[test]
fn encode_line_does_not_touch_a_doubled_terminator() {
    assert_eq!(encode_line("hello\n\n"), b"hello\n\n".to_vec());
}

#[test]
fn encode_line_keeps_an_embedded_terminator() {
    assert_eq!(encode_line("a\nb"), b"a\nb\n".to_vec());
}

#[test]
fn encode_line_uses_utf8() {
    assert_eq!(
        encode_line("h\u{e9}llo \u{1F600}"),
        vec![b'h', 0xC3, 0xA9, b'l', b'l', b'o', b' ', 0xF0, 0x9F, 0x98, 0x80, 0x0A]
    );
}

#[test]
fn encode_line_is_not_fooled_by_a_continuation_byte() {
    // U+010A ends in the byte 0x8A, U+000A is the terminator itself.
    assert_eq!(encode_line("\u{10A}"), vec![0xC4, 0x8A, 0x0A]);
}

#[test]
fn ends_with_terminator_cases() {
    assert!(ends_with_terminator("hello\n"));
    assert!(ends_with_terminator("\n"));
    assert!(!ends_with_terminator("hello"));
    assert!(!ends_with_terminator(""));
    assert!(!ends_with_terminator("\nhello"));
    assert!(!ends_with_terminator("hello\r"));
    assert!(!ends_with_terminator("\u{10A}"));
}

#[test]
fn strip_terminator_removes_one_terminator() {
    assert_eq!(strip_terminator("ping\n"), "ping");
    assert_eq!(strip_terminator("ping\n\n"), "ping\n");
    assert_eq!(strip_terminator("\n"), "");
}

#[test]
fn strip_terminator_leaves_unterminated_text() {
    assert_eq!(strip_terminator("ping"), "ping");
    assert_eq!(strip_terminator(""), "");
    assert_eq!(strip_terminator("ping\r"), "ping\r");
}

#[test]
fn strip_terminator_keeps_multibyte_text() {
    assert_eq!(strip_terminator("gr\u{fc}\u{df}e \u{1F600}\n"), "gr\u{fc}\u{df}e \u{1F600}");
    assert_eq!(strip_terminator("\u{10A}"), "\u{10A}");
}

#[test]
fn strip_undoes_the_framing_of_encode_line() {
    let text = "no terminator here";
    let wire = String::from_utf8(encode_line(text)).unwrap();
    assert_eq!(strip_terminator(&wire), text);
}

#[test]
fn decode_line_strips_the_terminator() {
    assert_eq!(decode_line(b"ping\n".to_vec()), Some("ping".to_string()));
    assert_eq!(decode_line(b"ping".to_vec()), Some("ping".to_string()));
    assert_eq!(decode_line(b"\n".to_vec()), Some(String::new()));
    assert_eq!(decode_line(Vec::new()), Some(String::new()));
}

#[test]
fn decode_line_decodes_multibyte_text() {
    assert_eq!(
        decode_line(vec![0xF0, 0x9F, 0x98, 0x80, 0xC3, 0xA9, 0x0A]),
        Some("\u{1F600}\u{e9}".to_string())
    );
}

#[test]
fn decode_line_rejects_what_is_not_utf8() {
    assert_eq!(decode_line(vec![0x80, 0x0A]), None);
    assert_eq!(decode_line(vec![0xC0, 0x80]), None);
    assert_eq!(decode_line(vec![0xED, 0xA0, 0x80]), None);
    assert_eq!(decode_line(vec![0xF4, 0x90, 0x80, 0x80]), None);
    assert_eq!(decode_line(vec![b'a', 0xE2, 0x82]), None);
}

#[test]
fn decode_line_undoes_encode_line() {
    for text in ["", "plain", "caf\u{e9} \u{1F600}", "a\nb"] {
        assert_eq!(decode_line(encode_line(text)), Some(text.to_string()));
    }
    assert_eq!(decode_line(encode_line("kept once\n")), Some("kept once".to_string()));
}
