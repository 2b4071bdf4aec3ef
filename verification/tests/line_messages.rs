use tcp_demo::lines::{decode_line, encode_line, reverse_message};

#[test]
fn a_line_ends_with_a_line_feed() {
    assert_eq!(encode_line("Hello"), vec![b'H', b'e', b'l', b'l', b'o', b'\n']);
    assert_eq!(encode_line(""), vec![b'\n']);
}

#[test]
fn the_last_character_of_a_line_is_dropped() {
    assert_eq!(decode_line(String::from("Hello\n")), "Hello");
    assert_eq!(decode_line(String::from("\n")), "");
    assert_eq!(decode_line(String::new()), "");
    assert_eq!(decode_line(String::from("caf\u{e9}")), "caf");
}

#[test]
fn a_line_server_answers_backwards() {
    assert_eq!(reverse_message("Hello"), "olleH");
    assert_eq!(reverse_message(""), "");
    assert_eq!(reverse_message("a\u{e9}b"), "b\u{e9}a");
}

#[test]
fn line_roundtrip() {
    let line = String::from_utf8(encode_line("one line")).unwrap();
    assert_eq!(decode_line(line), "one line");
}
