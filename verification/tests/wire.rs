use librespot_bridge::protobuf::protobuf_dumps;
use librespot_bridge::text::{
    chars_of, decimal_text, parse_number, push_hex, same_text, split_text, starts_with,
};

#[test]
fn fields_have_key_length_and_text() {
    assert_eq!(
        protobuf_dumps(&[(1, "hi"), (2, "ü")]),
        vec![0x0a, 2, b'h', b'i', 0x12, 2, 0xc3, 0xbc]
    );
    assert_eq!(protobuf_dumps(&[]), Vec::<u8>::new());
    assert_eq!(protobuf_dumps(&[(3, "")]), vec![0x1a, 0]);
}

#[test]
fn long_lengths_take_more_bytes() {
    let text = "x".repeat(127);
    assert_eq!(&protobuf_dumps(&[(1, &text)])[..2], &[0x0a, 0x7f]);
    let text = "x".repeat(128);
    assert_eq!(&protobuf_dumps(&[(1, &text)])[..3], &[0x0a, 0x80, 0x01]);
    let text = "x".repeat(300);
    let message = protobuf_dumps(&[(1, &text)]);
    assert_eq!(&message[..3], &[0x0a, 0xac, 0x02]);
    assert_eq!(message.len(), 303);
    let text = "x".repeat(16384);
    assert_eq!(&protobuf_dumps(&[(1, &text)])[..4], &[0x0a, 0x80, 0x80, 0x01]);
}

#[test]
fn high_tags_lose_their_high_bits() {
    assert_eq!(protobuf_dumps(&[(16, "")]), vec![0x82, 0]);
    assert_eq!(protobuf_dumps(&[(33, "")]), vec![0x0a, 0]);
}

#[test]
fn numbers_are_written_in_decimal_and_read_back() {
    for n in [0u64, 7, 10, 99, 100, 4096, u64::MAX] {
        let text = decimal_text(n);
        assert_eq!(text, format!("{}", n));
        let chars = chars_of(&text);
        assert_eq!(parse_number(&chars, 0, chars.len()), Some(n));
    }
}

#[test]
fn hexadecimal_keeps_its_width() {
    let mut out = String::from("0x");
    push_hex(&mut out, 0xbeef, 6);
    assert_eq!(out, "0x00beef");
    push_hex(&mut out, 0xbeef, 2);
    assert_eq!(out, "0x00beefef");
}

#[test]
fn texts_are_compared_by_content() {
    assert!(same_text("über", "über"));
    assert!(!same_text("a", "b"));
    assert!(starts_with("/stream.mp3", "/stream"));
    assert!(starts_with("a", ""));
    assert!(!starts_with("ab", "abc"));
}

#[test]
fn text_is_cut_at_separators() {
    let pieces: Vec<String> =
        split_text("a&&bc&", '&').into_iter().map(|p| p.into_iter().collect()).collect();
    assert_eq!(pieces, vec!["a", "", "bc", ""]);
    assert_eq!(split_text("", '&').len(), 1);
}
