use serwave::encoding::{decode_ascii, detect_and_decode, TextEncoding};
use std::str::FromStr;

#[test]
fn auto_decodes_empty_input_to_empty_text() {
    assert_eq!(TextEncoding::Auto.decode(&[]), "");
    assert_eq!(detect_and_decode(&[]), "");
}

#[test]
fn auto_takes_valid_utf8_as_it_is() {
    let text = "temp=21.5\u{b0}C \u{4e2d}\u{6587} \u{1f600}\r\n";
    assert_eq!(TextEncoding::Auto.decode(text.as_bytes()), text);
}

#[test]
fn auto_keeps_a_leading_byte_order_mark_character() {
    let text = "\u{feff}hello";
    assert_eq!(TextEncoding::Auto.decode(text.as_bytes()), text);
}

#[test]
fn auto_never_fails_on_invalid_input() {
    let inputs: Vec<Vec<u8>> = vec![
        vec![0xFF],
        vec![0x80, 0x80, 0x80],
        vec![0xC3],
        vec![0xE4, 0xB8],
        vec![0xF0, 0x9F, 0x98],
        vec![0x00, 0xFF, 0x0A],
        vec![0xFF, 0xFE, 0x41],
        (0u8..=255).collect(),
    ];
    for input in inputs {
        let text = TextEncoding::Auto.decode(&input);
        assert!(!text.is_empty());
    }
}

#[test]
fn auto_detects_a_legacy_encoding() {
    // "中文测试" in GBK is not valid UTF-8, so the detector decides.
    let bytes = [0xD6, 0xD0, 0xCE, 0xC4, 0xB2, 0xE2, 0xCA, 0xD4];
    assert!(std::str::from_utf8(&bytes).is_err());
    let text = TextEncoding::Auto.decode(&bytes);
    assert!(!text.is_empty());
    assert_ne!(text.as_bytes(), &bytes[..]);
}

#[test]
fn utf8_round_trip() {
    let samples = [
        "",
        "a",
        "hello world\n",
        "\u{e9}t\u{e9}",
        "\u{4e2d}\u{6587}",
        "\u{1f600}\u{10ffff}\u{0}",
        "x\u{feff}y",
        "\u{fffd}",
    ];
    for sample in samples {
        assert_eq!(TextEncoding::Utf8.decode(sample.as_bytes()), sample);
        assert_eq!(TextEncoding::Auto.decode(sample.as_bytes()), sample);
    }
}

#[test]
fn utf8_drops_a_leading_byte_order_mark() {
    assert_eq!(TextEncoding::Utf8.decode("\u{feff}hello".as_bytes()), "hello");
}

#[test]
fn utf8_replaces_invalid_sequences() {
    assert_eq!(TextEncoding::Utf8.decode(&[b'a', 0x80, b'b']), "a\u{fffd}b");
    assert_eq!(TextEncoding::Utf8.decode(&[0xC3]), "\u{fffd}");
}

#[test]
fn utf16_is_little_endian_and_lenient() {
    assert_eq!(TextEncoding::Utf16.decode(&[b'h', 0, b'i', 0]), "hi");
    assert_eq!(TextEncoding::Utf16.decode(&[0x2D, 0x4E, 0x87, 0x65]), "\u{4e2d}\u{6587}");
    // A lone trailing byte cannot be decoded.
    assert_eq!(TextEncoding::Utf16.decode(&[b'h', 0, b'i']), "h\u{fffd}");
}

#[test]
fn ascii_shows_a_question_mark_for_high_bytes() {
    assert_eq!(TextEncoding::Ascii.decode(&[0x41, 0x80, 0xFF, 0x7F, 0x00]), "A??\u{7f}\u{0}");
    assert_eq!(TextEncoding::Ascii.decode(&[]), "");
    assert_eq!(decode_ascii(b"plain"), "plain");
}

#[test]
fn gbk_and_gb2312_are_the_same_codec() {
    let bytes = [0xD6, 0xD0, 0xCE, 0xC4];
    assert_eq!(TextEncoding::Gbk.decode(&bytes), "\u{4e2d}\u{6587}");
    assert_eq!(TextEncoding::Gb2312.decode(&bytes), "\u{4e2d}\u{6587}");
    assert_eq!(TextEncoding::Gbk.decode(&[b'o', b'k', 0xFF]), "ok\u{fffd}");
}

#[test]
fn labels_select_encodings_and_default_to_auto() {
    assert_eq!(TextEncoding::from_label("UTF-8"), TextEncoding::Utf8);
    assert_eq!(TextEncoding::from_label("UTF-16"), TextEncoding::Utf16);
    assert_eq!(TextEncoding::from_label("ASCII"), TextEncoding::Ascii);
    assert_eq!(TextEncoding::from_label("GBK"), TextEncoding::Gbk);
    assert_eq!(TextEncoding::from_label("GB2312"), TextEncoding::Gb2312);
    assert_eq!(TextEncoding::from_label("Auto"), TextEncoding::Auto);
    assert_eq!(TextEncoding::from_label("utf-8"), TextEncoding::Auto);
    assert_eq!(TextEncoding::from_label(""), TextEncoding::Auto);
}

#[test]
fn parsing_a_label_never_fails() {
    assert_eq!(TextEncoding::from_str("GBK"), Ok(TextEncoding::Gbk));
    assert_eq!("UTF-16".parse::<TextEncoding>(), Ok(TextEncoding::Utf16));
    assert_eq!("latin1".parse::<TextEncoding>(), Ok(TextEncoding::Auto));
}
