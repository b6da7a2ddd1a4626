use serwave::line_ending::LineEnding;
use serwave::payload::{build_payload, PayloadError};

#[test]
fn line_endings_are_the_usual_bytes() {
    assert_eq!(LineEnding::LF.as_bytes(), b"\n");
    assert_eq!(LineEnding::CR.as_bytes(), b"\r");
    assert_eq!(LineEnding::CRLF.as_bytes(), b"\r\n");
}

#[test]
fn text_is_sent_as_utf8_with_the_line_ending() {
    assert_eq!(build_payload("AT", false, LineEnding::LF), Ok(b"AT\n".to_vec()));
    assert_eq!(build_payload("AT", false, LineEnding::CR), Ok(b"AT\r".to_vec()));
    assert_eq!(build_payload("AT", false, LineEnding::CRLF), Ok(b"AT\r\n".to_vec()));
    assert_eq!(build_payload("", false, LineEnding::CRLF), Ok(b"\r\n".to_vec()));
    assert_eq!(
        build_payload("\u{4e2d} 41", false, LineEnding::LF),
        Ok(vec![0xE4, 0xB8, 0xAD, b' ', b'4', b'1', b'\n'])
    );
}

#[test]
fn hex_is_sent_as_the_bytes_it_spells() {
    assert_eq!(build_payload("48656c6C6f", true, LineEnding::LF), Ok(b"Hello".to_vec()));
    assert_eq!(build_payload("00 ff 0A", true, LineEnding::CRLF), Ok(vec![0x00, 0xFF, 0x0A]));
    assert_eq!(build_payload(" 0 1 2  3 ", true, LineEnding::LF), Ok(vec![0x01, 0x23]));
    assert_eq!(build_payload("aAbBcCdDeEfF", true, LineEnding::LF), Ok(vec![0xAA, 0xBB, 0xCC, 0xDD, 0xEE, 0xFF]));
    assert_eq!(build_payload("", true, LineEnding::LF), Ok(Vec::new()));
    assert_eq!(build_payload("   ", true, LineEnding::LF), Ok(Vec::new()));
}

#[test]
fn bad_hex_is_refused() {
    assert_eq!(build_payload("123", true, LineEnding::LF), Err(PayloadError::InvalidHex));
    assert_eq!(build_payload("zz", true, LineEnding::LF), Err(PayloadError::InvalidHex));
    assert_eq!(build_payload("0x41", true, LineEnding::LF), Err(PayloadError::InvalidHex));
    assert_eq!(build_payload("41\t42", true, LineEnding::LF), Err(PayloadError::InvalidHex));
    assert_eq!(build_payload("4\u{ff11}", true, LineEnding::LF), Err(PayloadError::InvalidHex));
    assert_eq!(build_payload("\u{e9}", true, LineEnding::LF), Err(PayloadError::InvalidHex));
    assert_eq!(build_payload("4g", true, LineEnding::LF), Err(PayloadError::InvalidHex));
    assert_eq!(build_payload("/0", true, LineEnding::LF), Err(PayloadError::InvalidHex));
    assert_eq!(build_payload(":0", true, LineEnding::LF), Err(PayloadError::InvalidHex));
    assert_eq!(build_payload("@0", true, LineEnding::LF), Err(PayloadError::InvalidHex));
    assert_eq!(build_payload("`0", true, LineEnding::LF), Err(PayloadError::InvalidHex));
}
