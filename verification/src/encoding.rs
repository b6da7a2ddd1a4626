//! Total decoding of raw bytes to text under a selectable encoding.

use crate::text::{push_char, str_eq};
use vstd::prelude::*;
use vstd::utf8::*;

verus! {

/// The text encodings a transcript can be shown in.
#[derive(Debug, Clone, Copy, PartialEq, Eq, Structural)]
pub enum TextEncoding {
    Auto,
    Utf8,
    Utf16,
    Ascii,
    Gbk,
    Gb2312,
}

/// The decoders that `TextEncoding` selects among: three fixed ones, and
/// the one that charset detection picks for the bytes at hand.
#[derive(Debug, Clone, Copy, PartialEq, Eq, Structural)]
pub enum Codec {
    Utf8,
    Utf16Le,
    Gbk,
    Detected,
}

/// Longest input that can be decoded: the decoders size their output buffer
/// at up to three bytes per input byte plus a few more.
pub const MAX_DECODE_LEN: usize = usize::MAX / 4;

/// The text `encoding_rs::Encoding::decode` yields for `bytes` when called on
/// the encoding that `codec` stands for: `UTF_8`, `UTF_16LE`, `GBK`, or the
/// one that `chardetng` guesses for `bytes`.
pub uninterp spec fn lossy_text(codec: Codec, bytes: Seq<u8>) -> Seq<char>;

/// Whether `bytes` start with a UTF-8, UTF-16LE or UTF-16BE byte-order mark.
pub open spec fn has_bom(bytes: Seq<u8>) -> bool {
    ||| bytes.len() >= 3 && bytes[0] == 0xEF && bytes[1] == 0xBB && bytes[2] == 0xBF
    ||| bytes.len() >= 2 && bytes[0] == 0xFF && bytes[1] == 0xFE
    ||| bytes.len() >= 2 && bytes[0] == 0xFE && bytes[1] == 0xFF
}

/// The character that a byte-order mark encodes.
pub const BYTE_ORDER_MARK: char = '\u{FEFF}';

/// Whether `text` begins with the byte-order mark character.
pub open spec fn starts_with_mark(text: Seq<char>) -> bool {
    text.len() > 0 && text[0] == BYTE_ORDER_MARK
}

/// Well-formed UTF-8 that starts with a byte-order mark is the encoding of a
/// text that starts with the byte-order mark character.
pub proof fn lemma_bom_is_first_char(bytes: Seq<u8>)
    requires
        valid_utf8(bytes),
        has_bom(bytes),
    ensures
        starts_with_mark(decode_utf8(bytes)),
{
    assert(codepoint_width_3(0xEFu8, 0xBBu8, 0xBFu8) == 0xFEFFu32) by {
        assert((((0xEFu8 & 0x0F) as u32) << 12) | (((0xBBu8 & 0x3f) as u32) << 6) | ((0xBFu8
            & 0x3f) as u32) == 0xFEFFu32) by (bit_vector);
    }
}

/// The character an ASCII transcript shows for one byte.
pub open spec fn ascii_char(b: u8) -> char {
    if b < 128 {
        b as char
    } else {
        '?'
    }
}

/// The ASCII rendering of `bytes`: one character per byte.
pub open spec fn ascii_text(bytes: Seq<u8>) -> Seq<char> {
    Seq::new(bytes.len(), |i: int| ascii_char(bytes[i]))
}

/// What automatic decoding yields: valid UTF-8 is taken as it is, anything
/// else goes through charset detection.
pub open spec fn auto_text(bytes: Seq<u8>) -> Seq<char> {
    if bytes.len() == 0 {
        Seq::empty()
    } else if valid_utf8(bytes) {
        decode_utf8(bytes)
    } else {
        lossy_text(Codec::Detected, bytes)
    }
}

/// The encoding a selector label stands for; unknown labels mean `Auto`.
pub open spec fn encoding_for_label(label: Seq<char>) -> TextEncoding {
    if label == "UTF-8"@ {
        TextEncoding::Utf8
    } else if label == "UTF-16"@ {
        TextEncoding::Utf16
    } else if label == "ASCII"@ {
        TextEncoding::Ascii
    } else if label == "GBK"@ {
        TextEncoding::Gbk
    } else if label == "GB2312"@ {
        TextEncoding::Gb2312
    } else {
        TextEncoding::Auto
    }
}

/// The error of `core::str::from_utf8`, carried through unread.
#[verifier::external_type_specification]
#[verifier::external_body]
pub struct ExUtf8Error(core::str::Utf8Error);

/// Calls `core::str::from_utf8`, which succeeds exactly on well-formed UTF-8
/// and then returns the same bytes viewed as text.
#[verifier::external_body]
fn str_from_utf8(bytes: &[u8]) -> (r: Result<&str, core::str::Utf8Error>)
    ensures
        r is Ok <==> valid_utf8(bytes@),
        r matches Ok(s) ==> s@ == decode_utf8(bytes@),
{
    core::str::from_utf8(bytes)
}

/// Calls `encoding_rs::Encoding::decode` and keeps the text. The encoding
/// it is called on is `UTF_8`, `UTF_16LE` or `GBK`, or the guess of a fresh
/// `chardetng::EncodingDetector` that was fed `bytes` as a complete stream
/// (no top-level domain, UTF-8 allowed). The call sniffs a byte-order mark
/// first and replaces malformed sequences with U+FFFD; its result depends
/// on the arguments alone and is named, not spelled out. Without a
/// byte-order mark, well-formed UTF-8 decoded as UTF-8 is returned
/// unchanged. The call panics where the size it computes for its output
/// buffer overflows `usize`; the bound on the input rules that out.
#[verifier::external_body]
fn decode_lossy(codec: Codec, bytes: &[u8]) -> (out: String)
    requires
        bytes@.len() <= MAX_DECODE_LEN,
    ensures
        out@ == lossy_text(codec, bytes@),
        codec == Codec::Utf8 && valid_utf8(bytes@) && !has_bom(bytes@) ==> out@ == decode_utf8(
            bytes@,
        ),
{
    let encoding = match codec {
        Codec::Utf8 => encoding_rs::UTF_8,
        Codec::Utf16Le => encoding_rs::UTF_16LE,
        Codec::Gbk => encoding_rs::GBK,
        Codec::Detected => {
            let mut detector = chardetng::EncodingDetector::new();
            detector.feed(bytes, true);
            detector.guess(None, true)
        },
    };
    encoding.decode(bytes).0.into_owned()
}

/// Decodes `bytes` as ASCII, showing `?` for every byte outside it.
pub fn decode_ascii(bytes: &[u8]) -> (out: String)
    ensures
        out@ == ascii_text(bytes@),
{
    let mut out = String::new();
    let mut i: usize = 0;
    while i < bytes.len()
        invariant
            i <= bytes@.len(),
            out@ == ascii_text(bytes@.take(i as int)),
        decreases bytes@.len() - i,
    {
        let b: u8 = bytes[i];
        let c: char = if b < 128 {
            b as char
        } else {
            '?'
        };
        push_char(&mut out, c);
        i += 1;
    }
    out
}

/// Decodes `bytes` without being told their encoding.
pub fn detect_and_decode(bytes: &[u8]) -> (out: String)
    requires
        bytes@.len() <= MAX_DECODE_LEN,
    ensures
        out@ == auto_text(bytes@),
{
    if bytes.len() == 0 {
        return String::new();
    }
    match str_from_utf8(bytes) {
        Ok(text) => text.to_owned(),
        Err(_) => decode_lossy(Codec::Detected, bytes),
    }
}

impl TextEncoding {
    /// The text that decoding `bytes` under this encoding yields.
    pub open spec fn decoded(self, bytes: Seq<u8>) -> Seq<char> {
        match self {
            TextEncoding::Auto => auto_text(bytes),
            TextEncoding::Utf8 => lossy_text(Codec::Utf8, bytes),
            TextEncoding::Utf16 => lossy_text(Codec::Utf16Le, bytes),
            TextEncoding::Ascii => ascii_text(bytes),
            TextEncoding::Gbk => lossy_text(Codec::Gbk, bytes),
            TextEncoding::Gb2312 => lossy_text(Codec::Gbk, bytes),
        }
    }

    /// Whether a text that was encoded as UTF-8 is recovered by decoding
    /// under this encoding: always under `Auto`, and under `Utf8` unless the
    /// text starts with the byte-order mark character, which that decoder
    /// takes as a byte-order mark and drops.
    pub open spec fn recovers(self, text: Seq<char>) -> bool {
        self == TextEncoding::Auto || (self == TextEncoding::Utf8 && !starts_with_mark(text))
    }

    /// Decodes `bytes` to text. Never fails: what cannot be decoded is
    /// replaced. Empty input decodes to empty text under `Auto` and `Ascii`.
    /// Encoding a text as UTF-8 and decoding it again gives the text back,
    /// where the encoding recovers it.
    pub fn decode(&self, bytes: &[u8]) -> (out: String)
        requires
            bytes@.len() <= MAX_DECODE_LEN,
        ensures
            out@ == self.decoded(bytes@),
            (*self == TextEncoding::Auto || *self == TextEncoding::Ascii) && bytes@.len() == 0
                ==> out@.len() == 0,
            forall|text: Seq<char>|
                #[trigger] encode_utf8(text) == bytes@ && self.recovers(text) ==> out@ == text,
    {
        let out = match self {
            TextEncoding::Auto => detect_and_decode(bytes),
            TextEncoding::Utf8 => decode_lossy(Codec::Utf8, bytes),
            TextEncoding::Utf16 => decode_lossy(Codec::Utf16Le, bytes),
            TextEncoding::Ascii => decode_ascii(bytes),
            TextEncoding::Gbk => decode_lossy(Codec::Gbk, bytes),
            TextEncoding::Gb2312 => decode_lossy(Codec::Gbk, bytes),
        };
        proof {
            assert forall|text: Seq<char>| #[trigger]
                encode_utf8(text) == bytes@ && self.recovers(text) implies out@ == text by {
                encode_utf8_valid_utf8(text);
                encode_utf8_decode_utf8(text);
                if has_bom(bytes@) {
                    lemma_bom_is_first_char(bytes@);
                }
            }
        }
        out
    }

    /// The encoding that a selector label names; any label other than
    /// `UTF-8`, `UTF-16`, `ASCII`, `GBK` and `GB2312` selects `Auto`.
    pub fn from_label(label: &str) -> (encoding: TextEncoding)
        ensures
            encoding == encoding_for_label(label@),
    {
        if str_eq(label, "UTF-8") {
            TextEncoding::Utf8
        } else if str_eq(label, "UTF-16") {
            TextEncoding::Utf16
        } else if str_eq(label, "ASCII") {
            TextEncoding::Ascii
        } else if str_eq(label, "GBK") {
            TextEncoding::Gbk
        } else if str_eq(label, "GB2312") {
            TextEncoding::Gb2312
        } else {
            TextEncoding::Auto
        }
    }
}

impl std::str::FromStr for TextEncoding {
    type Err = ();

    /// Never fails: see `from_label`.
    fn from_str(s: &str) -> (r: Result<Self, Self::Err>)
        ensures
            r == Ok::<TextEncoding, ()>(encoding_for_label(s@)),
    {
        Ok(TextEncoding::from_label(s))
    }
}

} // verus!
