//! The pieces of text a transcript line is made of: hex dumps, clock
//! stamps, the blank test and keyword highlighting.

use crate::text::push_char;
use vstd::prelude::*;

verus! {

/// Whether `char::is_whitespace` holds of `c` (the Unicode `White_Space`
/// property).
pub uninterp spec fn is_whitespace(c: char) -> bool;

/// Calls `char::is_whitespace`.
#[verifier::external_body]
pub(crate) fn char_is_whitespace(c: char) -> (white: bool)
    ensures
        white == is_whitespace(c),
{
    c.is_whitespace()
}

/// A text is blank when it is empty or consists of whitespace only.
pub open spec fn is_blank(text: Seq<char>) -> bool {
    forall|i: int| 0 <= i < text.len() ==> is_whitespace(#[trigger] text[i])
}

/// Tells whether `text` is blank.
pub fn blank(text: &Vec<char>) -> (b: bool)
    ensures
        b == is_blank(text@),
{
    let mut i: usize = 0;
    while i < text.len()
        invariant
            i <= text@.len(),
            forall|j: int| 0 <= j < i ==> is_whitespace(#[trigger] text@[j]),
        decreases text@.len() - i,
    {
        if !char_is_whitespace(text[i]) {
            return false;
        }
        i += 1;
    }
    true
}

/// The upper-case hexadecimal digit for a value below 16.
pub open spec fn hex_digit(n: int) -> char {
    if n < 10 {
        (0x30 + n) as u8 as char
    } else {
        (0x37 + n) as u8 as char
    }
}

/// The decimal digit for a value below 10.
pub open spec fn dec_digit(n: int) -> char {
    (0x30 + n) as u8 as char
}

/// A hex dump: for every byte two upper-case digits and a space.
pub open spec fn hex_text(bytes: Seq<u8>) -> Seq<char> {
    Seq::new(
        3 * bytes.len(),
        |i: int|
            if i % 3 == 0 {
                hex_digit(bytes[i / 3] as int / 16)
            } else if i % 3 == 1 {
                hex_digit(bytes[i / 3] as int % 16)
            } else {
                ' '
            },
    )
}

/// The bracket that opens a highlighted keyword.
pub const MARK_OPEN: char = '\u{3010}';

/// The bracket that closes a highlighted keyword.
pub const MARK_CLOSE: char = '\u{3011}';

/// A keyword between its two brackets.
pub open spec fn marked(keyword: Seq<char>) -> Seq<char> {
    seq![MARK_OPEN] + keyword + seq![MARK_CLOSE]
}

/// `text` with every occurrence of `from` replaced by `to`, occurrences
/// being found from left to right and never overlapping. An empty `from`
/// occurs nowhere.
pub open spec fn replace_all(text: Seq<char>, from: Seq<char>, to: Seq<char>) -> Seq<char>
    decreases text.len(),
{
    if from.len() == 0 || text.len() < from.len() {
        text
    } else if text.take(from.len() as int) == from {
        to + replace_all(text.skip(from.len() as int), from, to)
    } else {
        seq![text[0]] + replace_all(text.skip(1), from, to)
    }
}

/// `text` after the keywords were highlighted one after the other, each in
/// the text that its predecessors left behind.
pub open spec fn highlighted(text: Seq<char>, keywords: Seq<Seq<char>>) -> Seq<char>
    decreases keywords.len(),
{
    if keywords.len() == 0 {
        text
    } else {
        let keyword = keywords.last();
        replace_all(highlighted(text, keywords.drop_last()), keyword, marked(keyword))
    }
}

/// Tells whether `pattern` occurs in `text` at position `at`.
fn occurs_at(text: &Vec<char>, at: usize, pattern: &Vec<char>) -> (found: bool)
    requires
        at <= text@.len(),
    ensures
        found == (pattern@.len() <= text@.len() - at && text@.skip(at as int).take(
            pattern@.len() as int,
        ) == pattern@),
{
    if pattern.len() > text.len() - at {
        return false;
    }
    let ghost window = text@.skip(at as int).take(pattern@.len() as int);
    let mut j: usize = 0;
    while j < pattern.len()
        invariant
            j <= pattern@.len(),
            at + pattern@.len() <= text@.len() <= usize::MAX,
            window == text@.skip(at as int).take(pattern@.len() as int),
            forall|k: int| 0 <= k < j ==> window[k] == pattern@[k],
        decreases pattern@.len() - j,
    {
        if text[at + j] != pattern[j] {
            return false;
        }
        j += 1;
    }
    assert(window =~= pattern@);
    true
}

/// Replaces every occurrence of `from` in `text` by `to`.
pub fn replace(text: &Vec<char>, from: &Vec<char>, to: &Vec<char>) -> (out: Vec<char>)
    ensures
        out@ == replace_all(text@, from@, to@),
{
    let mut out: Vec<char> = Vec::new();
    let mut i: usize = 0;
    assert(text@.skip(0) =~= text@);
    while i < text.len()
        invariant
            i <= text@.len(),
            out@ + replace_all(text@.skip(i as int), from@, to@) == replace_all(
                text@,
                from@,
                to@,
            ),
        decreases text@.len() - i,
    {
        let ghost rest = text@.skip(i as int);
        let ghost done = out@;
        if from.len() > 0 && occurs_at(text, i, from) {
            let mut j: usize = 0;
            while j < to.len()
                invariant
                    j <= to@.len(),
                    out@ == done + to@.take(j as int),
                decreases to@.len() - j,
            {
                out.push(to[j]);
                j += 1;
            }
            i += from.len();
            assert(rest.skip(from@.len() as int) =~= text@.skip(i as int));
        } else {
            out.push(text[i]);
            i += 1;
            assert(rest.skip(1) =~= text@.skip(i as int));
        }
    }
    out
}

/// Highlights each of `keywords` in `text`, in their order.
pub fn highlight(text: Vec<char>, keywords: &Vec<Vec<char>>) -> (out: Vec<char>)
    ensures
        out@ == highlighted(text@, keywords.deep_view()),
{
    let ghost words = keywords.deep_view();
    let mut out = text;
    let mut k: usize = 0;
    while k < keywords.len()
        invariant
            k <= keywords@.len(),
            words == keywords.deep_view(),
            out@ == highlighted(text@, words.take(k as int)),
        decreases keywords@.len() - k,
    {
        let keyword = &keywords[k];
        proof {
            assert(words.take(k + 1).drop_last() =~= words.take(k as int));
            assert(words.take(k + 1).last() == keyword@);
        }
        if keyword.len() > 0 {
            let mut wrapped: Vec<char> = Vec::new();
            wrapped.push(MARK_OPEN);
            let mut j: usize = 0;
            while j < keyword.len()
                invariant
                    j <= keyword@.len(),
                    wrapped@ == seq![MARK_OPEN] + keyword@.take(j as int),
                decreases keyword@.len() - j,
            {
                wrapped.push(keyword[j]);
                j += 1;
            }
            wrapped.push(MARK_CLOSE);
            assert(wrapped@ =~= marked(keyword@));
            out = replace(&out, keyword, &wrapped);
        }
        k += 1;
    }
    assert(words.take(k as int) =~= words);
    out
}

/// Seconds added to UTC to obtain the clock that stamps are shown in.
pub const CLOCK_OFFSET_SECS: u64 = 28800;

/// The stamp `[HH:MM:SS.mmm] ` of a time given in milliseconds since the
/// epoch, on a clock fixed at eight hours ahead of UTC.
pub open spec fn timestamp_text(millis: u64) -> Seq<char> {
    let secs = millis as int / 1000 + CLOCK_OFFSET_SECS as int;
    let h = (secs / 3600) % 24;
    let m = (secs / 60) % 60;
    let s = secs % 60;
    let ms = millis as int % 1000;
    seq![
        '[',
        dec_digit(h / 10),
        dec_digit(h % 10),
        ':',
        dec_digit(m / 10),
        dec_digit(m % 10),
        ':',
        dec_digit(s / 10),
        dec_digit(s % 10),
        '.',
        dec_digit(ms / 100),
        dec_digit((ms / 10) % 10),
        dec_digit(ms % 10),
        ']',
        ' ',
    ]
}

pub(crate) fn hex_digit_of(n: u8) -> (c: char)
    requires
        n < 16,
    ensures
        c == hex_digit(n as int),
{
    if n < 10 {
        (0x30u8 + n) as char
    } else {
        (0x37u8 + n) as char
    }
}

fn dec_digit_of(n: u64) -> (c: char)
    requires
        n < 10,
    ensures
        c == dec_digit(n as int),
{
    (0x30u8 + n as u8) as char
}

/// Appends the hex dump of `bytes` to `out`.
pub fn push_hex(out: &mut String, bytes: &[u8])
    ensures
        final(out)@ == old(out)@ + hex_text(bytes@),
{
    let mut i: usize = 0;
    while i < bytes.len()
        invariant
            i <= bytes@.len(),
            out@ == old(out)@ + hex_text(bytes@.take(i as int)),
        decreases bytes@.len() - i,
    {
        let b: u8 = bytes[i];
        push_char(out, hex_digit_of(b / 16));
        push_char(out, hex_digit_of(b % 16));
        push_char(out, ' ');
        i += 1;
        assert(out@ =~= old(out)@ + hex_text(bytes@.take(i as int))) by {
            let prev = hex_text(bytes@.take(i - 1));
            let next = hex_text(bytes@.take(i as int));
            assert forall|k: int| 0 <= k < prev.len() implies prev[k] == next[k] by {}
        }
    }
}

/// Appends the stamp of `millis` to `out`.
pub fn push_timestamp(out: &mut String, millis: u64)
    ensures
        final(out)@ == old(out)@ + timestamp_text(millis),
{
    let secs: u64 = millis / 1000 + CLOCK_OFFSET_SECS;
    let h: u64 = (secs / 3600) % 24;
    let m: u64 = (secs / 60) % 60;
    let s: u64 = secs % 60;
    let ms: u64 = millis % 1000;
    push_char(out, '[');
    push_char(out, dec_digit_of(h / 10));
    push_char(out, dec_digit_of(h % 10));
    push_char(out, ':');
    push_char(out, dec_digit_of(m / 10));
    push_char(out, dec_digit_of(m % 10));
    push_char(out, ':');
    push_char(out, dec_digit_of(s / 10));
    push_char(out, dec_digit_of(s % 10));
    push_char(out, '.');
    push_char(out, dec_digit_of(ms / 100));
    push_char(out, dec_digit_of((ms / 10) % 10));
    push_char(out, dec_digit_of(ms % 10));
    push_char(out, ']');
    push_char(out, ' ');
}

} // verus!
