//! What a front end shows and what it reads back from the operator: port
//! labels, the list of highlight keywords, and the transcript text.

use crate::encoding::{encoding_for_label, TextEncoding};
use crate::logbuf::LogStore;
use crate::render::{char_is_whitespace, hex_digit, hex_digit_of, is_whitespace};
use crate::serial_service::PortInfo;
use crate::text::{chars_of, push_char, string_of};
use vstd::prelude::*;

verus! {

/// The four upper-case hex digits of a 16-bit identifier.
pub open spec fn hex4(value: u16) -> Seq<char> {
    seq![
        hex_digit(value as int / 4096),
        hex_digit((value as int / 256) % 16),
        hex_digit((value as int / 16) % 16),
        hex_digit(value as int % 16),
    ]
}

/// The label under which a port is offered: its name, followed for a device
/// with vendor and product identifiers by ` (VVVV:PPPP)`.
pub open spec fn port_label_of(name: Seq<char>, vid: Option<u16>, pid: Option<u16>) -> Seq<char> {
    match (vid, pid) {
        (Some(vid), Some(pid)) => name + seq![' ', '('] + hex4(vid) + seq![':'] + hex4(pid) + seq![
            ')',
        ],
        _ => name,
    }
}

/// `text` without the whitespace it starts with.
pub open spec fn trim_start(text: Seq<char>) -> Seq<char>
    decreases text.len(),
{
    if text.len() > 0 && is_whitespace(text[0]) {
        trim_start(text.skip(1))
    } else {
        text
    }
}

/// `text` without the whitespace it ends with.
pub open spec fn trim_end(text: Seq<char>) -> Seq<char>
    decreases text.len(),
{
    if text.len() > 0 && is_whitespace(text.last()) {
        trim_end(text.drop_last())
    } else {
        text
    }
}

/// `text` without the whitespace around it.
pub open spec fn trimmed(text: Seq<char>) -> Seq<char> {
    trim_start(trim_end(text))
}

/// The number of characters before the first whitespace in `text`.
pub open spec fn word_len(text: Seq<char>) -> int
    decreases text.len(),
{
    if text.len() == 0 || is_whitespace(text[0]) {
        0
    } else {
        1 + word_len(text.skip(1))
    }
}

/// The first word of `text`, or `text` itself where it holds no word.
pub open spec fn first_word(text: Seq<char>) -> Seq<char> {
    let rest = trim_start(text);
    if rest.len() == 0 {
        text
    } else {
        rest.take(word_len(rest))
    }
}

/// What follows the last comma of `text`.
pub open spec fn open_field(text: Seq<char>) -> Seq<char>
    decreases text.len(),
{
    if text.len() == 0 || text.last() == ',' {
        Seq::empty()
    } else {
        open_field(text.drop_last()).push(text.last())
    }
}

/// The fields of `text` that a comma ends, in order.
pub open spec fn closed_fields(text: Seq<char>) -> Seq<Seq<char>>
    decreases text.len(),
{
    if text.len() == 0 {
        Seq::empty()
    } else if text.last() == ',' {
        closed_fields(text.drop_last()).push(open_field(text.drop_last()))
    } else {
        closed_fields(text.drop_last())
    }
}

/// The fields that commas divide `text` into; there is always at least one.
pub open spec fn fields(text: Seq<char>) -> Seq<Seq<char>> {
    closed_fields(text).push(open_field(text))
}

/// The fields trimmed, without those that are blank.
pub open spec fn words_of(fields: Seq<Seq<char>>) -> Seq<Seq<char>>
    decreases fields.len(),
{
    if fields.len() == 0 {
        Seq::empty()
    } else if trimmed(fields.last()).len() > 0 {
        words_of(fields.drop_last()).push(trimmed(fields.last()))
    } else {
        words_of(fields.drop_last())
    }
}

/// The keywords that a comma-separated list names.
pub open spec fn keywords_of(text: Seq<char>) -> Seq<Seq<char>> {
    words_of(fields(text))
}

/// Appends the four hex digits of `value` to `out`.
fn push_hex4(out: &mut String, value: u16)
    ensures
        final(out)@ == old(out)@ + hex4(value),
{
    push_char(out, hex_digit_of((value / 4096) as u8));
    push_char(out, hex_digit_of(((value / 256) % 16) as u8));
    push_char(out, hex_digit_of(((value / 16) % 16) as u8));
    push_char(out, hex_digit_of((value % 16) as u8));
}

/// The label under which `port` is offered.
pub fn port_label(port: &PortInfo) -> (label: String)
    ensures
        label@ == port_label_of(port.port_name@, port.vid, port.pid),
{
    let mut label = port.port_name.clone();
    match (port.vid, port.pid) {
        (Some(vid), Some(pid)) => {
            label.append(" (");
            proof {
                reveal_strlit(" (");
                assert(" ("@ =~= seq![' ', '(']);
            }
            push_hex4(&mut label, vid);
            push_char(&mut label, ':');
            push_hex4(&mut label, pid);
            push_char(&mut label, ')');
        },
        _ => {},
    }
    label
}

/// The part of `text` from `start` up to `end`.
fn copy_range(text: &Vec<char>, start: usize, end: usize) -> (out: Vec<char>)
    requires
        start <= end <= text@.len(),
    ensures
        out@ == text@.subrange(start as int, end as int),
{
    let mut out: Vec<char> = Vec::new();
    let mut i: usize = start;
    while i < end
        invariant
            start <= i <= end <= text@.len(),
            out@ == text@.subrange(start as int, i as int),
        decreases end - i,
    {
        out.push(text[i]);
        i += 1;
    }
    out
}

/// The position at which `text` goes on after the whitespace that follows
/// `from`.
fn skip_white(text: &Vec<char>, from: usize, end: usize) -> (start: usize)
    requires
        from <= end <= text@.len(),
    ensures
        from <= start <= end,
        trim_start(text@.subrange(from as int, end as int)) == text@.subrange(
            start as int,
            end as int,
        ),
{
    let mut start: usize = from;
    while start < end && char_is_whitespace(text[start])
        invariant
            from <= start <= end <= text@.len(),
            trim_start(text@.subrange(from as int, end as int)) == trim_start(
                text@.subrange(start as int, end as int),
            ),
        decreases end - start,
    {
        assert(text@.subrange(start as int, end as int).skip(1) =~= text@.subrange(
            start + 1,
            end as int,
        ));
        start += 1;
    }
    start
}

/// `text` without the whitespace around it.
pub fn trim(text: &Vec<char>) -> (out: Vec<char>)
    ensures
        out@ == trimmed(text@),
{
    let mut end: usize = text.len();
    assert(text@.take(end as int) =~= text@);
    while end > 0 && char_is_whitespace(text[end - 1])
        invariant
            end <= text@.len(),
            trim_end(text@) == trim_end(text@.take(end as int)),
        decreases end,
    {
        assert(text@.take(end as int).drop_last() =~= text@.take(end - 1));
        end -= 1;
    }
    let start = skip_white(text, 0, end);
    copy_range(text, start, end)
}

/// The port name in a label made by `port_label`: its first word, or the
/// label itself where it holds no word.
pub fn port_name_of_label(label: &str) -> (name: String)
    ensures
        name@ == first_word(label@),
{
    let chars = chars_of(label);
    assert(chars@.subrange(0, chars@.len() as int) =~= chars@);
    let start = skip_white(&chars, 0, chars.len());
    if start == chars.len() {
        return string_of(&chars);
    }
    let ghost rest = chars@.subrange(start as int, chars@.len() as int);
    let mut end: usize = start;
    assert(rest.skip(0) =~= rest);
    while end < chars.len() && !char_is_whitespace(chars[end])
        invariant
            start <= end <= chars@.len(),
            rest == chars@.subrange(start as int, chars@.len() as int),
            word_len(rest) == (end - start) + word_len(rest.skip(end - start)),
        decreases chars@.len() - end,
    {
        assert(rest.skip(end - start).skip(1) =~= rest.skip(end - start + 1));
        end += 1;
    }
    let word = copy_range(&chars, start, end);
    string_of(&word)
}

/// The keywords that a comma-separated list names: its fields, trimmed,
/// without the blank ones.
pub fn parse_keywords(text: &str) -> (keywords: Vec<String>)
    ensures
        keywords.deep_view() == keywords_of(text@),
{
    let chars = chars_of(text);
    let mut keywords: Vec<String> = Vec::new();
    let mut start: usize = 0;
    let mut i: usize = 0;
    while i < chars.len()
        invariant
            start <= i <= chars@.len(),
            keywords.deep_view() == words_of(closed_fields(chars@.take(i as int))),
            open_field(chars@.take(i as int)) == chars@.subrange(start as int, i as int),
        decreases chars@.len() - i,
    {
        let ghost before = chars@.take(i as int);
        assert(chars@.take(i + 1).drop_last() =~= before);
        if chars[i] == ',' {
            let word = trim(&copy_range(&chars, start, i));
            assert(closed_fields(chars@.take(i + 1)).drop_last() =~= closed_fields(before));
            if word.len() > 0 {
                keywords.push(string_of(&word));
            }
            start = i + 1;
        }
        i += 1;
    }
    assert(chars@.take(i as int) =~= chars@);
    let word = trim(&copy_range(&chars, start, i));
    assert(fields(chars@).drop_last() =~= closed_fields(chars@));
    if word.len() > 0 {
        keywords.push(string_of(&word));
    }
    keywords
}

/// The text that the log view shows: the transcript of `store` under the
/// encoding that `encoding_label` selects.
pub fn update_log_display(
    store: &LogStore,
    show_timestamp: bool,
    show_hex: bool,
    encoding_label: &str,
) -> (text: String)
    ensures
        text@ == store@.text(show_timestamp, show_hex, encoding_for_label(encoding_label@)),
{
    store.to_text_with_encoding(show_timestamp, show_hex, TextEncoding::from_label(encoding_label))
}

} // verus!
