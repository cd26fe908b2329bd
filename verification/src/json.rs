//! The wire form of a record: one JSON object on one line.

use vstd::prelude::*;
use crate::record::{BongoEvent, EventType, Record};

verus! {

/// The lower-case hexadecimal digit for `n`, for `n` below sixteen.
pub open spec fn hex_digit(n: nat) -> char {
    if n < 10 {
        ((48 + n) as u8) as char
    } else {
        ((87 + n) as u8) as char
    }
}

/// How one character is written inside a JSON string. The quote and the
/// backslash get a backslash before them; backspace, tab, line feed, form
/// feed and carriage return get their letter after a backslash; any other
/// character below the space is written `\u00` and its two hexadecimal
/// digits; every other character stands for itself.
pub open spec fn escape(c: char) -> Seq<char> {
    if c == '"' {
        seq!['\\', '"']
    } else if c == '\\' {
        seq!['\\', '\\']
    } else if c == '\u{8}' {
        seq!['\\', 'b']
    } else if c == '\t' {
        seq!['\\', 't']
    } else if c == '\n' {
        seq!['\\', 'n']
    } else if c == '\u{c}' {
        seq!['\\', 'f']
    } else if c == '\r' {
        seq!['\\', 'r']
    } else if (c as u32) < 0x20 {
        seq!['\\', 'u', '0', '0', hex_digit(c as nat / 16), hex_digit(c as nat % 16)]
    } else {
        seq![c]
    }
}

/// A text with each of its characters written as inside a JSON string.
pub open spec fn escaped(text: Seq<char>) -> Seq<char>
    decreases text.len(),
{
    if text.len() == 0 {
        Seq::empty()
    } else {
        escaped(text.drop_last()) + escape(text.last())
    }
}

/// A text between two quotes.
pub open spec fn quoted(text: Seq<char>) -> Seq<char> {
    seq!['"'] + text + seq!['"']
}

/// The JSON string that stands for a text: the text, escaped, between two
/// quotes.
pub open spec fn json_string(text: Seq<char>) -> Seq<char> {
    quoted(escaped(text))
}

/// `serde_json::Error`: what the JSON encoder reports when it cannot encode
/// a value. It is opaque here; only that there was an error is read.
#[verifier::external_type_specification]
#[verifier::external_body]
pub struct ExJsonError(serde_json::Error);

/// `serde_json::to_string`, on a string. The encoder writes a quote, then
/// the string with the quote, the backslash and the characters below the
/// space escaped as `escape` says and every other character copied, then a
/// quote. It writes into memory and takes the string as it is, so that
/// encoding a string does not fail.
#[verifier::external_body]
fn encode_json_string(text: &str) -> (encoded: Result<String, serde_json::Error>)
    ensures
        match encoded {
            Ok(json) => json@ == json_string(text@),
            Err(_) => false,
        },
{
    serde_json::to_string(text)
}

/// The object text around an already encoded key.
pub open spec fn framed(event_type: EventType, key_json: Seq<char>) -> Seq<char> {
    "{\"event_type\":\""@ + event_type.tag() + "\",\"key\":"@ + key_json + "}"@
}

/// The line that stands for a record.
pub open spec fn line_of(record: Record) -> Seq<char> {
    framed(record.event_type, json_string(record.key))
}

/// A text in which no line feed stands.
pub open spec fn single_line(text: Seq<char>) -> bool {
    !text.contains('\n')
}

/// A character that stands for itself inside a JSON string: any but the
/// quote, the backslash and the control characters below the space.
pub open spec fn plain_char(c: char) -> bool {
    c != '"' && c != '\\' && c as u32 >= 0x20
}

/// A text made of plain characters only.
pub open spec fn plain(text: Seq<char>) -> bool {
    forall|i: int| 0 <= i < text.len() ==> plain_char(#[trigger] text[i])
}

/// Joining two texts without a line feed gives a text without a line feed.
proof fn lemma_single_line_concat(a: Seq<char>, b: Seq<char>)
    requires
        single_line(a),
        single_line(b),
    ensures
        single_line(a + b),
{
}

/// No line feed stands in what is written for one character.
proof fn lemma_escape_single_line(c: char)
    ensures
        single_line(escape(c)),
{
    let written = escape(c);
    assert forall|i: int| 0 <= i < written.len() implies written[i] != '\n' by {
        if (c as u32) < 0x20 {
            let high = c as nat / 16;
            let low = c as nat % 16;
            assert(hex_digit(high) as u32 >= 48);
            assert(hex_digit(low) as u32 >= 48);
            assert('\n' as u32 == 10);
        }
    }
}

/// No line feed stands in an escaped text: where the text holds one, a
/// backslash and the letter `n` are written for it.
pub proof fn lemma_escaped_single_line(text: Seq<char>)
    ensures
        single_line(escaped(text)),
        single_line(json_string(text)),
    decreases text.len(),
{
    if text.len() > 0 {
        lemma_escaped_single_line(text.drop_last());
        lemma_escape_single_line(text.last());
        lemma_single_line_concat(escaped(text.drop_last()), escape(text.last()));
    }
    assert(single_line(seq!['"']));
    lemma_single_line_concat(seq!['"'], escaped(text));
    lemma_single_line_concat(seq!['"'] + escaped(text), seq!['"']);
}

/// A plain text needs no escape: its JSON string is the text itself
/// between two quotes.
pub proof fn lemma_plain_unescaped(text: Seq<char>)
    requires
        plain(text),
    ensures
        escaped(text) == text,
        json_string(text) == quoted(text),
    decreases text.len(),
{
    if text.len() > 0 {
        lemma_plain_unescaped(text.drop_last());
        assert(plain_char(text.last()));
        assert(text.drop_last() + seq![text.last()] =~= text);
    }
}

/// The frame adds no line feed to the key it is put around.
pub proof fn lemma_framed_single_line(event_type: EventType, key_json: Seq<char>)
    requires
        single_line(key_json),
    ensures
        single_line(framed(event_type, key_json)),
{
    reveal_strlit("{\"event_type\":\"");
    reveal_strlit("key_down");
    reveal_strlit("mouse_down");
    reveal_strlit("\",\"key\":");
    reveal_strlit("}");
    let open = "{\"event_type\":\""@;
    let middle = "\",\"key\":"@;
    let close = "}"@;
    lemma_single_line_concat(open, event_type.tag());
    lemma_single_line_concat(open + event_type.tag(), middle);
    lemma_single_line_concat(open + event_type.tag() + middle, key_json);
    lemma_single_line_concat(open + event_type.tag() + middle + key_json, close);
}

/// Every record has its line, and no line feed stands in it, whatever the
/// key holds.
pub proof fn lemma_line_is_single(record: Record)
    ensures
        single_line(line_of(record)),
{
    lemma_escaped_single_line(record.key);
    lemma_framed_single_line(record.event_type, json_string(record.key));
}

/// Puts the object text around an already encoded key:
/// `{"event_type":"<tag>","key":<key_json>}`.
pub fn frame_line(event_type: EventType, key_json: &str) -> (line: String)
    ensures
        line@ == framed(event_type, key_json@),
{
    let mut line = "{\"event_type\":\"".to_owned();
    line.append(event_type.as_str());
    line.append("\",\"key\":");
    line.append(key_json);
    line.append("}");
    line
}

/// Renders a record as its line, without the line feed that ends it. Every
/// record has a line; the result is optional only because the encoder's
/// answer is.
pub fn render_line(event: &BongoEvent) -> (line: Option<String>)
    ensures
        match line {
            Some(text) => text@ == line_of(event@) && single_line(text@),
            None => false,
        },
{
    proof {
        lemma_line_is_single(event@);
    }
    match encode_json_string(event.key()) {
        Ok(key_json) => Some(frame_line(event.event_type(), key_json.as_str())),
        Err(_) => None,
    }
}

} // verus!
