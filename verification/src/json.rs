//! JSON text: how a string is written as a JSON string literal.

use crate::base64url::{base64url, sextet_char};
use vstd::prelude::*;

verus! {

/// The lower-case hexadecimal digit of a value below sixteen.
pub open spec fn hex_digit(v: int) -> char {
    if v < 10 {
        ((48 + v) as u8) as char
    } else {
        ((87 + v) as u8) as char
    }
}

/// Whether a character stands for itself inside a JSON string literal.
pub open spec fn is_plain(c: char) -> bool {
    c != '"' && c != '\\' && c as int >= 32
}

/// How one character is written inside a JSON string literal: the quote and
/// the backslash behind a backslash, the control characters by their short
/// names or as `\u00` and two hexadecimal digits, every other character as
/// itself.
pub open spec fn json_escape(c: char) -> Seq<char> {
    if c == '"' {
        seq!['\\', '"']
    } else if c == '\\' {
        seq!['\\', '\\']
    } else if c == '\u{08}' {
        seq!['\\', 'b']
    } else if c == '\u{09}' {
        seq!['\\', 't']
    } else if c == '\u{0a}' {
        seq!['\\', 'n']
    } else if c == '\u{0c}' {
        seq!['\\', 'f']
    } else if c == '\u{0d}' {
        seq!['\\', 'r']
    } else if (c as int) < 32 {
        seq!['\\', 'u', '0', '0', hex_digit(c as int / 16), hex_digit(c as int % 16)]
    } else {
        seq![c]
    }
}

/// The characters of a text, each written as inside a JSON string literal.
pub open spec fn json_escaped(text: Seq<char>) -> Seq<char>
    decreases text.len(),
{
    if text.len() == 0 {
        Seq::empty()
    } else {
        json_escape(text[0]) + json_escaped(text.skip(1))
    }
}

/// The JSON string literal of a text.
pub open spec fn json_string_text(text: Seq<char>) -> Seq<char> {
    seq!['"'] + json_escaped(text) + seq!['"']
}

/// Calls `serde_json`'s serializer on a `Value::String`, through `Display`.
/// The crate writes a quote, the string with the escapes of its `ESCAPE`
/// table, and a quote: the escapes that `json_escape` states.
#[verifier::external_body]
fn serde_json_string(text: &str) -> (out: String)
    ensures
        out@ == json_string_text(text@),
{
    serde_json::Value::String(text.to_owned()).to_string()
}

/// Writes a text as a JSON string literal.
pub fn json_string(text: &str) -> (out: String)
    ensures
        out@ == json_string_text(text@),
{
    serde_json_string(text)
}

/// A text of plain characters is written between two quotes as it stands.
pub proof fn lemma_plain_text_is_quoted(text: Seq<char>)
    requires
        forall|i: int| 0 <= i < text.len() ==> is_plain(#[trigger] text[i]),
    ensures
        json_escaped(text) == text,
        json_string_text(text) == seq!['"'] + text + seq!['"'],
    decreases text.len(),
{
    if text.len() == 0 {
        assert(json_escaped(text) =~= text);
    } else {
        lemma_plain_text_is_quoted(text.skip(1));
        assert(is_plain(text[0]));
        assert(json_escape(text[0]) =~= seq![text[0]]);
        assert(seq![text[0]] + text.skip(1) =~= text);
    }
}

/// Every character of the URL-safe alphabet is plain.
pub proof fn lemma_sextet_char_is_plain(v: int)
    requires
        0 <= v < 64,
    ensures
        is_plain(sextet_char(v)),
{
    reveal(sextet_char);
}

/// Every character of a base64url text is plain, so the text needs no
/// escape in a JSON string literal.
pub proof fn lemma_base64url_is_plain(bytes: Seq<u8>)
    ensures
        forall|i: int| 0 <= i < base64url(bytes).len() ==> is_plain(#[trigger] base64url(bytes)[i]),
    decreases bytes.len(),
{
    let text = base64url(bytes);
    if bytes.len() == 0 {
    } else if bytes.len() == 1 {
        let b0 = bytes[0] as int;
        lemma_sextet_char_is_plain(b0 / 4);
        lemma_sextet_char_is_plain((b0 % 4) * 16);
    } else if bytes.len() == 2 {
        let b0 = bytes[0] as int;
        let b1 = bytes[1] as int;
        lemma_sextet_char_is_plain(b0 / 4);
        lemma_sextet_char_is_plain((b0 % 4) * 16 + b1 / 16);
        lemma_sextet_char_is_plain((b1 % 16) * 4);
    } else {
        let b0 = bytes[0] as int;
        let b1 = bytes[1] as int;
        let b2 = bytes[2] as int;
        lemma_sextet_char_is_plain(b0 / 4);
        lemma_sextet_char_is_plain((b0 % 4) * 16 + b1 / 16);
        lemma_sextet_char_is_plain((b1 % 16) * 4 + b2 / 64);
        lemma_sextet_char_is_plain(b2 % 64);
        lemma_base64url_is_plain(bytes.skip(3));
        let rest = base64url(bytes.skip(3));
        assert forall|i: int| 0 <= i < text.len() implies is_plain(#[trigger] text[i]) by {
            if i >= 4 {
                assert(text[i] == rest[i - 4]);
            }
        }
    }
}

} // verus!
