//! The base64url codec without padding.

use vstd::prelude::*;

verus! {

/// The character of the URL-safe alphabet that stands for a six-bit value:
/// `A` to `Z`, `a` to `z`, `0` to `9`, `-` and `_`, in that order.
#[verifier::opaque]
pub open spec fn sextet_char(v: int) -> char {
    if v < 26 {
        ((65 + v) as u8) as char
    } else if v < 52 {
        ((71 + v) as u8) as char
    } else if v < 62 {
        ((v - 4) as u8) as char
    } else if v == 62 {
        '-'
    } else {
        '_'
    }
}

/// The six-bit value that a character of the URL-safe alphabet stands for.
#[verifier::opaque]
pub open spec fn sextet_value(c: char) -> Option<int> {
    if 'A' <= c && c <= 'Z' {
        Some(c as int - 65)
    } else if 'a' <= c && c <= 'z' {
        Some(c as int - 71)
    } else if '0' <= c && c <= '9' {
        Some(c as int + 4)
    } else if c == '-' {
        Some(62)
    } else if c == '_' {
        Some(63)
    } else {
        None
    }
}

/// The four characters that encode three bytes.
pub open spec fn encode_triple(b0: u8, b1: u8, b2: u8) -> Seq<char> {
    seq![
        sextet_char(b0 as int / 4),
        sextet_char((b0 as int % 4) * 16 + b1 as int / 16),
        sextet_char((b1 as int % 16) * 4 + b2 as int / 64),
        sextet_char(b2 as int % 64),
    ]
}

/// The base64url text of a byte string: the URL-safe alphabet, no padding.
pub open spec fn base64url(bytes: Seq<u8>) -> Seq<char>
    decreases bytes.len(),
{
    if bytes.len() == 0 {
        Seq::empty()
    } else if bytes.len() == 1 {
        seq![sextet_char(bytes[0] as int / 4), sextet_char((bytes[0] as int % 4) * 16)]
    } else if bytes.len() == 2 {
        seq![
            sextet_char(bytes[0] as int / 4),
            sextet_char((bytes[0] as int % 4) * 16 + bytes[1] as int / 16),
            sextet_char((bytes[1] as int % 16) * 4),
        ]
    } else {
        encode_triple(bytes[0], bytes[1], bytes[2]) + base64url(bytes.skip(3))
    }
}

/// Calls `base64::encode_config` with `base64::URL_SAFE_NO_PAD`. The crate
/// documents that configuration as the URL-safe character set without
/// padding; the contract states that encoding. The crate panics only where
/// the encoded size, four thirds of the length, overflows `usize`; a slice
/// holds at most `isize::MAX` bytes, so that cannot happen.
#[verifier::external_body]
fn encode_url_safe_no_pad(bytes: &[u8]) -> (text: String)
    ensures
        text@ == base64url(bytes@),
{
    base64::encode_config(bytes, base64::URL_SAFE_NO_PAD)
}

/// Returns the base64url encoding of the input.
pub fn b64(to_encode: &[u8]) -> (text: String)
    ensures
        text@ == base64url(to_encode@),
{
    encode_url_safe_no_pad(to_encode)
}

/// What follows a decoded prefix: the prefix in front of the decoded rest,
/// or nothing where the rest does not decode.
pub open spec fn decoded_after(prefix: Seq<u8>, rest: Option<Seq<u8>>) -> Option<Seq<u8>> {
    match rest {
        Some(bytes) => Some(prefix + bytes),
        None => None,
    }
}

/// The three bytes that four six-bit values hold.
pub open spec fn decode_quad(a: int, b: int, c: int, d: int) -> Seq<u8> {
    seq![(a * 4 + b / 16) as u8, ((b % 16) * 16 + c / 4) as u8, ((c % 4) * 64 + d) as u8]
}

/// The byte string that a text is the base64url encoding of, if there is one.
pub open spec fn base64url_decoded(text: Seq<char>) -> Option<Seq<u8>>
    decreases text.len(),
{
    if text.len() == 0 {
        Some(Seq::empty())
    } else if text.len() == 1 {
        None
    } else if text.len() == 2 {
        match (sextet_value(text[0]), sextet_value(text[1])) {
            (Some(a), Some(b)) => if b % 16 == 0 {
                Some(seq![(a * 4 + b / 16) as u8])
            } else {
                None
            },
            _ => None,
        }
    } else if text.len() == 3 {
        match (sextet_value(text[0]), sextet_value(text[1]), sextet_value(text[2])) {
            (Some(a), Some(b), Some(c)) => if c % 4 == 0 {
                Some(seq![(a * 4 + b / 16) as u8, ((b % 16) * 16 + c / 4) as u8])
            } else {
                None
            },
            _ => None,
        }
    } else {
        match (
            sextet_value(text[0]),
            sextet_value(text[1]),
            sextet_value(text[2]),
            sextet_value(text[3]),
        ) {
            (Some(a), Some(b), Some(c), Some(d)) => decoded_after(
                decode_quad(a, b, c, d),
                base64url_decoded(text.skip(4)),
            ),
            _ => None,
        }
    }
}

proof fn lemma_sextet_value_of_char(v: int)
    requires
        0 <= v < 64,
    ensures
        sextet_value(sextet_char(v)) == Some(v),
{
    reveal(sextet_char);
    reveal(sextet_value);
}

proof fn lemma_sextet_char_of_value(c: char)
    ensures
        sextet_value(c) matches Some(v) ==> 0 <= v < 64 && sextet_char(v) == c,
{
    reveal(sextet_char);
    reveal(sextet_value);
}

/// The six-bit values of three bytes hold those bytes.
proof fn lemma_quad_of_triple(b0: int, b1: int, b2: int)
    requires
        0 <= b0 < 256,
        0 <= b1 < 256,
        0 <= b2 < 256,
    ensures
        ({
            let a = b0 / 4;
            let b = (b0 % 4) * 16 + b1 / 16;
            let c = (b1 % 16) * 4 + b2 / 64;
            let d = b2 % 64;
            &&& 0 <= a < 64
            &&& 0 <= b < 64
            &&& 0 <= c < 64
            &&& 0 <= d < 64
            &&& a * 4 + b / 16 == b0
            &&& (b % 16) * 16 + c / 4 == b1
            &&& (c % 4) * 64 + d == b2
            &&& ((b0 % 4) * 16) % 16 == 0
            &&& ((b1 % 16) * 4) % 4 == 0
            &&& 0 <= (b0 % 4) * 16 < 64
            &&& 0 <= (b1 % 16) * 4 < 64
            &&& a * 4 + ((b0 % 4) * 16) / 16 == b0
            &&& (b % 16) * 16 + ((b1 % 16) * 4) / 4 == b1
        }),
{
}

/// The bytes that four six-bit values hold have those values.
proof fn lemma_triple_of_quad(a: int, b: int, c: int, d: int)
    requires
        0 <= a < 64,
        0 <= b < 64,
        0 <= c < 64,
        0 <= d < 64,
    ensures
        ({
            let b0 = a * 4 + b / 16;
            let b1 = (b % 16) * 16 + c / 4;
            let b2 = (c % 4) * 64 + d;
            &&& 0 <= b0 < 256
            &&& 0 <= b1 < 256
            &&& 0 <= b2 < 256
            &&& b0 / 4 == a
            &&& (b0 % 4) * 16 + b1 / 16 == b
            &&& (b1 % 16) * 4 + b2 / 64 == c
            &&& b2 % 64 == d
            &&& (b % 16 == 0 ==> (b0 % 4) * 16 == b)
            &&& (c % 4 == 0 ==> (b1 % 16) * 4 == c)
        }),
{
}

/// Decoding undoes encoding: every byte string comes back from its
/// base64url text.
pub proof fn lemma_decode_encode(bytes: Seq<u8>)
    ensures
        base64url_decoded(base64url(bytes)) == Some(bytes),
    decreases bytes.len(),
{
    let text = base64url(bytes);
    if bytes.len() == 0 {
        assert(bytes =~= Seq::empty());
    } else if bytes.len() == 1 {
        let b0 = bytes[0] as int;
        lemma_quad_of_triple(b0, 0, 0);
        let a = b0 / 4;
        let b = (b0 % 4) * 16;
        lemma_sextet_value_of_char(a);
        lemma_sextet_value_of_char(b);
        assert(text.len() == 2 && text[0] == sextet_char(a) && text[1] == sextet_char(b));
        assert(bytes =~= seq![(a * 4 + b / 16) as u8]);
    } else if bytes.len() == 2 {
        let b0 = bytes[0] as int;
        let b1 = bytes[1] as int;
        lemma_quad_of_triple(b0, b1, 0);
        let a = b0 / 4;
        let b = (b0 % 4) * 16 + b1 / 16;
        let c = (b1 % 16) * 4;
        lemma_sextet_value_of_char(a);
        lemma_sextet_value_of_char(b);
        lemma_sextet_value_of_char(c);
        assert(text.len() == 3 && text[0] == sextet_char(a) && text[1] == sextet_char(b)
            && text[2] == sextet_char(c));
        assert(bytes =~= seq![(a * 4 + b / 16) as u8, ((b % 16) * 16 + c / 4) as u8]);
    } else {
        let b0 = bytes[0] as int;
        let b1 = bytes[1] as int;
        let b2 = bytes[2] as int;
        lemma_quad_of_triple(b0, b1, b2);
        let a = b0 / 4;
        let b = (b0 % 4) * 16 + b1 / 16;
        let c = (b1 % 16) * 4 + b2 / 64;
        let d = b2 % 64;
        lemma_sextet_value_of_char(a);
        lemma_sextet_value_of_char(b);
        lemma_sextet_value_of_char(c);
        lemma_sextet_value_of_char(d);
        lemma_decode_encode(bytes.skip(3));
        let head = encode_triple(bytes[0], bytes[1], bytes[2]);
        assert(head.len() == 4 && head[0] == sextet_char(a) && head[1] == sextet_char(b)
            && head[2] == sextet_char(c) && head[3] == sextet_char(d));
        assert(text == head + base64url(bytes.skip(3)));
        assert(text.len() >= 4 && text[0] == head[0] && text[1] == head[1] && text[2] == head[2]
            && text[3] == head[3]);
        assert(text.skip(4) =~= base64url(bytes.skip(3)));
        assert(decode_quad(a, b, c, d) =~= bytes.take(3));
        assert(bytes =~= bytes.take(3) + bytes.skip(3));
    }
}

/// Encoding undoes decoding: a text that decodes is the base64url text of
/// what it decodes to.
pub proof fn lemma_encode_decode(text: Seq<char>)
    ensures
        base64url_decoded(text) matches Some(bytes) ==> base64url(bytes) == text,
    decreases text.len(),
{
    match base64url_decoded(text) {
        Some(bytes) => {
            if text.len() == 0 {
                assert(text =~= Seq::empty());
            } else if text.len() == 2 {
                lemma_sextet_char_of_value(text[0]);
                lemma_sextet_char_of_value(text[1]);
                let a = sextet_value(text[0])->Some_0;
                let b = sextet_value(text[1])->Some_0;
                lemma_triple_of_quad(a, b, 0, 0);
                assert(bytes.len() == 1 && bytes[0] as int == a * 4 + b / 16);
                assert(base64url(bytes) =~= text);
            } else if text.len() == 3 {
                lemma_sextet_char_of_value(text[0]);
                lemma_sextet_char_of_value(text[1]);
                lemma_sextet_char_of_value(text[2]);
                let a = sextet_value(text[0])->Some_0;
                let b = sextet_value(text[1])->Some_0;
                let c = sextet_value(text[2])->Some_0;
                lemma_triple_of_quad(a, b, c, 0);
                assert(bytes.len() == 2 && bytes[0] as int == a * 4 + b / 16 && bytes[1] as int == (b
                    % 16) * 16 + c / 4);
                assert(base64url(bytes) =~= text);
            } else {
                lemma_sextet_char_of_value(text[0]);
                lemma_sextet_char_of_value(text[1]);
                lemma_sextet_char_of_value(text[2]);
                lemma_sextet_char_of_value(text[3]);
                lemma_encode_decode(text.skip(4));
                let rest = base64url_decoded(text.skip(4))->Some_0;
                let a = sextet_value(text[0])->Some_0;
                let b = sextet_value(text[1])->Some_0;
                let c = sextet_value(text[2])->Some_0;
                let d = sextet_value(text[3])->Some_0;
                lemma_triple_of_quad(a, b, c, d);
                let quad = decode_quad(a, b, c, d);
                assert(bytes == quad + rest);
                assert(bytes.len() >= 3 && bytes[0] == quad[0] && bytes[1] == quad[1] && bytes[2]
                    == quad[2]);
                assert(bytes.skip(3) =~= rest);
                assert(encode_triple(bytes[0], bytes[1], bytes[2]) =~= text.take(4));
                assert(text =~= text.take(4) + text.skip(4));
            }
        },
        None => {},
    }
}

/// Whether a character is white space.
pub open spec fn is_whitespace(c: char) -> bool {
    c == ' ' || c == '\t' || c == '\n' || c == '\r'
}

/// A base64url text holds no padding and no white space: every character
/// is of the URL-safe alphabet.
pub proof fn lemma_base64url_has_no_padding(bytes: Seq<u8>)
    ensures
        in_alphabet(base64url(bytes)),
        forall|i: int|
            0 <= i < base64url(bytes).len() ==> (#[trigger] base64url(bytes)[i]) != '='
                && !is_whitespace(base64url(bytes)[i]),
{
    let text = base64url(bytes);
    lemma_decode_encode(bytes);
    assert forall|i: int| 0 <= i < text.len() implies sextet_value(#[trigger] text[i]) is Some
        && text[i] != '=' && !is_whitespace(text[i]) by {
        lemma_decodes_only_alphabet(text, i);
        reveal(sextet_value);
    }
}

/// A base64url text has four characters for every three bytes, two for one
/// byte that is left over and three for two: nothing pads it to a multiple
/// of four.
pub proof fn lemma_base64url_len(bytes: Seq<u8>)
    ensures
        base64url(bytes).len() == (4 * bytes.len() + 2) / 3,
    decreases bytes.len(),
{
    if bytes.len() >= 3 {
        lemma_base64url_len(bytes.skip(3));
    }
}

/// No text is the encoding of two byte strings, and a text that does not
/// decode is the encoding of none.
pub proof fn lemma_decoded_is_the_only_preimage(text: Seq<char>, bytes: Seq<u8>)
    ensures
        base64url(bytes) == text <==> base64url_decoded(text) == Some(bytes),
{
    lemma_decode_encode(bytes);
    lemma_encode_decode(text);
}

/// The six-bit value of one byte of text.
fn sextet_of_byte(x: u8) -> (v: Option<u8>)
    ensures
        x < 128 ==> match v {
            Some(k) => sextet_value(x as char) == Some(k as int),
            None => sextet_value(x as char) is None,
        },
        v matches Some(k) ==> k < 64,
{
    reveal(sextet_value);
    if 65 <= x && x <= 90 {
        Some(x - 65)
    } else if 97 <= x && x <= 122 {
        Some(x - 71)
    } else if 48 <= x && x <= 57 {
        Some(x + 4)
    } else if x == 45 {
        Some(62)
    } else if x == 95 {
        Some(63)
    } else {
        None
    }
}

/// Decodes a base64url text. It yields the bytes whose encoding the text is,
/// and nothing where the text is the encoding of no byte string: a character
/// outside the alphabet, a padding character, an impossible length or stray
/// bits in the last character.
pub fn b64_decode(text: &str) -> (out: Option<Vec<u8>>)
    ensures
        match out {
            Some(bytes) => base64url_decoded(text@) == Some(bytes@) && base64url(bytes@) == text@,
            None => base64url_decoded(text@) is None && forall|bytes: Seq<u8>|
                #[trigger] base64url(bytes) != text@,
        },
{
    proof {
        lemma_encode_decode(text@);
        lemma_undecodable_has_no_preimage(text@);
    }
    if !text.is_ascii() {
        proof {
            lemma_non_ascii_does_not_decode(text@);
        }
        return None;
    }
    let raw = text.as_bytes();
    proof {
        vstd::utf8::is_ascii_chars_encode_utf8(text@);
    }
    let n = raw.len();
    let mut out: Vec<u8> = Vec::new();
    let mut i: usize = 0;
    assert(text@.skip(0) =~= text@);
    proof {
        match base64url_decoded(text@) {
            Some(all) => {
                assert(Seq::<u8>::empty() + all =~= all);
            },
            None => {},
        }
    }
    while n - i >= 4
        invariant
            n == raw@.len(),
            n == text@.len(),
            i <= n,
            vstd::utf8::is_ascii_chars(text@),
            forall|k: int| 0 <= k < n ==> text@[k] as u8 == #[trigger] raw@[k],
            base64url_decoded(text@) == decoded_after(out@, base64url_decoded(text@.skip(i as int))),
        decreases n - i,
    {
        let ghost rest = text@.skip(i as int);
        assert(rest.len() >= 4);
        assert(rest[0] == text@[i as int] && rest[1] == text@[i + 1] && rest[2] == text@[i + 2]
            && rest[3] == text@[i + 3]);
        assert(rest.skip(4) =~= text@.skip(i + 4));
        let a = sextet_of_byte(raw[i]);
        let b = sextet_of_byte(raw[i + 1]);
        let c = sextet_of_byte(raw[i + 2]);
        let d = sextet_of_byte(raw[i + 3]);
        match (a, b, c, d) {
            (Some(a), Some(b), Some(c), Some(d)) => {
                let ghost before = out@;
                out.push(a * 4 + b / 16);
                out.push((b % 16) * 16 + c / 4);
                out.push((c % 4) * 64 + d);
                proof {
                    let quad = decode_quad(a as int, b as int, c as int, d as int);
                    assert(out@ =~= before + quad);
                    match base64url_decoded(rest.skip(4)) {
                        Some(tail) => {
                            assert(before + (quad + tail) =~= (before + quad) + tail);
                        },
                        None => {},
                    }
                }
                i = i + 4;
            },
            _ => {
                proof {
                    lemma_undecodable_has_no_preimage(text@);
                }
                return None;
            },
        }
    }
    let ghost rest = text@.skip(i as int);
    if n - i == 0 {
        assert(out@ + Seq::<u8>::empty() =~= out@);
        Some(out)
    } else if n - i == 1 {
        None
    } else if n - i == 2 {
        assert(rest[0] == text@[i as int] && rest[1] == text@[i + 1]);
        match (sextet_of_byte(raw[i]), sextet_of_byte(raw[i + 1])) {
            (Some(a), Some(b)) => {
                if b % 16 == 0 {
                    let ghost before = out@;
                    out.push(a * 4 + b / 16);
                    assert(out@ =~= before + seq![(a * 4 + b / 16) as u8]);
                    Some(out)
                } else {
                    None
                }
            },
            _ => None,
        }
    } else {
        assert(rest[0] == text@[i as int] && rest[1] == text@[i + 1] && rest[2] == text@[i + 2]);
        match (sextet_of_byte(raw[i]), sextet_of_byte(raw[i + 1]), sextet_of_byte(raw[i + 2])) {
            (Some(a), Some(b), Some(c)) => {
                if c % 4 == 0 {
                    let ghost before = out@;
                    out.push(a * 4 + b / 16);
                    out.push((b % 16) * 16 + c / 4);
                    assert(out@ =~= before + seq![
                        (a * 4 + b / 16) as u8,
                        ((b % 16) * 16 + c / 4) as u8,
                    ]);
                    Some(out)
                } else {
                    None
                }
            },
            _ => None,
        }
    }
}

proof fn lemma_undecodable_has_no_preimage(text: Seq<char>)
    ensures
        base64url_decoded(text) is None ==> forall|bytes: Seq<u8>| #[trigger]
            base64url(bytes) != text,
{
    assert forall|bytes: Seq<u8>| base64url_decoded(text) is None implies #[trigger] base64url(
        bytes,
    ) != text by {
        lemma_decode_encode(bytes);
    }
}

/// Whether every character of a text is of the URL-safe alphabet.
pub open spec fn in_alphabet(text: Seq<char>) -> bool {
    forall|i: int| 0 <= i < text.len() ==> sextet_value(#[trigger] text[i]) is Some
}

/// Whether every character of a text is of the URL-safe alphabet.
pub fn is_in_alphabet(text: &str) -> (all: bool)
    ensures
        all == in_alphabet(text@),
{
    if !text.is_ascii() {
        proof {
            let k = choose|k: int| 0 <= k < text@.len() && !('\0' <= #[trigger] text@[k] <= '\u{7f}');
            reveal(sextet_value);
            assert(sextet_value(text@[k]) is None);
        }
        return false;
    }
    let raw = text.as_bytes();
    proof {
        vstd::utf8::is_ascii_chars_encode_utf8(text@);
    }
    let mut i: usize = 0;
    while i < raw.len()
        invariant
            raw@.len() == text@.len(),
            i <= raw@.len(),
            vstd::utf8::is_ascii_chars(text@),
            forall|k: int| 0 <= k < raw@.len() ==> text@[k] as u8 == #[trigger] raw@[k],
            forall|k: int| 0 <= k < i ==> sextet_value(#[trigger] text@[k]) is Some,
        decreases raw@.len() - i,
    {
        if sextet_of_byte(raw[i]).is_none() {
            assert(sextet_value(text@[i as int]) is None);
            return false;
        }
        i = i + 1;
    }
    true
}

/// Every character of a text that decodes is in the alphabet.
pub proof fn lemma_decodes_only_alphabet(text: Seq<char>, k: int)
    requires
        base64url_decoded(text) is Some,
        0 <= k < text.len(),
    ensures
        sextet_value(text[k]) is Some,
    decreases text.len(),
{
    if text.len() >= 4 && k >= 4 {
        lemma_decodes_only_alphabet(text.skip(4), k - 4);
    }
}

proof fn lemma_non_ascii_does_not_decode(text: Seq<char>)
    requires
        !vstd::utf8::is_ascii_chars(text),
    ensures
        base64url_decoded(text) is None,
{
    if base64url_decoded(text) is Some {
        let k = choose|k: int| 0 <= k < text.len() && !('\0' <= #[trigger] text[k] <= '\u{7f}');
        lemma_decodes_only_alphabet(text, k);
        reveal(sextet_value);
    }
}

} // verus!
