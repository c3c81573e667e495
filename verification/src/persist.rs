//! What one issuance leaves behind: the leaf certificate, the full chain
//! and, where the client made it, the key pair of the certificate.

use crate::crypto::KeyPair;
use crate::text::{chars_of, is_prefix, starts_with_at, string_of};
use crate::util::Certificate;
use vstd::prelude::*;
use vstd::utf8::encode_utf8;

verus! {

/// The place of the first line feed of a text, or the length of the text
/// where it has none.
pub open spec fn line_end(text: Seq<char>) -> nat
    decreases text.len(),
{
    if text.len() == 0 || text[0] == '\n' {
        0
    } else {
        1 + line_end(text.skip(1))
    }
}

/// The first line of a text, without its line ending: a line feed, or a
/// carriage return and a line feed.
pub open spec fn first_line(text: Seq<char>) -> Seq<char> {
    let end = line_end(text) as int;
    if 0 < end < text.len() && text[end - 1] == '\r' {
        text.take(end - 1)
    } else {
        text.take(end)
    }
}

/// What follows the first line of a text and its line ending.
pub open spec fn after_first_line(text: Seq<char>) -> Seq<char> {
    let end = line_end(text) as int;
    if end < text.len() {
        text.skip(end + 1)
    } else {
        Seq::empty()
    }
}

/// Whether a line opens a PEM block.
pub open spec fn opens_pem_block(line: Seq<char>) -> bool {
    is_prefix(line, "-----BEGIN"@)
}

/// Whether a line closes a PEM block.
pub open spec fn closes_pem_block(line: Seq<char>) -> bool {
    is_prefix(line, "-----END"@)
}

/// The lines of a text up to the first line that closes a PEM block, that
/// line with them, each ended by a carriage return and a line feed. There
/// are none where no line of the text closes a block.
pub open spec fn block_rest(text: Seq<char>) -> Option<Seq<char>>
    decreases text.len(),
{
    if text.len() == 0 {
        None
    } else {
        let line = first_line(text);
        if closes_pem_block(line) {
            Some(line + "\r\n"@)
        } else {
            match block_rest(after_first_line(text)) {
                Some(rest) => Some(line + "\r\n"@ + rest),
                None => None,
            }
        }
    }
}

/// The first PEM block of a text: the lines from the first line that opens
/// a block to the first line after it that closes one, each ended by a
/// carriage return and a line feed. There is none where no line opens a
/// block, or none closes it.
pub open spec fn first_pem_block(text: Seq<char>) -> Option<Seq<char>>
    decreases text.len(),
{
    if text.len() == 0 {
        None
    } else {
        let line = first_line(text);
        if opens_pem_block(line) {
            match block_rest(after_first_line(text)) {
                Some(rest) => Some(line + "\r\n"@ + rest),
                None => None,
            }
        } else {
            first_pem_block(after_first_line(text))
        }
    }
}

/// The leaf certificate of a PEM chain: the first PEM block of the chain,
/// with CRLF line endings, and the empty text where the chain has no block.
pub open spec fn leaf_certificate_text(chain: Seq<char>) -> Seq<char> {
    match first_pem_block(chain) {
        Some(block) => block,
        None => Seq::empty(),
    }
}

proof fn lemma_line_end(text: Seq<char>, end: int)
    requires
        0 <= end <= text.len(),
        forall|k: int| 0 <= k < end ==> text[k] != '\n',
        end == text.len() || text[end] == '\n',
    ensures
        line_end(text) == end,
    decreases end,
{
    if end > 0 {
        lemma_line_end(text.skip(1), end - 1);
    }
}

/// Finds the first line of what is left of a text: where the line stops,
/// and where what follows it starts.
fn next_line(chars: &Vec<char>, start: usize) -> (out: (usize, usize))
    requires
        start < chars.len(),
    ensures
        start <= out.0 <= chars.len(),
        start < out.1 <= chars.len(),
        first_line(chars@.skip(start as int)) == chars@.subrange(start as int, out.0 as int),
        after_first_line(chars@.skip(start as int)) == chars@.skip(out.1 as int),
{
    let n = chars.len();
    let ghost rest = chars@.skip(start as int);
    let mut j: usize = start;
    while j < n && chars[j] != '\n'
        invariant
            n == chars@.len(),
            start <= j <= n,
            forall|k: int| start <= k < j ==> chars@[k] != '\n',
        decreases n - j,
    {
        j = j + 1;
    }
    proof {
        lemma_line_end(rest, j - start);
    }
    let stop: usize = if j < n && j > start && chars[j - 1] == '\r' {
        j - 1
    } else {
        j
    };
    let next: usize = if j < n {
        j + 1
    } else {
        n
    };
    assert(first_line(rest) =~= chars@.subrange(start as int, stop as int));
    assert(after_first_line(rest) =~= chars@.skip(next as int));
    (stop, next)
}

/// Whether the line of a text from `start` to `stop` begins with a mark of
/// at least one character.
fn line_begins_with(chars: &Vec<char>, start: usize, stop: usize, mark: &str) -> (begins: bool)
    requires
        start <= stop <= chars.len(),
    ensures
        begins == is_prefix(chars@.subrange(start as int, stop as int), mark@),
{
    let length = mark.unicode_len();
    let begins = stop - start >= length && starts_with_at(chars, start, mark);
    proof {
        let line = chars@.subrange(start as int, stop as int);
        let rest = chars@.skip(start as int);
        if stop - start >= length {
            assert(line.take(length as int) =~= rest.take(length as int));
        }
    }
    begins
}

/// Copies the line of a text from `start` to `stop` to the end of `out`,
/// and ends it with a carriage return and a line feed.
fn copy_line(out: &mut Vec<char>, chars: &Vec<char>, start: usize, stop: usize)
    requires
        start <= stop <= chars.len(),
    ensures
        final(out)@ == old(out)@ + (chars@.subrange(start as int, stop as int) + "\r\n"@),
{
    let ghost before = out@;
    let mut k: usize = start;
    while k < stop
        invariant
            start <= k <= stop <= chars.len(),
            out@ == before + chars@.subrange(start as int, k as int),
        decreases stop - k,
    {
        out.push(chars[k]);
        assert(chars@.subrange(start as int, k + 1) =~= chars@.subrange(start as int, k as int).push(
            chars@[k as int],
        ));
        k = k + 1;
    }
    out.push('\r');
    out.push('\n');
    proof {
        reveal_strlit("\r\n");
        assert("\r\n"@ =~= seq!['\r', '\n']);
        assert(out@ =~= before + (chars@.subrange(start as int, stop as int) + "\r\n"@));
    }
}

/// Extracts the certificate that was issued for the domain: the first PEM
/// block of the chain, with CRLF line endings.
pub fn leaf_certificate(chain: &str) -> (leaf: String)
    ensures
        leaf@ == leaf_certificate_text(chain@),
{
    let chars = chars_of(chain);
    let n = chars.len();
    let mut out: Vec<char> = Vec::new();
    let mut i: usize = 0;
    assert(chars@.skip(0) =~= chars@);
    loop
        invariant_except_break
            i <= n,
            out@.len() == 0,
            first_pem_block(chars@) == first_pem_block(chars@.skip(i as int)),
        invariant
            n == chars@.len(),
            chars@ == chain@,
        ensures
            i <= n,
            first_pem_block(chars@) == match block_rest(chars@.skip(i as int)) {
                Some(rest) => Some(out@ + rest),
                None => None,
            },
        decreases n - i,
    {
        if i >= n {
            assert(chars@.skip(i as int).len() == 0);
            return String::new();
        }
        let (stop, next) = next_line(&chars, i);
        if line_begins_with(&chars, i, stop, "-----BEGIN") {
            copy_line(&mut out, &chars, i, stop);
            proof {
                let line = chars@.subrange(i as int, stop as int);
                assert(out@ =~= line + "\r\n"@);
                match block_rest(chars@.skip(next as int)) {
                    Some(rest) => {
                        assert(line + "\r\n"@ + rest =~= out@ + rest);
                    },
                    None => {},
                }
            }
            i = next;
            break;
        }
        i = next;
    }
    loop
        invariant
            n == chars@.len(),
            chars@ == chain@,
            i <= n,
            first_pem_block(chars@) == match block_rest(chars@.skip(i as int)) {
                Some(rest) => Some(out@ + rest),
                None => None,
            },
        decreases n - i,
    {
        if i >= n {
            assert(chars@.skip(i as int).len() == 0);
            return String::new();
        }
        let ghost before = out@;
        let (stop, next) = next_line(&chars, i);
        let closes = line_begins_with(&chars, i, stop, "-----END");
        copy_line(&mut out, &chars, i, stop);
        if closes {
            return string_of(&out);
        }
        proof {
            let line = chars@.subrange(i as int, stop as int);
            match block_rest(chars@.skip(next as int)) {
                Some(rest) => {
                    assert(before + (line + "\r\n"@ + rest) =~= (before + (line + "\r\n"@)) + rest);
                },
                None => {},
            }
        }
        i = next;
    }
}

/// Whether a text is one line without its ending: it holds no line feed, and
/// no carriage return at its end.
pub open spec fn is_line(line: Seq<char>) -> bool {
    (forall|i: int| 0 <= i < line.len() ==> line[i] != '\n') && (line.len() == 0 || line.last()
        != '\r')
}

/// The ending of a line: a line feed, with a carriage return before it or
/// not.
pub open spec fn line_ending(crlf: bool) -> Seq<char> {
    if crlf {
        "\r\n"@
    } else {
        "\n"@
    }
}

/// The text of some lines, each with its ending.
pub open spec fn lines_text(lines: Seq<Seq<char>>, crlf: bool) -> Seq<char>
    decreases lines.len(),
{
    if lines.len() == 0 {
        Seq::empty()
    } else {
        lines[0] + line_ending(crlf) + lines_text(lines.skip(1), crlf)
    }
}

proof fn lemma_first_line_of(line: Seq<char>, crlf: bool, tail: Seq<char>)
    requires
        is_line(line),
    ensures
        (line + line_ending(crlf) + tail).len() > 0,
        first_line(line + line_ending(crlf) + tail) == line,
        after_first_line(line + line_ending(crlf) + tail) == tail,
{
    reveal_strlit("\r\n");
    reveal_strlit("\n");
    let text = line + line_ending(crlf) + tail;
    let end = line.len() + (if crlf {
        1int
    } else {
        0int
    });
    assert(forall|k: int| 0 <= k < line.len() ==> text[k] == line[k]);
    assert(text[end] == '\n');
    lemma_line_end(text, end);
    assert(first_line(text) =~= line);
    assert(after_first_line(text) =~= tail);
}

proof fn lemma_block_rest(lines: Seq<Seq<char>>, rest: Seq<char>, crlf: bool)
    requires
        lines.len() >= 1,
        forall|i: int| 0 <= i < lines.len() ==> is_line(#[trigger] lines[i]),
        closes_pem_block(lines.last()),
        forall|i: int| 0 <= i < lines.len() - 1 ==> !closes_pem_block(#[trigger] lines[i]),
    ensures
        block_rest(lines_text(lines, crlf) + rest) == Some(lines_text(lines, true)),
    decreases lines.len(),
{
    let line = lines[0];
    let later = lines.skip(1);
    let tail = lines_text(later, crlf) + rest;
    let text = lines_text(lines, crlf) + rest;
    assert(text =~= line + line_ending(crlf) + tail);
    lemma_first_line_of(line, crlf, tail);
    if lines.len() == 1 {
        assert(lines_text(later, true) =~= Seq::<char>::empty());
        assert(lines_text(lines, true) =~= line + "\r\n"@);
    } else {
        assert(later.last() == lines.last());
        assert forall|i: int| 0 <= i < later.len() implies is_line(#[trigger] later[i]) by {
            assert(later[i] == lines[i + 1]);
        }
        assert forall|i: int| 0 <= i < later.len() - 1 implies !closes_pem_block(
            #[trigger] later[i],
        ) by {
            assert(later[i] == lines[i + 1]);
        }
        lemma_block_rest(later, rest, crlf);
    }
}

/// The leaf certificate of a PEM chain is exactly the first PEM block of the
/// chain. Let a chain be some lines of which none opens a block, then the
/// lines of a block, from the line that opens it to the first line that
/// closes one, and then anything at all; let its lines end in a line feed,
/// with or without a carriage return before it. Then the leaf certificate is
/// the lines of the block, each ended by a carriage return and a line feed.
pub proof fn lemma_leaf_is_the_first_block(
    before: Seq<Seq<char>>,
    block: Seq<Seq<char>>,
    rest: Seq<char>,
    crlf: bool,
)
    requires
        forall|i: int| 0 <= i < before.len() ==> is_line(#[trigger] before[i]),
        forall|i: int| 0 <= i < before.len() ==> !opens_pem_block(#[trigger] before[i]),
        block.len() >= 2,
        forall|i: int| 0 <= i < block.len() ==> is_line(#[trigger] block[i]),
        opens_pem_block(block[0]),
        closes_pem_block(block.last()),
        forall|i: int| 1 <= i < block.len() - 1 ==> !closes_pem_block(#[trigger] block[i]),
    ensures
        leaf_certificate_text(lines_text(before, crlf) + lines_text(block, crlf) + rest)
            == lines_text(block, true),
    decreases before.len(),
{
    let text = lines_text(before, crlf) + lines_text(block, crlf) + rest;
    if before.len() == 0 {
        let inner = block.skip(1);
        let tail = lines_text(inner, crlf) + rest;
        assert(text =~= block[0] + line_ending(crlf) + tail);
        lemma_first_line_of(block[0], crlf, tail);
        assert(inner.last() == block.last());
        assert forall|i: int| 0 <= i < inner.len() implies is_line(#[trigger] inner[i]) by {
            assert(inner[i] == block[i + 1]);
        }
        assert forall|i: int| 0 <= i < inner.len() - 1 implies !closes_pem_block(
            #[trigger] inner[i],
        ) by {
            assert(inner[i] == block[i + 1]);
        }
        lemma_block_rest(inner, rest, crlf);
        assert(lines_text(block, true) =~= block[0] + "\r\n"@ + lines_text(inner, true));
    } else {
        let later = before.skip(1);
        let tail = lines_text(later, crlf) + lines_text(block, crlf) + rest;
        assert(text =~= before[0] + line_ending(crlf) + tail);
        lemma_first_line_of(before[0], crlf, tail);
        assert forall|i: int| 0 <= i < later.len() implies is_line(#[trigger] later[i]) by {
            assert(later[i] == before[i + 1]);
        }
        assert forall|i: int| 0 <= i < later.len() implies !opens_pem_block(
            #[trigger] later[i],
        ) by {
            assert(later[i] == before[i + 1]);
        }
        lemma_leaf_is_the_first_block(later, block, rest, crlf);
    }
}

/// A file to be written: its name in the working directory, and its bytes.
#[derive(Debug)]
pub struct Artifact {
    pub name: String,
    pub content: Vec<u8>,
}

/// Lays out the two files of an issued certificate: `my_cert.crt`, the
/// certificate for the domain with CRLF line endings, and `cert_chain.crt`,
/// the chain as it was received.
pub fn save_certificates(certificate_chain: Certificate) -> (files: Vec<Artifact>)
    ensures
        files@.len() == 2,
        files@[0].name@ == "my_cert.crt"@,
        files@[0].content@ == encode_utf8(leaf_certificate_text(certificate_chain@)),
        files@[1].name@ == "cert_chain.crt"@,
        files@[1].content@ == encode_utf8(certificate_chain@),
{
    let leaf = leaf_certificate(certificate_chain.as_str());
    let mut files: Vec<Artifact> = Vec::new();
    files.push(
        Artifact { name: String::from_str("my_cert.crt"), content: leaf.as_str().as_bytes_vec() },
    );
    files.push(
        Artifact {
            name: String::from_str("cert_chain.crt"),
            content: certificate_chain.as_str().as_bytes_vec(),
        },
    );
    files
}

/// Lays out the two files of a key pair: `priv.pem` and `pub.pem`.
pub fn save_keypair(keypair: &KeyPair) -> (files: Vec<Artifact>)
    ensures
        files@.len() == 2,
        files@[0].name@ == "priv.pem"@,
        files@[0].content@ == keypair@.private.pem,
        files@[1].name@ == "pub.pem"@,
        files@[1].content@ == keypair@.public_pem,
{
    let mut files: Vec<Artifact> = Vec::new();
    files.push(
        Artifact {
            name: String::from_str("priv.pem"),
            content: keypair.private().private_pem().clone(),
        },
    );
    files.push(
        Artifact { name: String::from_str("pub.pem"), content: keypair.public_pem().clone() },
    );
    files
}

} // verus!
