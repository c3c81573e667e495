//! Text as sequences of characters.

use vstd::prelude::*;

verus! {

/// `String::push` appends one character.
pub assume_specification[ String::push ](s: &mut String, c: char)
    ensures
        final(s)@ == old(s)@.push(c),
;

/// The characters of a text, in order.
pub fn chars_of(text: &str) -> (out: Vec<char>)
    ensures
        out@ == text@,
{
    let mut out: Vec<char> = Vec::new();
    for c in it: text.chars()
        invariant
            out@ == it.seq().take(it.index()),
            it.seq() == text@,
    {
        out.push(c);
    }
    out
}

/// The text that a sequence of characters spells.
pub fn string_of(chars: &Vec<char>) -> (out: String)
    ensures
        out@ == chars@,
{
    let mut out = String::new();
    let mut i: usize = 0;
    while i < chars.len()
        invariant
            i <= chars.len(),
            out@ == chars@.take(i as int),
        decreases chars.len() - i,
    {
        out.push(chars[i]);
        assert(chars@.take(i + 1) =~= chars@.take(i as int).push(chars@[i as int]));
        i = i + 1;
    }
    assert(chars@.take(chars.len() as int) =~= chars@);
    out
}

/// Whether a text ends in a given suffix.
pub open spec fn is_suffix(text: Seq<char>, suffix: Seq<char>) -> bool {
    suffix.len() <= text.len() && text.skip(text.len() - suffix.len()) == suffix
}

/// Whether a text begins with a given prefix.
pub open spec fn is_prefix(text: Seq<char>, prefix: Seq<char>) -> bool {
    prefix.len() <= text.len() && text.take(prefix.len() as int) == prefix
}

/// Whether the characters of `text` from `start` on begin with the
/// characters of `prefix`.
pub fn starts_with_at(text: &Vec<char>, start: usize, prefix: &str) -> (starts: bool)
    ensures
        starts == (start <= text@.len() && is_prefix(text@.skip(start as int), prefix@)),
{
    let head = chars_of(prefix);
    if start > text.len() || head.len() > text.len() - start {
        return false;
    }
    let ghost rest = text@.skip(start as int);
    let mut i: usize = 0;
    while i < head.len()
        invariant
            start + head.len() <= text.len(),
            head@ == prefix@,
            rest == text@.skip(start as int),
            i <= head.len(),
            rest.take(i as int) == head@.take(i as int),
        decreases head.len() - i,
    {
        if text[start + i] != head[i] {
            assert(rest.take(head.len() as int)[i as int] != head@[i as int]);
            return false;
        }
        assert(head@.take(i + 1) =~= head@.take(i as int).push(head@[i as int]));
        assert(rest.take(i + 1) =~= rest.take(i as int).push(rest[i as int]));
        i = i + 1;
    }
    assert(head@.take(head.len() as int) =~= head@);
    true
}

/// Whether a text begins with the characters of `prefix`.
pub fn starts_with(text: &str, prefix: &str) -> (starts: bool)
    ensures
        starts == is_prefix(text@, prefix@),
{
    let all = chars_of(text);
    assert(all@.skip(0) =~= all@);
    starts_with_at(&all, 0, prefix)
}

/// Whether two sequences of characters are the same.
pub fn same_chars(a: &Vec<char>, b: &Vec<char>) -> (same: bool)
    ensures
        same == (a@ == b@),
{
    if a.len() != b.len() {
        return false;
    }
    let mut i: usize = 0;
    while i < a.len()
        invariant
            a.len() == b.len(),
            i <= a.len(),
            a@.take(i as int) == b@.take(i as int),
        decreases a.len() - i,
    {
        if a[i] != b[i] {
            return false;
        }
        assert(a@.take(i + 1) =~= a@.take(i as int).push(a@[i as int]));
        assert(b@.take(i + 1) =~= b@.take(i as int).push(b@[i as int]));
        i = i + 1;
    }
    assert(a@.take(a.len() as int) =~= a@);
    assert(b@.take(b.len() as int) =~= b@);
    true
}

/// Whether two texts are the same.
pub fn same_text(a: &str, b: &str) -> (same: bool)
    ensures
        same == (a@ == b@),
{
    let x = chars_of(a);
    let y = chars_of(b);
    same_chars(&x, &y)
}

/// Whether a sequence of characters ends in the characters of `suffix`.
pub fn ends_with(text: &Vec<char>, suffix: &str) -> (ends: bool)
    ensures
        ends == is_suffix(text@, suffix@),
{
    let tail = chars_of(suffix);
    if tail.len() > text.len() {
        return false;
    }
    let start = text.len() - tail.len();
    let mut i: usize = 0;
    while i < tail.len()
        invariant
            start + tail.len() == text.len(),
            tail@ == suffix@,
            i <= tail.len(),
            text@.skip(start as int).take(i as int) == tail@.take(i as int),
        decreases tail.len() - i,
    {
        if text[start + i] != tail[i] {
            assert(text@.skip(start as int)[i as int] != tail@[i as int]);
            return false;
        }
        assert(tail@.take(i + 1) =~= tail@.take(i as int).push(tail@[i as int]));
        assert(text@.skip(start as int).take(i + 1) =~= text@.skip(start as int).take(
            i as int,
        ).push(text@[start + i]));
        i = i + 1;
    }
    assert(tail@.take(tail.len() as int) =~= tail@);
    assert(text@.skip(start as int).take(tail.len() as int) =~= text@.skip(start as int));
    true
}

} // verus!
