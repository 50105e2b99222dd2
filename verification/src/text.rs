//! Texts: how wide one is on screen, single characters at its end, and the
//! white space around it.

use unicode_segmentation::UnicodeSegmentation;
use vstd::prelude::*;
use vstd::std_specs::iter::IteratorSpec;

verus! {

/// The number of extended grapheme clusters that a text consists of, by the
/// Unicode rules for text segmentation.
pub uninterp spec fn grapheme_count(text: Seq<char>) -> nat;

/// Counts the items of `UnicodeSegmentation::graphemes(text, true)`, the
/// iterator over the extended grapheme clusters of `text`. The count is
/// taken on trust as what `grapheme_count` names; nothing else is claimed
/// of it.
#[verifier::external_body]
pub(crate) fn count_graphemes(text: &str) -> (count: usize)
    ensures
        count == grapheme_count(text@),
{
    UnicodeSegmentation::graphemes(text, true).count()
}

/// Appends `ch` to `text` with `String::push`. Taken on trust: the text is
/// then the old one with `ch` at its end.
#[verifier::external_body]
pub(crate) fn push_char(text: &mut String, ch: char)
    ensures
        final(text)@ == old(text)@.push(ch),
{
    text.push(ch)
}

/// Takes the last character off `text` with `String::pop`. Taken on trust:
/// the character is returned and the text is then the old one without it;
/// an empty text stays as it is and gives `None`.
#[verifier::external_body]
pub(crate) fn pop_char(text: &mut String) -> (popped: Option<char>)
    ensures
        final(text)@ == without_last(old(text)@),
        popped == if old(text)@.len() > 0 {
            Some(old(text)@.last())
        } else {
            None
        },
{
    text.pop()
}

/// The text without its last character; the empty text stays empty.
pub open spec fn without_last(text: Seq<char>) -> Seq<char> {
    if text.len() > 0 {
        text.drop_last()
    } else {
        text
    }
}

/// Whether a character has the Unicode property `White_Space`.
pub uninterp spec fn white_space(ch: char) -> bool;

/// Whether a character is the space or one of U+0009 to U+000D: tab, line
/// feed, vertical tab, form feed and carriage return.
pub open spec fn ascii_white(ch: char) -> bool {
    ch == ' ' || 0x09 <= ch as u32 <= 0x0d
}

/// Asks `char::is_whitespace`. Taken on trust: the answer is what
/// `white_space` names, and of the characters up to U+007F it is yes for
/// the space and for U+0009 to U+000D and no for every other, which
/// `char::is_whitespace` decides by a match of its own before it looks into
/// the tables of Unicode. Of a character beyond U+007F nothing is claimed.
#[verifier::external_body]
pub(crate) fn is_whitespace(ch: char) -> (white: bool)
    ensures
        white == white_space(ch),
        ch as u32 <= 0x7f ==> white == ascii_white(ch),
{
    ch.is_whitespace()
}

/// The number of white-space characters at the start of a text.
pub open spec fn leading_white(text: Seq<char>) -> nat
    decreases text.len(),
{
    if text.len() > 0 && white_space(text[0]) {
        1 + leading_white(text.drop_first())
    } else {
        0
    }
}

/// The number of white-space characters at the end of a text.
pub open spec fn trailing_white(text: Seq<char>) -> nat
    decreases text.len(),
{
    if text.len() > 0 && white_space(text.last()) {
        1 + trailing_white(text.drop_last())
    } else {
        0
    }
}

/// The text without the white space at its end.
pub open spec fn trimmed_end(text: Seq<char>) -> Seq<char> {
    text.take(text.len() - trailing_white(text))
}

/// The text without the white space at its start and at its end.
pub open spec fn trimmed(text: Seq<char>) -> Seq<char> {
    trimmed_end(text.skip(leading_white(text) as int))
}

/// A run of `k` white-space characters at the start of a text that ends at
/// the end of the text or before another character is all of its leading
/// white space.
proof fn lemma_leading_white(text: Seq<char>, k: nat)
    requires
        k <= text.len(),
        forall|i: int| 0 <= i < k ==> white_space(text[i]),
        k == text.len() || !white_space(text[k as int]),
    ensures
        leading_white(text) == k,
    decreases k,
{
    if k > 0 {
        let rest = text.drop_first();
        assert forall|i: int| 0 <= i < k - 1 implies white_space(rest[i]) by {
            assert(rest[i] == text[i + 1]);
        }
        lemma_leading_white(rest, (k - 1) as nat);
    }
}

/// A run of `k` white-space characters at the end of a text that starts at
/// the start of the text or after another character is all of its trailing
/// white space.
proof fn lemma_trailing_white(text: Seq<char>, k: nat)
    requires
        k <= text.len(),
        forall|i: int| text.len() - k <= i < text.len() ==> white_space(text[i]),
        k == text.len() || !white_space(text[text.len() - k - 1]),
    ensures
        trailing_white(text) == k,
    decreases k,
{
    if k > 0 {
        let rest = text.drop_last();
        assert forall|i: int| rest.len() - (k - 1) <= i < rest.len() implies white_space(rest[i]) by {
            assert(rest[i] == text[i]);
        }
        lemma_trailing_white(rest, (k - 1) as nat);
    }
}

/// The characters of the trailing white space of a text are white space.
proof fn lemma_trailing_run(text: Seq<char>, i: int)
    requires
        0 <= i,
        text.len() - trailing_white(text) <= i < text.len(),
    ensures
        white_space(text[i]),
    decreases text.len(),
{
    if i < text.len() - 1 {
        lemma_trailing_run(text.drop_last(), i);
        assert(text.drop_last()[i] == text[i]);
    } else {
        assert(text[i] == text.last());
    }
}

/// The character before the trailing white space of a text, if there is
/// one, is no white space.
proof fn lemma_trailing_end(text: Seq<char>)
    ensures
        trailing_white(text) <= text.len(),
        trailing_white(text) < text.len() ==> !white_space(
            text[text.len() - trailing_white(text) - 1]
        ),
    decreases text.len(),
{
    if text.len() > 0 && white_space(text.last()) {
        lemma_trailing_end(text.drop_last());
    }
}

/// Where the first character of `text` stands that is no white space, and
/// where the last one ends: both are the length of the text if it has no
/// such character.
fn content_bounds(text: &str) -> (bounds: (usize, usize))
    ensures
        bounds.0 == leading_white(text@),
        bounds.0 <= bounds.1 <= text@.len(),
        bounds.0 == text@.len() ==> bounds.1 == text@.len() && trailing_white(text@) == text@.len(),
        bounds.0 < text@.len() ==> {
            &&& bounds.0 < bounds.1
            &&& bounds.1 == text@.len() - trailing_white(text@)
        },
{
    let len = text.unicode_len();
    let mut chars = text.chars();
    let mut at: usize = 0;
    let mut start: usize = len;
    let mut end: usize = len;
    loop
        invariant_except_break
            chars.remaining() == text@.skip(at as int),
        invariant
            len == text@.len(),
            at <= len,
            start == len || start < at,
            start == len ==> end == len,
            start < at ==> start < end <= at,
            forall|i: int| 0 <= i < at && i < start ==> white_space(text@[i]),
            start < at ==> !white_space(text@[start as int]),
            start < at ==> !white_space(text@[end - 1]),
            forall|i: int| start < at && end <= i < at ==> white_space(text@[i]),
        ensures
            at == len,
        decreases len - at,
    {
        match chars.next() {
            Some(ch) => {
                assert(text@.skip(at as int).len() > 0);
                assert(ch == text@[at as int]);
                assert(text@.skip(at as int).drop_first() =~= text@.skip(at + 1));
                if !is_whitespace(ch) {
                    if start == len {
                        start = at;
                    }
                    end = at + 1;
                }
                at += 1;
            },
            None => {
                assert(text@.skip(at as int).len() == 0);
                break ;
            },
        }
    }
    proof {
        lemma_leading_white(text@, start as nat);
        if start < len {
            lemma_trailing_white(text@, (len - end) as nat);
        } else {
            lemma_trailing_white(text@, len as nat);
        }
    }
    (start, end)
}

/// The part of `text` without the white space at its end.
pub fn trim_end(text: &str) -> (kept: &str)
    ensures
        kept@ == trimmed_end(text@),
{
    let (start, end) = content_bounds(text);
    if start == end {
        // nothing but white space
        text.substring_char(0, 0)
    } else {
        text.substring_char(0, end)
    }
}

/// The part of `text` without the white space at its start and at its end.
pub fn trim(text: &str) -> (kept: &str)
    ensures
        kept@ == trimmed(text@),
{
    let (start, end) = content_bounds(text);
    proof {
        let rest = text@.skip(start as int);
        if start == text@.len() {
            assert(trimmed_end(rest) =~= rest);
        } else {
            let k = (text@.len() - end) as nat;
            assert forall|i: int| rest.len() - k <= i < rest.len() implies white_space(rest[i]) by {
                assert(rest[i] == text@[i + start]);
                lemma_trailing_run(text@, i + start);
            }
            assert(rest[rest.len() - k - 1] == text@[end - 1]);
            lemma_trailing_end(text@);
            lemma_trailing_white(rest, k);
            assert(text@.subrange(start as int, end as int) =~= trimmed_end(rest));
        }
    }
    text.substring_char(start, end)
}

/// The rest of `text` after `prefix`, if `text` starts with it.
pub fn strip_prefix<'a>(text: &'a str, prefix: &str) -> (rest: Option<&'a str>)
    ensures
        match rest {
            Some(rest) => prefix@.is_prefix_of(text@) && rest@ == text@.skip(prefix@.len() as int),
            None => !prefix@.is_prefix_of(text@),
        },
{
    let len = text.unicode_len();
    let mut ours = text.chars();
    let mut theirs = prefix.chars();
    let mut at: usize = 0;
    loop
        invariant_except_break
            ours.remaining() == text@.skip(at as int),
            theirs.remaining() == prefix@.skip(at as int),
        invariant
            len == text@.len(),
            at <= len,
            at <= prefix@.len(),
            forall|k: int| 0 <= k < at ==> text@[k] == prefix@[k],
        ensures
            at == prefix@.len(),
        decreases len - at,
    {
        match theirs.next() {
            Some(want) => {
                assert(prefix@.skip(at as int).len() > 0);
                assert(want == prefix@[at as int]);
                assert(prefix@.skip(at as int).drop_first() =~= prefix@.skip(at + 1));
                match ours.next() {
                    Some(have) => {
                        assert(text@.skip(at as int).len() > 0);
                        assert(have == text@[at as int]);
                        assert(text@.skip(at as int).drop_first() =~= text@.skip(at + 1));
                        if have != want {
                            proof {
                                if prefix@.len() <= text@.len() {
                                    assert(text@.subrange(0, prefix@.len() as int)[at as int]
                                        != prefix@[at as int]);
                                }
                            }
                            return None;
                        }
                    },
                    None => {
                        assert(text@.skip(at as int).len() == 0);
                        return None;
                    },
                }
                at += 1;
            },
            None => {
                assert(prefix@.skip(at as int).len() == 0);
                break ;
            },
        }
    }
    assert(text@.subrange(0, at as int) =~= prefix@);
    let rest = text.substring_char(at, len);
    assert(rest@ =~= text@.skip(at as int));
    Some(rest)
}

} // verus!
