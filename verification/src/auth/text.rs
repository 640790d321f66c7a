//! Scanning of ASCII text: blanks, words and dots.
//!
//! Header values and compact tokens are ASCII by their grammars. The
//! functions here walk such text by position and are specified over the
//! characters of the string.

use vstd::prelude::*;
use vstd::string::is_ascii_spec_bytes;

verus! {

/// Whether `c` separates words: space, tab, line feed, vertical tab, form
/// feed or carriage return.
pub open spec fn is_blank(c: char) -> bool {
    c == ' ' || c == '\t' || c == '\n' || c == '\x0b' || c == '\x0c' || c == '\r'
}

/// The first position at or after `from` that holds no blank, or the length
/// of `s` where only blanks follow.
pub open spec fn skip_blanks(s: Seq<char>, from: int) -> int
    decreases s.len() - from,
{
    if 0 <= from < s.len() && is_blank(s[from]) {
        skip_blanks(s, from + 1)
    } else {
        from
    }
}

/// The first position at or after `from` that holds a blank, or the length of
/// `s` where none follows.
pub open spec fn skip_word(s: Seq<char>, from: int) -> int
    decreases s.len() - from,
{
    if 0 <= from < s.len() && !is_blank(s[from]) {
        skip_word(s, from + 1)
    } else {
        from
    }
}

/// The first position at or after `from` that holds a dot, or the length of
/// `s` where none follows.
pub open spec fn next_dot(s: Seq<char>, from: int) -> int
    decreases s.len() - from,
{
    if 0 <= from < s.len() && s[from] != '.' {
        next_dot(s, from + 1)
    } else {
        from
    }
}

/// Whether no character of `s` is a blank.
pub open spec fn has_no_blank(s: Seq<char>) -> bool {
    forall|i: int| 0 <= i < s.len() ==> !is_blank(#[trigger] s[i])
}

/// Whether the byte stands for a blank character.
fn byte_is_blank(b: u8) -> (blank: bool)
    ensures
        blank == (b == 32 || (9 <= b && b <= 13)),
{
    b == 32 || (9 <= b && b <= 13)
}

/// An ASCII character is a blank exactly when its byte is 32 or from 9 to 13.
pub(crate) proof fn lemma_blank_byte(c: char)
    requires
        c <= '\u{7f}',
    ensures
        is_blank(c) == (c as u8 == 32 || (9 <= c as u8 && c as u8 <= 13)),
        (c == '.') == (c as u8 == 46),
{
}

/// The number of characters of an ASCII string, which is its number of bytes.
pub(crate) fn ascii_len(s: &str) -> (n: usize)
    requires
        s.is_ascii(),
    ensures
        n == s@.len(),
{
    proof {
        is_ascii_spec_bytes(s);
    }
    s.as_bytes().len()
}

/// Walks over the blanks that start at `from`.
pub(crate) fn blanks_end(s: &str, from: usize) -> (end: usize)
    requires
        s.is_ascii(),
        from <= s@.len(),
    ensures
        end == skip_blanks(s@, from as int),
        from <= end <= s@.len(),
{
    let n = ascii_len(s);
    let mut i: usize = from;
    while i < n && byte_is_blank(s.get_ascii(i))
        invariant
            s.is_ascii(),
            n == s@.len(),
            from <= i <= n,
            skip_blanks(s@, from as int) == skip_blanks(s@, i as int),
        decreases n - i,
    {
        proof {
            lemma_blank_byte(s@[i as int]);
        }
        i += 1;
    }
    proof {
        if i < n {
            lemma_blank_byte(s@[i as int]);
        }
    }
    i
}

/// Walks over the word that starts at `from`.
pub(crate) fn word_end(s: &str, from: usize) -> (end: usize)
    requires
        s.is_ascii(),
        from <= s@.len(),
    ensures
        end == skip_word(s@, from as int),
        from <= end <= s@.len(),
{
    let n = ascii_len(s);
    let mut i: usize = from;
    while i < n && !byte_is_blank(s.get_ascii(i))
        invariant
            s.is_ascii(),
            n == s@.len(),
            from <= i <= n,
            skip_word(s@, from as int) == skip_word(s@, i as int),
        decreases n - i,
    {
        proof {
            lemma_blank_byte(s@[i as int]);
        }
        i += 1;
    }
    proof {
        if i < n {
            lemma_blank_byte(s@[i as int]);
        }
    }
    i
}

/// Walks to the next dot at or after `from`.
pub(crate) fn dot_position(s: &str, from: usize) -> (end: usize)
    requires
        s.is_ascii(),
        from <= s@.len(),
    ensures
        end == next_dot(s@, from as int),
        from <= end <= s@.len(),
{
    let n = ascii_len(s);
    let mut i: usize = from;
    while i < n && s.get_ascii(i) != 46
        invariant
            s.is_ascii(),
            n == s@.len(),
            from <= i <= n,
            next_dot(s@, from as int) == next_dot(s@, i as int),
        decreases n - i,
    {
        proof {
            lemma_blank_byte(s@[i as int]);
        }
        i += 1;
    }
    proof {
        if i < n {
            lemma_blank_byte(s@[i as int]);
        }
    }
    i
}

/// Whether the characters of `s` from `from` up to `to` spell `word`.
pub(crate) fn spells(s: &str, from: usize, to: usize, word: &str) -> (same: bool)
    requires
        s.is_ascii(),
        word.is_ascii(),
        from <= to <= s@.len(),
    ensures
        same == (s@.subrange(from as int, to as int) == word@),
{
    let n = ascii_len(word);
    if to - from != n {
        return false;
    }
    let mut i: usize = 0;
    while i < n
        invariant
            s.is_ascii(),
            word.is_ascii(),
            n == word@.len(),
            from + n == to,
            to <= s@.len(),
            i <= n,
            forall|j: int| 0 <= j < i ==> s@[from + j] == word@[j],
        decreases n - i,
    {
        if s.get_ascii(from + i) != word.get_ascii(i) {
            assert(s@.subrange(from as int, to as int)[i as int] != word@[i as int]);
            return false;
        }
        i += 1;
    }
    assert(s@.subrange(from as int, to as int) =~= word@);
    true
}

} // verus!
