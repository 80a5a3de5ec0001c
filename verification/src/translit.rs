//! The transliteration rule: a pure, character-by-character replacement of
//! the letters a-umlaut and o-umlaut (both cases) by their unaccented
//! counterparts. All other characters, u-umlaut and sharp s included, pass
//! through unchanged.

use vstd::prelude::*;
use vstd::string::*;

verus! {

/// True of the four letters that the rule rewrites: a-umlaut and o-umlaut,
/// lower and upper case.
pub open spec fn is_umlaut(c: char) -> bool {
    c == '\u{e4}' || c == '\u{c4}' || c == '\u{f6}' || c == '\u{d6}'
}

/// The single-character rule: a-umlaut becomes 'a' or 'A', o-umlaut becomes
/// 'o' or 'O', keeping case; every other character is kept as it is.
pub open spec fn conv_char(c: char) -> char {
    if c == '\u{e4}' {
        'a'
    } else if c == '\u{c4}' {
        'A'
    } else if c == '\u{f6}' {
        'o'
    } else if c == '\u{d6}' {
        'O'
    } else {
        c
    }
}

/// The transliteration of a whole string, applied character by character.
pub open spec fn conv_seq(s: Seq<char>) -> Seq<char> {
    s.map_values(|c: char| conv_char(c))
}

/// True of a string that holds none of the four targeted letters.
pub open spec fn umlaut_free(s: Seq<char>) -> bool {
    forall|i: int| 0 <= i < s.len() ==> !is_umlaut(#[trigger] s[i])
}

/// Relies on String::push: appends exactly the given character at the end.
#[verifier::external_body]
fn push_char(s: &mut String, c: char)
    ensures
        final(s)@ == old(s)@.push(c),
{
    s.push(c);
}

/// One application of the single-character rule.
fn conv_char_exec(c: char) -> (r: char)
    ensures
        r == conv_char(c),
{
    if c == '\u{e4}' {
        'a'
    } else if c == '\u{c4}' {
        'A'
    } else if c == '\u{f6}' {
        'o'
    } else if c == '\u{d6}' {
        'O'
    } else {
        c
    }
}

/// Transliterates a borrowed string into a fresh one.
pub fn convert_str(src: &str) -> (r: String)
    ensures
        r@ == conv_seq(src@),
{
    let n = src.unicode_len();
    let mut out = String::new();
    let mut i: usize = 0;
    while i < n
        invariant
            n == src@.len(),
            i <= n,
            out@.len() == i,
            forall|j: int| 0 <= j < i ==> out@[j] == conv_char(#[trigger] src@[j]),
        decreases n - i,
    {
        let c = src.get_char(i);
        push_char(&mut out, conv_char_exec(c));
        i = i + 1;
    }
    proof {
        assert(out@ =~= conv_seq(src@));
    }
    out
}

/// Replaces every a-umlaut and o-umlaut in the given string by its
/// unaccented letter and keeps every other character exactly as it was.
pub fn convert_umlauts(src: String) -> (r: String)
    ensures
        r@ == conv_seq(src@),
{
    convert_str(src.as_str())
}

/// The transliteration never changes a string's length: every replacement
/// is one character for one character.
pub proof fn lemma_convert_preserves_len(s: Seq<char>)
    ensures
        conv_seq(s).len() == s.len(),
{
}

/// The transliteration is idempotent: converting a converted string changes
/// nothing, because the replacement letters are not themselves umlauts.
pub proof fn lemma_convert_idempotent(s: Seq<char>)
    ensures
        conv_seq(conv_seq(s)) == conv_seq(s),
{
    assert forall|i: int| 0 <= i < s.len() implies conv_seq(conv_seq(s))[i] == conv_seq(s)[i] by {
        assert(conv_char(conv_char(s[i])) == conv_char(s[i]));
    }
    assert(conv_seq(conv_seq(s)) =~= conv_seq(s));
}

/// A string without the four targeted letters converts to itself.
pub proof fn lemma_convert_fixes_clean(s: Seq<char>)
    requires
        umlaut_free(s),
    ensures
        conv_seq(s) == s,
{
    assert forall|i: int| 0 <= i < s.len() implies conv_seq(s)[i] == s[i] by {
        assert(!is_umlaut(s[i]));
    }
    assert(conv_seq(s) =~= s);
}

} // verus!
