//! Path handling: extracting an entry's name, planning a rename, and the
//! media-marker test. Paths are plain strings whose components are separated
//! by '/'; the final component is the entry's name.

use crate::translit::{conv_seq, convert_str};
use vstd::prelude::*;
use vstd::string::*;

verus! {

/// The index where the final path component begins: just after the last
/// '/' of the path, or 0 where the path holds none.
pub open spec fn name_start(p: Seq<char>) -> int
    decreases p.len(),
{
    if p.len() == 0 {
        0
    } else if p.last() == '/' {
        p.len() as int
    } else {
        name_start(p.drop_last())
    }
}

/// The final path component: the entry's own name.
pub open spec fn base_name(p: Seq<char>) -> Seq<char> {
    p.subrange(name_start(p), p.len() as int)
}

/// Everything before the final component, the separator included.
pub open spec fn parent_part(p: Seq<char>) -> Seq<char> {
    p.subrange(0, name_start(p))
}

/// True of a path with an extractable entry name: a non-empty final
/// component that is neither the current- nor the parent-directory marker.
pub open spec fn name_ok(p: Seq<char>) -> bool {
    base_name(p).len() > 0 && base_name(p) != seq!['.'] && base_name(p) != seq!['.', '.']
}

/// The path with its final component transliterated in place.
pub open spec fn converted_path(p: Seq<char>) -> Seq<char> {
    parent_part(p) + conv_seq(base_name(p))
}

/// Finds where the final path component of the given string begins.
fn find_name_start(p: &str) -> (i: usize)
    ensures
        i == name_start(p@),
        i <= p@.len(),
{
    let n = p.unicode_len();
    let mut i: usize = n;
    proof {
        assert(p@.subrange(0, n as int) =~= p@);
    }
    while i > 0 && p.get_char(i - 1) != '/'
        invariant
            n == p@.len(),
            i <= n,
            name_start(p@) == name_start(p@.subrange(0, i as int)),
        decreases i,
    {
        proof {
            assert(p@.subrange(0, i as int).drop_last() =~= p@.subrange(0, i - 1));
            assert(p@.subrange(0, i as int).last() == p@[i - 1]);
        }
        i = i - 1;
    }
    proof {
        if i > 0 {
            assert(p@.subrange(0, i as int).last() == p@[i - 1]);
        }
    }
    i
}

/// Character-for-character equality of two borrowed strings.
fn str_eq(a: &str, b: &str) -> (r: bool)
    ensures
        r == (a@ == b@),
{
    let na = a.unicode_len();
    let nb = b.unicode_len();
    if na != nb {
        return false;
    }
    let mut i: usize = 0;
    while i < na
        invariant
            i <= na,
            na == a@.len(),
            nb == b@.len(),
            na == nb,
            forall|j: int| 0 <= j < i ==> a@[j] == #[trigger] b@[j],
        decreases na - i,
    {
        if a.get_char(i) != b.get_char(i) {
            return false;
        }
        i = i + 1;
    }
    proof {
        assert(a@ =~= b@);
    }
    true
}

/// What the renamer is to do for one filesystem entry.
pub enum RenamePlan {
    /// The path has no extractable entry name.
    Invalid,
    /// The transliterated name equals the current one: nothing to do, and
    /// in particular no filesystem call is made.
    Keep,
    /// The entry is to be renamed to the carried sibling path.
    Rename { to: String },
}

/// Plans the rename of one entry: extracts the entry's name, transliterates
/// it, and decides between failing, keeping the path untouched, and renaming
/// to the sibling path that carries the new name.
pub fn plan_rename(path: &String) -> (r: RenamePlan)
    ensures
        (r is Invalid) <==> !name_ok(path@),
        (r is Keep) <==> (name_ok(path@) && conv_seq(base_name(path@)) == base_name(path@)),
        (r is Rename) <==> (name_ok(path@) && conv_seq(base_name(path@)) != base_name(path@)),
        (r matches RenamePlan::Rename { to } ==> to@ == converted_path(path@)),
{
    let s = path.as_str();
    let n = s.unicode_len();
    let start = find_name_start(s);
    let base = s.substring_char(start, n);
    proof {
        assert(base@ == base_name(path@));
    }
    let blen = base.unicode_len();
    let no_name = blen == 0 || (blen == 1 && base.get_char(0) == '.') || (blen == 2
        && base.get_char(0) == '.' && base.get_char(1) == '.');
    proof {
        if blen == 1 && base@[0] == '.' {
            assert(base@ =~= seq!['.']);
        }
        if blen == 2 && base@[0] == '.' && base@[1] == '.' {
            assert(base@ =~= seq!['.', '.']);
        }
        if base@ == seq!['.'] {
            assert(base@.len() == 1 && base@[0] == '.');
        }
        if base@ == seq!['.', '.'] {
            assert(base@.len() == 2 && base@[0] == '.' && base@[1] == '.');
        }
    }
    if no_name {
        return RenamePlan::Invalid;
    }
    let converted = convert_str(base);
    if str_eq(converted.as_str(), base) {
        return RenamePlan::Keep;
    }
    let parent = s.substring_char(0, start);
    let mut renamed = parent.to_owned();
    renamed.append(converted.as_str());
    proof {
        assert(renamed@ == converted_path(path@));
    }
    RenamePlan::Rename { to: renamed }
}

/// True where the needle stands in the haystack beginning at index i.
pub open spec fn has_match_at(h: Seq<char>, n: Seq<char>, i: int) -> bool {
    0 <= i && i + n.len() <= h.len() && forall|j: int| 0 <= j < n.len() ==> h[i + j] == #[trigger] n[j]
}

/// True where the needle occurs anywhere in the haystack.
pub open spec fn seq_has_sub(h: Seq<char>, n: Seq<char>) -> bool {
    exists|i: int| has_match_at(h, n, i)
}

/// Compares the needle against the haystack at one position.
fn match_at(h: &str, n: &str, i: usize) -> (r: bool)
    requires
        i + n@.len() <= h@.len(),
    ensures
        r == has_match_at(h@, n@, i as int),
{
    let nl = n.unicode_len();
    let hl = h.unicode_len();
    let mut j: usize = 0;
    while j < nl
        invariant
            j <= nl,
            nl == n@.len(),
            hl == h@.len(),
            i + nl <= h@.len(),
            forall|k: int| 0 <= k < j ==> h@[i + k] == #[trigger] n@[k],
        decreases nl - j,
    {
        if h.get_char(i + j) != n.get_char(j) {
            return false;
        }
        j = j + 1;
    }
    true
}

/// True where the needle occurs as a substring of the haystack, at any
/// position.
pub fn str_contains(h: &str, n: &str) -> (r: bool)
    ensures
        r == seq_has_sub(h@, n@),
{
    let hl = h.unicode_len();
    let nl = n.unicode_len();
    if nl > hl {
        return false;
    }
    let last = hl - nl;
    let mut i: usize = 0;
    while i <= last
        invariant
            nl <= hl,
            last == hl - nl,
            hl == h@.len(),
            nl == n@.len(),
            i <= last + 1,
            forall|k: int| 0 <= k < i ==> !has_match_at(h@, n@, k),
        decreases last + 1 - i,
    {
        if match_at(h, n, i) {
            return true;
        }
        i = i + 1;
    }
    false
}

/// True of an entry name that carries one of the two media markers. The
/// marker may stand anywhere in the name, not only as its suffix.
pub open spec fn media_name(name: Seq<char>) -> bool {
    seq_has_sub(name, ".mp3"@) || seq_has_sub(name, ".flac"@)
}

/// Decides whether a path names a media file: its final component holds
/// one of the two markers.
pub fn is_media_path(path: &String) -> (r: bool)
    ensures
        r == media_name(base_name(path@)),
{
    let s = path.as_str();
    let n = s.unicode_len();
    let start = find_name_start(s);
    let base = s.substring_char(start, n);
    proof {
        assert(base@ == base_name(path@));
    }
    if str_contains(base, ".mp3") {
        return true;
    }
    str_contains(base, ".flac")
}

} // verus!
