//! Comparisons on string slices, stated over their character sequences.

use vstd::prelude::*;
use vstd::string::*;

verus! {

/// The character sequences of a list of strings.
pub open spec fn texts(names: Seq<String>) -> Seq<Seq<char>> {
    names.map_values(|s: String| s@)
}

/// `s` ends with `suffix`.
pub open spec fn ends_with(s: Seq<char>, suffix: Seq<char>) -> bool {
    suffix.len() <= s.len() && s.subrange(s.len() - suffix.len(), s.len() as int) == suffix
}

/// Whether the last characters of `s` spell `suffix`.
pub fn str_ends_with(s: &str, suffix: &str) -> (r: bool)
    ensures
        r == ends_with(s@, suffix@),
{
    let n: usize = s.unicode_len();
    let m: usize = suffix.unicode_len();
    if n < m {
        return false;
    }
    let start: usize = n - m;
    let ghost tail = s@.subrange(start as int, n as int);
    let mut i: usize = 0;
    while i < m
        invariant
            n == s@.len(),
            m == suffix@.len(),
            start == n - m,
            tail == s@.subrange(start as int, n as int),
            i <= m,
            forall|k: int| 0 <= k < i ==> tail[k] == suffix@[k],
        decreases m - i,
    {
        if s.get_char(start + i) != suffix.get_char(i) {
            assert(tail[i as int] != suffix@[i as int]);
            return false;
        }
        i = i + 1;
    }
    assert(tail =~= suffix@);
    true
}

/// Whether `a` and `b` hold the same characters.
pub fn str_eq(a: &str, b: &str) -> (r: bool)
    ensures
        r == (a@ == b@),
{
    let n: usize = a.unicode_len();
    if n != b.unicode_len() {
        return false;
    }
    let r = str_ends_with(a, b);
    assert(a@.subrange(0, n as int) =~= a@);
    r
}

/// A character with the capital letters A to Z made small, and every other
/// character left as it is.
pub open spec fn lowered(c: char) -> char {
    if 'A' <= c <= 'Z' {
        ((c as u8) + 32) as char
    } else {
        c
    }
}

/// A text with its capital letters A to Z made small.
pub open spec fn lowered_text(s: Seq<char>) -> Seq<char> {
    s.map_values(|c: char| lowered(c))
}

/// Makes a capital letter A to Z small.
pub fn to_lowered(c: char) -> (r: char)
    ensures
        r == lowered(c),
{
    if 'A' <= c && c <= 'Z' {
        ((c as u8) + 32) as char
    } else {
        c
    }
}

/// Whether `a` and `b` hold the same characters, capital and small letters
/// A to Z taken as the same.
pub fn str_eq_ignore_case(a: &str, b: &str) -> (r: bool)
    ensures
        r == (lowered_text(a@) == lowered_text(b@)),
{
    let n: usize = a.unicode_len();
    if n != b.unicode_len() {
        return false;
    }
    let mut i: usize = 0;
    while i < n
        invariant
            n == a@.len(),
            n == b@.len(),
            i <= n,
            forall|k: int| 0 <= k < i ==> lowered(a@[k]) == lowered(b@[k]),
        decreases n - i,
    {
        if to_lowered(a.get_char(i)) != to_lowered(b.get_char(i)) {
            assert(lowered_text(a@)[i as int] != lowered_text(b@)[i as int]);
            return false;
        }
        i = i + 1;
    }
    assert(lowered_text(a@) =~= lowered_text(b@));
    true
}

} // verus!
