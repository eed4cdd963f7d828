//! Character-level helpers for identifiers and operation labels.
use vstd::prelude::*;
use vstd::string::StrSliceExecFns;

verus! {

/// ASCII letters and digits, underscore and hyphen: the characters a
/// session identifier may use.
pub open spec fn is_id_char(c: char) -> bool {
    ||| ('a' <= c && c <= 'z')
    ||| ('A' <= c && c <= 'Z')
    ||| ('0' <= c && c <= '9')
    ||| c == '_'
    ||| c == '-'
}

/// An ASCII letter.
pub open spec fn is_letter(c: char) -> bool {
    ('a' <= c && c <= 'z') || ('A' <= c && c <= 'Z')
}

/// An ASCII digit.
pub open spec fn is_digit(c: char) -> bool {
    '0' <= c && c <= '9'
}

/// A Unicode control character (general category Cc).
pub open spec fn is_control(c: char) -> bool {
    c <= '\u{1f}' || ('\u{7f}' <= c && c <= '\u{9f}')
}

/// ASCII lower-casing of one character.
pub open spec fn fold_char(c: char) -> char {
    if 'A' <= c && c <= 'Z' {
        ((c as u8) + 32) as char
    } else {
        c
    }
}

/// ASCII lower-casing of a text.
pub open spec fn fold_text(s: Seq<char>) -> Seq<char> {
    s.map_values(|c: char| fold_char(c))
}

/// `needle` occurs in `hay` starting at position `at`.
pub open spec fn occurs_at(hay: Seq<char>, needle: Seq<char>, at: int) -> bool {
    &&& 0 <= at
    &&& at + needle.len() <= hay.len()
    &&& forall|k: int| 0 <= k < needle.len() ==> hay[at + k] == needle[k]
}

/// `needle` occurs somewhere in `hay`.
pub open spec fn contains_text(hay: Seq<char>, needle: Seq<char>) -> bool {
    exists|at: int| occurs_at(hay, needle, at)
}

/// `hay` begins with `prefix`.
pub open spec fn starts_with_text(hay: Seq<char>, prefix: Seq<char>) -> bool {
    occurs_at(hay, prefix, 0)
}

/// How often `c` occurs in `s`.
pub open spec fn occurrences(s: Seq<char>, c: char) -> nat
    decreases s.len(),
{
    if s.len() == 0 {
        0
    } else {
        occurrences(s.drop_last(), c) + if s.last() == c {
            1nat
        } else {
            0nat
        }
    }
}

pub fn id_char(c: char) -> (b: bool)
    ensures
        b == is_id_char(c),
{
    ('a' <= c && c <= 'z') || ('A' <= c && c <= 'Z') || ('0' <= c && c <= '9') || c == '_' || c == '-'
}

pub fn fold(c: char) -> (d: char)
    ensures
        d == fold_char(c),
{
    if 'A' <= c && c <= 'Z' {
        ((c as u8) + 32) as char
    } else {
        c
    }
}

/// The characters of `s`, one by one.
pub fn chars_of(s: &str) -> (v: Vec<char>)
    ensures
        v@ == s@,
{
    let n = s.unicode_len();
    let mut v: Vec<char> = Vec::new();
    for i in 0..n
        invariant
            n == s@.len(),
            v@ == s@.subrange(0, i as int),
    {
        v.push(s.get_char(i));
        assert(v@ =~= s@.subrange(0, i as int + 1));
    }
    assert(v@ =~= s@);
    v
}

/// The ASCII lower-cased copy of `s`.
pub fn fold_all(s: &Vec<char>) -> (v: Vec<char>)
    ensures
        v@ == fold_text(s@),
{
    let mut v: Vec<char> = Vec::new();
    for i in 0..s.len()
        invariant
            v@ == fold_text(s@.subrange(0, i as int)),
    {
        v.push(fold(s[i]));
        assert(v@ =~= fold_text(s@.subrange(0, i as int + 1)));
    }
    assert(s@.subrange(0, s@.len() as int) =~= s@);
    v
}

/// Whether `needle` occurs in `hay` at position `at`.
pub fn matches_at(hay: &Vec<char>, needle: &Vec<char>, at: usize) -> (b: bool)
    ensures
        b == occurs_at(hay@, needle@, at as int),
{
    if at > hay.len() || needle.len() > hay.len() - at {
        return false;
    }
    let m = needle.len();
    let hl = hay.len();
    for k in 0..m
        invariant
            m == needle@.len(),
            hl == hay@.len(),
            at + needle@.len() <= hay@.len(),
            forall|j: int| 0 <= j < k ==> hay@[at + j] == needle@[j],
    {
        if hay[at + k] != needle[k] {
            return false;
        }
    }
    true
}

/// Whether `needle` occurs anywhere in `hay`.
pub fn contains(hay: &Vec<char>, needle: &Vec<char>) -> (b: bool)
    ensures
        b == contains_text(hay@, needle@),
{
    if needle.len() > hay.len() {
        assert(forall|at: int| !occurs_at(hay@, needle@, at));
        return false;
    }
    let last = hay.len() - needle.len();
    let mut at: usize = 0;
    while at <= last
        invariant
            last == hay@.len() - needle@.len(),
            at <= last + 1,
            forall|a: int| 0 <= a < at ==> !occurs_at(hay@, needle@, a),
        ensures
            forall|a: int| 0 <= a <= last ==> !occurs_at(hay@, needle@, a),
        decreases last + 1 - at,
    {
        if matches_at(hay, needle, at) {
            return true;
        }
        if at == last {
            break;
        }
        at = at + 1;
    }
    assert forall|a: int| !occurs_at(hay@, needle@, a) by {
        if 0 <= a && a + needle@.len() <= hay@.len() {
            assert(a <= last);
        }
    }
    false
}

/// Whether `s` occurs in `hay`, for a string slice `s`.
pub fn contains_str(hay: &Vec<char>, s: &str) -> (b: bool)
    ensures
        b == contains_text(hay@, s@),
{
    let needle = chars_of(s);
    contains(hay, &needle)
}

/// Whether `hay` begins with `s`.
pub fn starts_with_str(hay: &Vec<char>, s: &str) -> (b: bool)
    ensures
        b == starts_with_text(hay@, s@),
{
    let prefix = chars_of(s);
    matches_at(hay, &prefix, 0)
}

/// Whether `hay` is exactly `s`.
pub fn equals_str(hay: &Vec<char>, s: &str) -> (b: bool)
    ensures
        b == (hay@ == s@),
{
    let other = chars_of(s);
    if hay.len() != other.len() {
        return false;
    }
    let r = matches_at(hay, &other, 0);
    if r {
        assert(hay@ =~= other@);
    }
    r
}

/// How often `c` occurs in `s`.
pub fn count_occurrences(s: &Vec<char>, c: char) -> (n: usize)
    ensures
        n == occurrences(s@, c),
{
    let mut n: usize = 0;
    for j in 0..s.len()
        invariant
            n == occurrences(s@.subrange(0, j as int), c),
            n <= j,
    {
        assert(s@.subrange(0, j as int + 1).drop_last() =~= s@.subrange(0, j as int));
        if s[j] == c {
            n = n + 1;
        }
    }
    assert(s@.subrange(0, s@.len() as int) =~= s@);
    n
}

} // verus!
