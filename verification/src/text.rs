//! Small helpers over the characters of a string.

use vstd::prelude::*;

verus! {

/// `needle` occurs in `haystack` as a run of neighbouring characters.
pub open spec fn has_infix(haystack: Seq<char>, needle: Seq<char>) -> bool {
    exists|at: int| occurs_at(haystack, needle, at)
}

/// `needle` occurs in `haystack` from index `at` on.
pub open spec fn occurs_at(haystack: Seq<char>, needle: Seq<char>, at: int) -> bool {
    &&& 0 <= at
    &&& at + needle.len() <= haystack.len()
    &&& haystack.subrange(at, at + needle.len()) == needle
}

/// `path[start..end]` is one of the segments that splitting `path` at every
/// `/` yields: it lies between two neighbouring separators (or an end of the
/// path) and holds no separator itself.
pub open spec fn is_segment(path: Seq<char>, start: int, end: int) -> bool {
    &&& 0 <= start <= end <= path.len()
    &&& (start == 0 || path[start - 1] == '/')
    &&& (end == path.len() || path[end] == '/')
    &&& forall|k: int| start <= k < end ==> path[k] != '/'
}

/// The characters of `s`, in order, as a vector that can be indexed in
/// constant time.
pub fn chars_of(s: &str) -> (chars: Vec<char>)
    ensures
        chars@ == s@,
{
    let mut chars: Vec<char> = Vec::new();
    for c in it: s.chars()
        invariant
            it.seq() == s@,
            chars@ == s@.take(it.index() as int),
    {
        chars.push(c);
    }
    chars
}

/// The last character of `s`, if it has one.
pub fn last_char(s: &str) -> (last: Option<char>)
    ensures
        match last {
            Some(c) => s@.len() > 0 && c == s@.last(),
            None => s@.len() == 0,
        },
{
    let mut last: Option<char> = None;
    for c in it: s.chars()
        invariant
            it.seq() == s@,
            match last {
                Some(seen) => it.index() > 0 && seen == s@[it.index() - 1],
                None => it.index() == 0,
            },
    {
        last = Some(c);
    }
    last
}

/// Whether `needle` occurs in `haystack` from index `at` on.
fn matches_at(haystack: &[char], needle: &[char], at: usize) -> (found: bool)
    requires
        at + needle@.len() <= haystack@.len(),
    ensures
        found == occurs_at(haystack@, needle@, at as int),
{
    let n: usize = haystack.len();
    let m: usize = needle.len();
    let ghost window = haystack@.subrange(at as int, at + m);
    let mut k: usize = 0;
    while k < m
        invariant
            n == haystack@.len(),
            m == needle@.len(),
            at + m <= n,
            k <= m,
            window == haystack@.subrange(at as int, at + m),
            forall|j: int| 0 <= j < k ==> haystack@[at + j] == needle@[j],
        decreases m - k,
    {
        if haystack[at + k] != needle[k] {
            assert(window[k as int] != needle@[k as int]);
            return false;
        }
        k += 1;
    }
    assert(window =~= needle@);
    true
}

/// Whether `needle` occurs somewhere in `haystack`.
pub fn contains_chars(haystack: &[char], needle: &[char]) -> (found: bool)
    ensures
        found == has_infix(haystack@, needle@),
{
    let n: usize = haystack.len();
    let m: usize = needle.len();
    if m > n {
        return false;
    }
    if m == 0 {
        assert(haystack@.subrange(0, 0) =~= needle@);
        assert(occurs_at(haystack@, needle@, 0));
        return true;
    }
    let last: usize = n - m;
    let mut at: usize = 0;
    while at <= last
        invariant
            n == haystack@.len(),
            m == needle@.len(),
            last == n - m,
            0 < m <= n,
            at <= last + 1,
            forall|j: int| 0 <= j < at ==> !occurs_at(haystack@, needle@, j),
        decreases last + 1 - at,
    {
        if matches_at(haystack, needle, at) {
            return true;
        }
        at += 1;
    }
    false
}

/// Whether the string `needle` occurs somewhere in the string `haystack`.
pub fn contains_str(haystack: &str, needle: &str) -> (found: bool)
    ensures
        found == has_infix(haystack@, needle@),
{
    let hay = chars_of(haystack);
    let pin = chars_of(needle);
    contains_chars(hay.as_slice(), pin.as_slice())
}

} // verus!
