//! Byte-sequence scanning primitives shared by the line parsers: prefix
//! tests, substring search, and bounded searches for a delimiter byte.

use vstd::prelude::*;

verus! {

/// `s` begins with the prefix `p`.
pub open spec fn starts_with(s: Seq<u8>, p: Seq<u8>) -> bool {
    p.len() <= s.len() && s.subrange(0, p.len() as int) == p
}

/// The pattern `pat` occurs in `s` at position `i`.
pub open spec fn contains_at(s: Seq<u8>, pat: Seq<u8>, i: int) -> bool {
    0 <= i && i + pat.len() <= s.len() && s.subrange(i, i + pat.len()) == pat
}

/// The pattern `pat` occurs somewhere in `s`.
pub open spec fn contains_seq(s: Seq<u8>, pat: Seq<u8>) -> bool {
    exists|i: int| contains_at(s, pat, i)
}

/// Position of the first occurrence of `d` in `s` at or after `from`;
/// `s.len()` when there is none.
pub open spec fn first_index_from(s: Seq<u8>, d: u8, from: int) -> int
    decreases s.len() - from,
{
    if from < 0 || from >= s.len() {
        s.len() as int
    } else if s[from] == d {
        from
    } else {
        first_index_from(s, d, from + 1)
    }
}

/// The first index is the unique boundary: any position that follows a
/// delimiter-free block and holds the delimiter (or is the end) is it.
pub proof fn lemma_first_index_char(s: Seq<u8>, d: u8, from: int, e: int)
    requires
        0 <= from <= e <= s.len(),
        forall|j: int| from <= j < e ==> s[j] != d,
        e < s.len() ==> s[e] == d,
    ensures
        first_index_from(s, d, from) == e,
    decreases e - from,
{
    if from < e {
        lemma_first_index_char(s, d, from + 1, e);
    }
}

/// Whether two byte slices hold the same bytes.
pub fn slice_eq(a: &[u8], b: &[u8]) -> (r: bool)
    ensures
        r == (a@ == b@),
{
    if a.len() != b.len() {
        assert(a@ != b@);
        return false;
    }
    let n = a.len();
    let mut i: usize = 0;
    while i < n
        invariant
            n == a@.len() == b@.len(),
            i <= n,
            forall|j: int| 0 <= j < i ==> a@[j] == b@[j],
        decreases n - i,
    {
        if a[i] != b[i] {
            assert(a@ != b@);
            return false;
        }
        i += 1;
    }
    assert(a@ =~= b@);
    true
}

/// Whether `s` begins with the prefix `p`.
pub fn slice_starts_with(s: &[u8], p: &[u8]) -> (r: bool)
    ensures
        r == starts_with(s@, p@),
{
    if p.len() > s.len() {
        return false;
    }
    let head = vstd::slice::slice_subrange(s, 0, p.len());
    slice_eq(head, p)
}

/// Whether the pattern `pat` occurs anywhere in `s` (naive search).
pub fn slice_contains(s: &[u8], pat: &[u8]) -> (r: bool)
    ensures
        r == contains_seq(s@, pat@),
{
    let n = s.len();
    let m = pat.len();
    if m == 0 {
        assert(s@.subrange(0, 0) =~= pat@);
        assert(contains_at(s@, pat@, 0));
        return true;
    }
    if m > n {
        assert(forall|i: int| !contains_at(s@, pat@, i));
        return false;
    }
    let mut i: usize = 0;
    while i <= n - m
        invariant
            1 <= m <= n,
            n == s@.len(),
            m == pat@.len(),
            i <= n - m + 1,
            forall|k: int| 0 <= k < i ==> !contains_at(s@, pat@, k),
        decreases n - m + 1 - i,
    {
        let window = vstd::slice::slice_subrange(s, i, i + m);
        if slice_eq(window, pat) {
            assert(contains_at(s@, pat@, i as int));
            return true;
        }
        assert(!contains_at(s@, pat@, i as int));
        i += 1;
    }
    proof {
        assert forall|k: int| !contains_at(s@, pat@, k) by {
            if contains_at(s@, pat@, k) {
                assert(0 <= k && k + m <= n);
            }
        }
    }
    false
}

/// Position of the first occurrence of `d` in `s[from..to]`; `to` when there
/// is none.  The search is bounded so a component of a line can be scanned
/// without looking past its end.
pub fn find_byte_in_range(s: &[u8], d: u8, from: usize, to: usize) -> (r: usize)
    requires
        from <= to <= s@.len(),
    ensures
        r == first_index_from(s@.subrange(0, to as int), d, from as int),
        from <= r <= to,
        r < to ==> s@[r as int] == d,
        forall|j: int| from <= j < r ==> s@[j] != d,
{
    let ghost pre = s@.subrange(0, to as int);
    let mut i: usize = from;
    while i < to
        invariant
            from <= i <= to <= s@.len(),
            pre == s@.subrange(0, to as int),
            first_index_from(pre, d, from as int) == first_index_from(pre, d, i as int),
            forall|j: int| from <= j < i ==> s@[j] != d,
        decreases to - i,
    {
        assert(pre[i as int] == s@[i as int]);
        if s[i] == d {
            assert(first_index_from(pre, d, i as int) == i as int);
            return i;
        }
        assert(first_index_from(pre, d, i as int) == first_index_from(pre, d, i + 1));
        i += 1;
    }
    assert(first_index_from(pre, d, to as int) == to as int);
    to
}

} // verus!
