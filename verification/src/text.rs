//! Verified text primitives used by the reference implementation.
//!
//! Exact string equality and contiguous substring search over `&str`, each
//! proved against the spec-level predicates of [`crate::model`]. Both walk the
//! strings character by character, so they are insensitive to byte-level
//! encoding details.

use vstd::prelude::*;

use crate::model::{has_substring, matches_at};

verus! {

/// Exact, case-sensitive, full-string equality of two string slices.
pub fn str_eq(a: &str, b: &str) -> (r: bool)
    ensures
        r == (a@ == b@),
{
    let a_len = a.unicode_len();
    let b_len = b.unicode_len();
    if a_len != b_len {
        return false;
    }
    let mut i: usize = 0;
    while i < a_len
        invariant
            a_len == a@.len(),
            b_len == b@.len(),
            a_len == b_len,
            0 <= i <= a_len,
            forall|j: int| 0 <= j < i ==> a@[j] == b@[j],
        decreases a_len - i,
    {
        if a.get_char(i) != b.get_char(i) {
            return false;
        }
        i = i + 1;
    }
    proof {
        assert(a@ =~= b@);
    }
    true
}

/// The pattern occurs in `hay` starting at character position `i`.
fn matches_here(hay: &str, pat: &str, i: usize) -> (r: bool)
    requires
        i + pat@.len() <= hay@.len(),
    ensures
        r == matches_at(hay@, pat@, i as int),
{
    let hay_len = hay.unicode_len();
    let pat_len = pat.unicode_len();
    let mut j: usize = 0;
    while j < pat_len
        invariant
            hay_len == hay@.len(),
            pat_len == pat@.len(),
            i + pat_len <= hay_len,
            0 <= j <= pat_len,
            forall|k: int| 0 <= k < j ==> hay@[i + k] == pat@[k],
        decreases pat_len - j,
    {
        if hay.get_char(i + j) != pat.get_char(j) {
            proof {
                assert(hay@.subrange(i as int, i + pat@.len())[j as int] == hay@[i + j]);
            }
            return false;
        }
        j = j + 1;
    }
    proof {
        assert(hay@.subrange(i as int, i + pat@.len()) =~= pat@);
    }
    true
}

/// Contiguous, case-sensitive substring search: does `pat` occur anywhere in
/// `hay`? Every string contains the empty pattern.
pub fn contains_pattern(hay: &str, pat: &str) -> (r: bool)
    ensures
        r == has_substring(hay@, pat@),
{
    let hay_len = hay.unicode_len();
    let pat_len = pat.unicode_len();
    if pat_len > hay_len {
        return false;
    }
    let limit = hay_len - pat_len;
    let mut i: usize = 0;
    loop
        invariant
            hay_len == hay@.len(),
            pat_len == pat@.len(),
            pat_len <= hay_len,
            limit == hay_len - pat_len,
            0 <= i <= limit,
            forall|k: int| 0 <= k < i ==> !matches_at(hay@, pat@, k),
        decreases limit - i,
    {
        if matches_here(hay, pat, i) {
            return true;
        }
        if i == limit {
            proof {
                assert(forall|k: int| matches_at(hay@, pat@, k) ==> 0 <= k <= limit);
            }
            return false;
        }
        i = i + 1;
    }
}

} // verus!
