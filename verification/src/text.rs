//! Character-exact text search: equality and substring containment over
//! `&str`, stated against the character views.
//!
//! The report trimming decides which capture lines and frames to keep by
//! looking for marker strings; these are the searches it rests on.

use vstd::prelude::*;

verus! {

/// `needle` occurs in `s` starting at position `i`.
pub open spec fn occurs_at(s: Seq<char>, needle: Seq<char>, i: int) -> bool {
    0 <= i && i + needle.len() <= s.len() && s.subrange(i, i + needle.len()) == needle
}

/// `needle` occurs somewhere in `s`.
pub open spec fn contains_seq(s: Seq<char>, needle: Seq<char>) -> bool {
    exists|i: int| occurs_at(s, needle, i)
}

/// Character-exact equality of two strings.
pub fn str_eq(a: &str, b: &str) -> (r: bool)
    ensures
        r == (a@ == b@),
{
    let la = a.unicode_len();
    let lb = b.unicode_len();
    if la != lb {
        return false;
    }
    let mut i: usize = 0;
    while i < la
        invariant
            la == a@.len(),
            la == b@.len(),
            i <= la,
            forall|j: int| 0 <= j < i ==> a@[j] == b@[j],
        decreases la - i,
    {
        if a.get_char(i) != b.get_char(i) {
            return false;
        }
        i = i + 1;
    }
    proof {
        assert(a@ =~= b@);
    }
    true
}

/// Whether `needle` occurs in `s` at position `i`.
fn match_at(s: &str, needle: &str, i: usize) -> (r: bool)
    requires
        i + needle@.len() <= s@.len(),
    ensures
        r == occurs_at(s@, needle@, i as int),
{
    let n = s.unicode_len();
    let m = needle.unicode_len();
    let mut j: usize = 0;
    while j < m
        invariant
            n == s@.len(),
            m == needle@.len(),
            i + m <= n,
            j <= m,
            forall|k: int| 0 <= k < j ==> s@[i + k] == needle@[k],
        decreases m - j,
    {
        if s.get_char(i + j) != needle.get_char(j) {
            proof {
                assert(!occurs_at(s@, needle@, i as int)) by {
                    if occurs_at(s@, needle@, i as int) {
                        let full = s@.subrange(i as int, i + needle@.len());
                        assert(full[j as int] == needle@[j as int]);
                    }
                }
            }
            return false;
        }
        j = j + 1;
    }
    proof {
        assert(s@.subrange(i as int, i + needle@.len()) =~= needle@);
    }
    true
}

/// Whether `needle` occurs anywhere in `s`.
pub fn str_contains(s: &str, needle: &str) -> (r: bool)
    ensures
        r == contains_seq(s@, needle@),
{
    let n = s.unicode_len();
    let m = needle.unicode_len();
    if m > n {
        proof {
            assert(!contains_seq(s@, needle@)) by {
                if contains_seq(s@, needle@) {
                    let j = choose|j: int| occurs_at(s@, needle@, j);
                    assert(j + needle@.len() <= s@.len());
                }
            }
        }
        return false;
    }
    if m == 0 {
        proof {
            assert(occurs_at(s@, needle@, 0)) by {
                assert(s@.subrange(0, 0) =~= needle@);
            }
        }
        return true;
    }
    let mut i: usize = 0;
    while i <= n - m
        invariant
            n == s@.len(),
            m == needle@.len(),
            1 <= m <= n,
            i <= n - m + 1,
            forall|j: int| 0 <= j < i ==> !occurs_at(s@, needle@, j),
        decreases n - m - i + 1,
    {
        if match_at(s, needle, i) {
            return true;
        }
        i = i + 1;
    }
    proof {
        assert(!contains_seq(s@, needle@)) by {
            if contains_seq(s@, needle@) {
                let j = choose|j: int| occurs_at(s@, needle@, j);
                assert(j + needle@.len() <= s@.len());
                assert(!occurs_at(s@, needle@, j));
            }
        }
    }
    false
}

} // verus!
