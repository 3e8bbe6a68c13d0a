//! Verified text predicates.
//!
//! The routing and classification rules of the bridge are all phrased
//! over strings: symbolic key names, client identifiers, interface
//! names, display identifiers.  This module provides the three exact
//! string predicates those rules need: equality, prefix and substring.

use vstd::prelude::*;
use vstd::string::*;

verus! {

/// `p` is a prefix of `s`.
pub open spec fn has_prefix(s: Seq<char>, p: Seq<char>) -> bool {
    p.len() <= s.len() && s.subrange(0, p.len() as int) == p
}

/// `n` occurs somewhere in `s` as a contiguous run of characters.
pub open spec fn contains_sub(s: Seq<char>, n: Seq<char>) -> bool {
    exists|i: int|
        0 <= i && i + n.len() <= s.len() && (#[trigger] s.subrange(i, i + n.len() as int)) == n
}

/// Character-for-character equality of two string slices.
pub fn str_eq(a: &str, b: &str) -> (r: bool)
    ensures
        r == (a@ == b@),
{
    let alen = a.unicode_len();
    let blen = b.unicode_len();
    if alen != blen {
        return false;
    }
    let mut i: usize = 0;
    while i < alen
        invariant
            alen == a@.len(),
            blen == b@.len(),
            alen == blen,
            i <= alen,
            forall|k: int| 0 <= k < i ==> a@[k] == b@[k],
        decreases alen - i,
    {
        if a.get_char(i) != b.get_char(i) {
            return false;
        }
        i += 1;
    }
    proof {
        assert(a@ =~= b@);
    }
    true
}

/// Whether `s` starts with `prefix`.
pub fn str_starts_with(s: &str, prefix: &str) -> (r: bool)
    ensures
        r == has_prefix(s@, prefix@),
{
    let slen = s.unicode_len();
    let plen = prefix.unicode_len();
    if plen > slen {
        return false;
    }
    let mut i: usize = 0;
    while i < plen
        invariant
            slen == s@.len(),
            plen == prefix@.len(),
            plen <= slen,
            i <= plen,
            forall|k: int| 0 <= k < i ==> s@[k] == prefix@[k],
        decreases plen - i,
    {
        if s.get_char(i) != prefix.get_char(i) {
            proof {
                assert(!has_prefix(s@, prefix@)) by {
                    if has_prefix(s@, prefix@) {
                        assert(s@.subrange(0, prefix@.len() as int)[i as int] == s@[i as int]);
                    }
                }
            }
            return false;
        }
        i += 1;
    }
    proof {
        assert(s@.subrange(0, prefix@.len() as int) =~= prefix@);
    }
    true
}

/// Whether the characters of `needle` appear at position `at` of `s`.
fn match_at(s: &str, needle: &str, at: usize) -> (r: bool)
    requires
        at + needle@.len() <= s@.len(),
    ensures
        r == (s@.subrange(at as int, at as int + needle@.len() as int) == needle@),
{
    let slen = s.unicode_len();
    let nlen = needle.unicode_len();
    let mut k: usize = 0;
    while k < nlen
        invariant
            slen == s@.len(),
            nlen == needle@.len(),
            at + nlen <= slen,
            k <= nlen,
            forall|j: int| 0 <= j < k ==> s@[at + j] == needle@[j],
        decreases nlen - k,
    {
        if s.get_char(at + k) != needle.get_char(k) {
            proof {
                let sub = s@.subrange(at as int, at as int + needle@.len() as int);
                assert(sub != needle@) by {
                    if sub == needle@ {
                        assert(sub[k as int] == s@[at + k]);
                    }
                }
            }
            return false;
        }
        k += 1;
    }
    proof {
        assert(s@.subrange(at as int, at as int + needle@.len() as int) =~= needle@);
    }
    true
}

/// Whether `needle` occurs anywhere in `s`.
pub fn str_contains(s: &str, needle: &str) -> (r: bool)
    ensures
        r == contains_sub(s@, needle@),
{
    let slen = s.unicode_len();
    let nlen = needle.unicode_len();
    if nlen == 0 {
        proof {
            assert(s@.subrange(0, 0 + needle@.len() as int) =~= needle@);
        }
        return true;
    }
    if nlen > slen {
        proof {
            assert(!contains_sub(s@, needle@)) by {
                if contains_sub(s@, needle@) {
                    let i = choose|i: int|
                        0 <= i && i + needle@.len() <= s@.len() && (#[trigger] s@.subrange(
                            i,
                            i + needle@.len() as int,
                        )) == needle@;
                }
            }
        }
        return false;
    }
    let bound = slen - nlen;
    let mut start: usize = 0;
    while start <= bound
        invariant
            slen == s@.len(),
            nlen == needle@.len(),
            1 <= nlen <= slen,
            bound == slen - nlen,
            start <= bound + 1,
            forall|j: int|
                0 <= j < start ==> (#[trigger] s@.subrange(j, j + needle@.len() as int))
                    != needle@,
        decreases bound + 1 - start,
    {
        if match_at(s, needle, start) {
            return true;
        }
        start += 1;
    }
    proof {
        assert(!contains_sub(s@, needle@)) by {
            if contains_sub(s@, needle@) {
                let i = choose|i: int|
                    0 <= i && i + needle@.len() <= s@.len() && (#[trigger] s@.subrange(
                        i,
                        i + needle@.len() as int,
                    )) == needle@;
            }
        }
    }
    false
}

} // verus!
