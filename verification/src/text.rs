//! Byte-level text helpers.
//!
//! All free text in this crate (captured command output, file names, ledger
//! lines) is handled as UTF-8 bytes.  This module gives the spec-level
//! vocabulary for that text - whitespace trimming, ASCII lowercasing,
//! substring search - together with verified executable counterparts.

use vstd::prelude::*;

verus! {

/// ASCII whitespace: space, tab, line feed, carriage return.
pub open spec fn is_space(b: u8) -> bool {
    b == 32 || b == 9 || b == 10 || b == 13
}

/// ASCII lowercasing of a single byte; bytes outside `A..=Z` are unchanged.
pub open spec fn lower_byte(b: u8) -> u8 {
    if 65 <= b && b <= 90 {
        (b + 32) as u8
    } else {
        b
    }
}

/// ASCII lowercasing of a byte string.
pub open spec fn lower(s: Seq<u8>) -> Seq<u8> {
    s.map_values(|b: u8| lower_byte(b))
}

/// `s` with its leading ASCII whitespace removed.
pub open spec fn trim_front(s: Seq<u8>) -> Seq<u8>
    decreases s.len(),
{
    if s.len() > 0 && is_space(s[0]) {
        trim_front(s.drop_first())
    } else {
        s
    }
}

/// `s` with its trailing ASCII whitespace removed.
pub open spec fn trim_back(s: Seq<u8>) -> Seq<u8>
    decreases s.len(),
{
    if s.len() > 0 && is_space(s.last()) {
        trim_back(s.drop_last())
    } else {
        s
    }
}

/// `s` with both leading and trailing ASCII whitespace removed.
pub open spec fn trimmed(s: Seq<u8>) -> Seq<u8> {
    trim_back(trim_front(s))
}

/// The needle `n` occurs in `h` starting at position `i`.
pub open spec fn match_at(h: Seq<u8>, n: Seq<u8>, i: int) -> bool {
    &&& 0 <= i
    &&& i + n.len() <= h.len()
    &&& h.subrange(i, i + n.len() as int) == n
}

/// The needle `n` occurs somewhere in `h`.
pub open spec fn contains_seq(h: Seq<u8>, n: Seq<u8>) -> bool {
    exists|i: int| match_at(h, n, i)
}

/// Executable test for [`is_space`].
pub fn is_space_byte(b: u8) -> (r: bool)
    ensures
        r == is_space(b),
{
    b == 32 || b == 9 || b == 10 || b == 13
}

/// Byte-string equality, decided byte by byte.
pub fn bytes_eq(a: &[u8], b: &[u8]) -> (r: bool)
    ensures
        r == (a@ == b@),
{
    if a.len() != b.len() {
        assert(a@.len() != b@.len());
        return false;
    }
    let n = a.len();
    let mut i: usize = 0;
    while i < n
        invariant
            i <= n,
            n == a@.len(),
            n == b@.len(),
            forall|j: int| 0 <= j < i ==> a@[j] == b@[j],
        decreases n - i,
    {
        if a[i] != b[i] {
            assert(a@[i as int] != b@[i as int]);
            return false;
        }
        i += 1;
    }
    assert(a@ =~= b@);
    true
}

/// Appends every byte of `s` to `v`.
pub fn push_all(v: &mut Vec<u8>, s: &[u8])
    ensures
        final(v)@ == old(v)@ + s@,
{
    let n = s.len();
    let mut i: usize = 0;
    while i < n
        invariant
            i <= n,
            n == s@.len(),
            v@ == old(v)@ + s@.subrange(0, i as int),
        decreases n - i,
    {
        v.push(s[i]);
        assert(old(v)@ + s@.subrange(0, i as int) + seq![s@[i as int]] =~= old(v)@ + s@.subrange(
            0,
            i + 1,
        ));
        i += 1;
    }
    assert(s@.subrange(0, n as int) =~= s@);
}

/// ASCII-lowercases a byte string.
pub fn lowercased(s: &[u8]) -> (r: Vec<u8>)
    ensures
        r@ == lower(s@),
{
    let n = s.len();
    let mut r: Vec<u8> = Vec::new();
    let mut i: usize = 0;
    while i < n
        invariant
            i <= n,
            n == s@.len(),
            r@.len() == i,
            forall|j: int| 0 <= j < i ==> r@[j] == lower_byte(s@[j]),
        decreases n - i,
    {
        let b = s[i];
        if 65 <= b && b <= 90 {
            r.push(b + 32);
        } else {
            r.push(b);
        }
        i += 1;
    }
    assert(r@ =~= lower(s@));
    r
}

proof fn lemma_trim_front_is_subrange(s: Seq<u8>, lo: int)
    requires
        0 <= lo <= s.len(),
        forall|j: int| 0 <= j < lo ==> is_space(s[j]),
        lo == s.len() || !is_space(s[lo]),
    ensures
        trim_front(s) == s.subrange(lo, s.len() as int),
    decreases lo,
{
    if lo == 0 {
        if s.len() > 0 && is_space(s[0]) {
            assert(!is_space(s[lo]));
            assert(false);
        }
        assert(s.subrange(0, s.len() as int) =~= s);
    } else {
        assert(is_space(s[0]));
        let t = s.drop_first();
        lemma_trim_front_is_subrange(t, lo - 1);
        assert(t.subrange(lo - 1, t.len() as int) =~= s.subrange(lo, s.len() as int));
    }
}

proof fn lemma_trim_back_is_subrange(s: Seq<u8>, hi: int)
    requires
        0 <= hi <= s.len(),
        forall|j: int| hi <= j < s.len() ==> is_space(s[j]),
        hi == 0 || !is_space(s[hi - 1]),
    ensures
        trim_back(s) == s.subrange(0, hi),
    decreases s.len(),
{
    if hi == s.len() {
        if s.len() > 0 && is_space(s.last()) {
            assert(!is_space(s[hi - 1]));
            assert(false);
        }
        assert(s.subrange(0, s.len() as int) =~= s);
    } else {
        assert(is_space(s.last()));
        let t = s.drop_last();
        lemma_trim_back_is_subrange(t, hi);
        assert(t.subrange(0, hi) =~= s.subrange(0, hi));
    }
}

/// Removes leading and trailing ASCII whitespace from a byte string.
pub fn trim(s: &[u8]) -> (r: Vec<u8>)
    ensures
        r@ == trimmed(s@),
{
    let n = s.len();
    let mut lo: usize = 0;
    while lo < n && is_space_byte(s[lo])
        invariant
            lo <= n,
            n == s@.len(),
            forall|j: int| 0 <= j < lo ==> is_space(s@[j]),
        decreases n - lo,
    {
        lo += 1;
    }
    let mut hi: usize = n;
    while hi > lo && is_space_byte(s[hi - 1])
        invariant
            lo <= hi <= n,
            n == s@.len(),
            forall|j: int| 0 <= j < lo ==> is_space(s@[j]),
            forall|j: int| hi <= j < n ==> is_space(s@[j]),
        decreases hi,
    {
        hi -= 1;
    }
    proof {
        lemma_trim_front_is_subrange(s@, lo as int);
        let f = s@.subrange(lo as int, n as int);
        if hi == lo {
            lemma_trim_back_is_subrange(f, 0);
        } else {
            lemma_trim_back_is_subrange(f, hi - lo);
        }
        assert(f.subrange(0, hi - lo) =~= s@.subrange(lo as int, hi as int));
    }
    let sub = vstd::slice::slice_subrange(s, lo, hi);
    vstd::slice::slice_to_vec(sub)
}

/// Substring search: does the needle `n` occur anywhere in `h`?
pub fn contains_bytes(h: &[u8], n: &[u8]) -> (r: bool)
    ensures
        r == contains_seq(h@, n@),
{
    let hn = h.len();
    let nn = n.len();
    if nn > hn {
        assert(forall|i: int| !match_at(h@, n@, i));
        return false;
    }
    let mut i: usize = 0;
    while i <= hn - nn
        invariant
            i <= hn - nn + 1,
            nn <= hn,
            hn == h@.len(),
            nn == n@.len(),
            forall|k: int| 0 <= k < i ==> !match_at(h@, n@, k),
        decreases hn + 1 - nn - i,
    {
        let mut j: usize = 0;
        while j < nn && h[i + j] == n[j]
            invariant
                j <= nn,
                i + nn <= hn,
                hn == h@.len(),
                nn == n@.len(),
                forall|t: int| 0 <= t < j ==> h@[i + t] == n@[t],
            decreases nn - j,
        {
            j += 1;
        }
        if j == nn {
            assert(h@.subrange(i as int, i + nn as int) =~= n@);
            assert(match_at(h@, n@, i as int));
            return true;
        }
        assert(!match_at(h@, n@, i as int)) by {
            if match_at(h@, n@, i as int) {
                assert(h@.subrange(i as int, i + nn as int)[j as int] == n@[j as int]);
            }
        }
        i += 1;
    }
    assert(forall|k: int| 0 <= k ==> !match_at(h@, n@, k)) by {
        assert(forall|k: int| k > hn - nn ==> !match_at(h@, n@, k));
    }
    false
}

} // verus!
