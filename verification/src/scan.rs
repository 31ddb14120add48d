//! Byte-sequence scanning: substring search, case-sensitive and
//! ASCII-case-insensitive, over plain byte slices.

use vstd::prelude::*;

verus! {

/// The needle `n` occurs in `h` starting at position `i`.
pub open spec fn match_at(h: Seq<u8>, n: Seq<u8>, i: int) -> bool {
    &&& 0 <= i
    &&& i + n.len() <= h.len()
    &&& forall|k: int| 0 <= k < n.len() ==> h[i + k] == n[k]
}

/// The needle `n` occurs somewhere in `h`.
pub open spec fn contains_seq(h: Seq<u8>, n: Seq<u8>) -> bool {
    exists|i: int| match_at(h, n, i)
}

/// Upper-case an ASCII letter; every other byte is left as it is.
pub open spec fn ascii_upper(b: u8) -> u8 {
    if 97 <= b <= 122 {
        (b - 32) as u8
    } else {
        b
    }
}

/// The needle `n` occurs in `h` at position `i`, comparing bytes
/// ASCII-case-insensitively.
pub open spec fn match_ci_at(h: Seq<u8>, n: Seq<u8>, i: int) -> bool {
    &&& 0 <= i
    &&& i + n.len() <= h.len()
    &&& forall|k: int| 0 <= k < n.len() ==> ascii_upper(h[i + k]) == ascii_upper(n[k])
}

/// The needle `n` occurs somewhere in `h`, ASCII-case-insensitively.
pub open spec fn contains_ci(h: Seq<u8>, n: Seq<u8>) -> bool {
    exists|i: int| match_ci_at(h, n, i)
}

/// Upper-case an ASCII letter; every other byte is returned unchanged.
pub fn upper_byte(b: u8) -> (r: u8)
    ensures
        r == ascii_upper(b),
{
    if 97 <= b && b <= 122 {
        b - 32
    } else {
        b
    }
}

/// Case-sensitive substring search over byte slices.
pub fn contains_bytes(h: &[u8], n: &[u8]) -> (r: bool)
    ensures
        r == contains_seq(h@, n@),
{
    if n.len() > h.len() {
        return false;
    }
    let mut i: usize = 0;
    while i <= h.len() - n.len()
        invariant
            n.len() <= h.len(),
            i <= h.len() - n.len() + 1,
            forall|j: int| 0 <= j < i ==> !match_at(h@, n@, j),
        decreases h.len() - n.len() - i + 1,
    {
        let mut k: usize = 0;
        let mut hit = true;
        while k < n.len()
            invariant
                n.len() <= h.len(),
                i + n.len() <= h.len(),
                k <= n.len(),
                hit <==> (forall|m: int| 0 <= m < k ==> h@[i + m] == n@[m]),
            decreases n.len() - k,
        {
            if h[i + k] != n[k] {
                hit = false;
                k = n.len();
            } else {
                if hit {
                    assert(h@[i + k] == n@[k as int]);
                    assert forall|m: int| 0 <= m < k + 1 implies h@[i + m] == n@[m] by {
                        if m < k {
                        } else {
                            assert(m == k);
                        }
                    }
                }
                k = k + 1;
            }
        }
        if hit {
            assert(match_at(h@, n@, i as int));
            return true;
        }
        i = i + 1;
    }
    false
}

/// ASCII-case-insensitive search for `n` inside `h[lo..hi]`.
pub fn range_contains_ci(h: &[u8], lo: usize, hi: usize, n: &[u8]) -> (r: bool)
    requires
        lo <= hi <= h@.len(),
    ensures
        r == contains_ci(h@.subrange(lo as int, hi as int), n@),
{
    let ghost sub = h@.subrange(lo as int, hi as int);
    if n.len() > hi - lo {
        return false;
    }
    let mut i: usize = 0;
    while i <= (hi - lo) - n.len()
        invariant
            lo <= hi <= h@.len(),
            n.len() <= hi - lo,
            i <= (hi - lo) - n.len() + 1,
            sub == h@.subrange(lo as int, hi as int),
            forall|j: int| 0 <= j < i ==> !match_ci_at(sub, n@, j),
        decreases (hi - lo) - n.len() - i + 1,
    {
        let mut k: usize = 0;
        let mut hit = true;
        while k < n.len()
            invariant
                lo <= hi <= h@.len(),
                i + n.len() <= hi - lo,
                k <= n.len(),
                sub == h@.subrange(lo as int, hi as int),
                hit <==> (forall|m: int| 0 <= m < k ==> ascii_upper(sub[i + m]) == ascii_upper(
                    n@[m],
                )),
            decreases n.len() - k,
        {
            assert(sub[i + k] == h@[lo + i + k]);
            if upper_byte(h[lo + i + k]) != upper_byte(n[k]) {
                hit = false;
                k = n.len();
            } else {
                if hit {
                    assert(ascii_upper(sub[i + k]) == ascii_upper(n@[k as int]));
                    assert forall|m: int| 0 <= m < k + 1 implies ascii_upper(sub[i + m])
                        == ascii_upper(n@[m]) by {
                        if m < k {
                        } else {
                            assert(m == k);
                        }
                    }
                }
                k = k + 1;
            }
        }
        if hit {
            assert(match_ci_at(sub, n@, i as int));
            return true;
        }
        i = i + 1;
    }
    false
}

/// Byte-for-byte equality of two slices.
pub fn bytes_eq(a: &[u8], b: &[u8]) -> (r: bool)
    ensures
        r == (a@ == b@),
{
    if a.len() != b.len() {
        return false;
    }
    let mut i: usize = 0;
    while i < a.len()
        invariant
            a@.len() == b@.len(),
            i <= a@.len(),
            forall|j: int| 0 <= j < i ==> a@[j] == b@[j],
        decreases a.len() - i,
    {
        if a[i] != b[i] {
            return false;
        }
        i = i + 1;
    }
    proof {
        assert(a@ =~= b@);
    }
    true
}

} // verus!
