//! Byte-sequence searching shared by the disclosure and verification stages:
//! first-occurrence substring search and the predicates its contracts use.

use vstd::prelude::*;

verus! {

/// The needle `n` occurs in `h` starting at position `i`.
pub open spec fn match_at(h: Seq<u8>, n: Seq<u8>, i: int) -> bool {
    &&& 0 <= i
    &&& i + n.len() <= h.len()
    &&& h.subrange(i, i + n.len() as int) == n
}

/// The needle `n` occurs somewhere in `h`.
pub open spec fn contains_seq(h: Seq<u8>, n: Seq<u8>) -> bool {
    exists|i: int| match_at(h, n, i)
}

/// True iff `h[i..i+n.len()] == n`, checked byte by byte.
fn is_match_at(h: &[u8], n: &[u8], i: usize) -> (r: bool)
    requires
        i + n@.len() <= h@.len(),
    ensures
        r == match_at(h@, n@, i as int),
{
    let nlen: usize = n.len();
    let hlen: usize = h.len();
    let mut j: usize = 0;
    while j < nlen
        invariant
            nlen == n@.len(),
            hlen == h@.len(),
            i + n@.len() <= h@.len(),
            0 <= j <= n@.len(),
            forall|k: int| 0 <= k < j ==> h@[i + k] == n@[k],
        decreases n@.len() - j,
    {
        if h[i + j] != n[j] {
            assert(h@.subrange(i as int, i + n@.len() as int)[j as int] != n@[j as int]);
            return false;
        }
        j += 1;
    }
    assert(h@.subrange(i as int, i + n@.len() as int) =~= n@);
    true
}

/// Position of the first occurrence of `n` in `h`, if any.
pub fn find_pattern(h: &[u8], n: &[u8]) -> (r: Option<usize>)
    ensures
        match r {
            Some(i) => match_at(h@, n@, i as int) && forall|j: int|
                0 <= j < i ==> !match_at(h@, n@, j),
            None => !contains_seq(h@, n@),
        },
{
    if n.len() > h.len() {
        assert(forall|i: int| !(#[trigger] match_at(h@, n@, i)));
        return None;
    }
    if n.len() == 0 {
        assert(h@.subrange(0, 0) =~= n@);
        return Some(0);
    }
    let last: usize = h.len() - n.len();
    let mut i: usize = 0;
    while i <= last
        invariant
            n@.len() <= h@.len(),
            last == h@.len() - n@.len(),
            last < usize::MAX,
            0 <= i <= last + 1,
            forall|j: int| 0 <= j < i ==> !match_at(h@, n@, j),
        decreases last - i + 1,
    {
        if is_match_at(h, n, i) {
            return Some(i);
        }
        i += 1;
    }
    None
}

/// Whether two byte slices hold the same bytes.
pub fn bytes_eq(a: &[u8], b: &[u8]) -> (r: bool)
    ensures
        r == (a@ == b@),
{
    let alen: usize = a.len();
    if alen != b.len() {
        assert(a@ != b@);
        return false;
    }
    let mut i: usize = 0;
    while i < alen
        invariant
            alen == a@.len() == b@.len(),
            0 <= i <= alen,
            forall|j: int| 0 <= j < i ==> a@[j] == b@[j],
        decreases alen - i,
    {
        if a[i] != b[i] {
            return false;
        }
        i += 1;
    }
    assert(a@ =~= b@);
    true
}

/// Whether `n` occurs anywhere in `h`.
pub fn contains_pattern(h: &[u8], n: &[u8]) -> (r: bool)
    ensures
        r == contains_seq(h@, n@),
{
    find_pattern(h, n).is_some()
}

} // verus!
