//! Small verified helpers on byte slices and byte vectors.
//!
//! The pipeline works on manifest bytes; these are the primitive scans and
//! comparisons that the parsers and the extractor share.

use vstd::prelude::*;

verus! {

/// `p` is a prefix of `s`.
pub open spec fn is_prefix_of(p: Seq<u8>, s: Seq<u8>) -> bool {
    p.len() <= s.len() && s.subrange(0, p.len() as int) == p
}

/// Exact equality of two byte slices.
pub fn bytes_eq(a: &[u8], b: &[u8]) -> (r: bool)
    ensures
        r == (a@ == b@),
{
    if a.len() != b.len() {
        assert(a@ != b@) by {
            assert(a@.len() != b@.len());
        }
        return false;
    }
    let mut i: usize = 0;
    while i < a.len()
        invariant
            i <= a.len(),
            a.len() == b.len(),
            forall|j: int| 0 <= j < i ==> a@[j] == b@[j],
        decreases a.len() - i,
    {
        if a[i] != b[i] {
            return false;
        }
        i += 1;
    }
    proof {
        assert(a@ =~= b@);
    }
    true
}

/// Does `s` start with `p`?
pub fn starts_with(s: &[u8], p: &[u8]) -> (r: bool)
    ensures
        r == is_prefix_of(p@, s@),
{
    if p.len() > s.len() {
        return false;
    }
    let mut i: usize = 0;
    while i < p.len()
        invariant
            i <= p.len(),
            p.len() <= s.len(),
            forall|j: int| 0 <= j < i ==> s@[j] == p@[j],
        decreases p.len() - i,
    {
        if s[i] != p[i] {
            assert(s@.subrange(0, p@.len() as int)[i as int] != p@[i as int]);
            return false;
        }
        i += 1;
    }
    proof {
        assert(s@.subrange(0, p@.len() as int) =~= p@);
    }
    true
}

/// Copy of `s[from..to]` as a fresh vector.
pub fn subvec(s: &[u8], from: usize, to: usize) -> (r: Vec<u8>)
    requires
        from <= to <= s@.len(),
    ensures
        r@ == s@.subrange(from as int, to as int),
{
    let mut r: Vec<u8> = Vec::new();
    let mut i: usize = from;
    while i < to
        invariant
            from <= i <= to <= s@.len(),
            r@ == s@.subrange(from as int, i as int),
        decreases to - i,
    {
        r.push(s[i]);
        proof {
            assert(r@ =~= s@.subrange(from as int, i + 1 as int));
        }
        i += 1;
    }
    r
}

/// Append every byte of `src` to `dst`.
pub fn append_bytes(dst: &mut Vec<u8>, src: &[u8])
    ensures
        final(dst)@ == old(dst)@ + src@,
{
    let mut i: usize = 0;
    while i < src.len()
        invariant
            i <= src@.len(),
            dst@ == old(dst)@ + src@.subrange(0, i as int),
        decreases src@.len() - i,
    {
        dst.push(src[i]);
        proof {
            assert(old(dst)@ + src@.subrange(0, i + 1 as int) =~= (old(dst)@ + src@.subrange(
                0,
                i as int,
            )).push(src@[i as int]));
        }
        i += 1;
    }
    proof {
        assert(src@.subrange(0, src@.len() as int) =~= src@);
    }
}

/// Owned copy of a byte vector.
pub fn copy_bytes(v: &Vec<u8>) -> (r: Vec<u8>)
    ensures
        r@ == v@,
{
    let c = subvec(v.as_slice(), 0, v.len());
    proof {
        assert(v@.subrange(0, v@.len() as int) =~= v@);
    }
    c
}

/// Index of the first occurrence of `b` in `s` at or after `from`.
pub fn find_byte(s: &[u8], from: usize, b: u8) -> (r: Option<usize>)
    requires
        from <= s@.len(),
    ensures
        match r {
            Some(i) => from <= i < s@.len() && s@[i as int] == b && forall|j: int|
                from <= j < i ==> s@[j] != b,
            None => forall|j: int| from <= j < s@.len() ==> s@[j] != b,
        },
{
    let mut i: usize = from;
    while i < s.len()
        invariant
            from <= i <= s@.len(),
            forall|j: int| from <= j < i ==> s@[j] != b,
        decreases s@.len() - i,
    {
        if s[i] == b {
            return Some(i);
        }
        i += 1;
    }
    None
}

/// Index of the last occurrence of `b` in `s`.
pub fn rfind_byte(s: &[u8], b: u8) -> (r: Option<usize>)
    ensures
        match r {
            Some(i) => i < s@.len() && s@[i as int] == b && forall|j: int|
                i < j < s@.len() ==> s@[j] != b,
            None => forall|j: int| 0 <= j < s@.len() ==> s@[j] != b,
        },
{
    let mut i: usize = s.len();
    while i > 0
        invariant
            i <= s@.len(),
            forall|j: int| i <= j < s@.len() ==> s@[j] != b,
        decreases i,
    {
        i -= 1;
        if s[i] == b {
            return Some(i);
        }
    }
    None
}


/// `pat` occurs in `s` at position `i`.
pub open spec fn matches_at(s: Seq<u8>, pat: Seq<u8>, i: int) -> bool {
    0 <= i && i + pat.len() <= s.len() && s.subrange(i, i + pat.len()) == pat
}

/// Index of the first occurrence of `pat` in `s` at or after `from`.
pub fn find_subslice(s: &[u8], from: usize, pat: &[u8]) -> (r: Option<usize>)
    requires
        from <= s@.len(),
        pat@.len() > 0,
    ensures
        match r {
            Some(i) => from <= i && matches_at(s@, pat@, i as int) && forall|j: int|
                from <= j < i ==> !matches_at(s@, pat@, j),
            None => forall|j: int| from <= j < s@.len() ==> !matches_at(s@, pat@, j),
        },
{
    let n = s.len();
    if pat.len() > n {
        return None;
    }
    let limit = n - pat.len();
    if from > limit {
        proof {
            assert forall|j: int| from <= j < s@.len() implies !matches_at(s@, pat@, j) by {}
        }
        return None;
    }
    let mut i: usize = from;
    while i <= limit
        invariant
            from <= i <= limit + 1,
            n == s@.len(),
            limit == n - pat@.len(),
            0 < pat@.len() <= n,
            forall|j: int| from <= j < i ==> !matches_at(s@, pat@, j),
        decreases limit + 1 - i,
    {
        let window = subvec(s, i, i + pat.len());
        if bytes_eq(window.as_slice(), pat) {
            return Some(i);
        }
        i += 1;
    }
    proof {
        assert forall|j: int| from <= j < s@.len() implies !matches_at(s@, pat@, j) by {
            if j + pat@.len() <= s@.len() {
                assert(j < i);
            }
        }
    }
    None
}

/// The bytes strictly between the first occurrence of `pre` and the next
/// occurrence of `post` after it; nothing exactly when `pre` never occurs,
/// or `post` never occurs after it.
pub fn find_delimited(s: &[u8], pre: &[u8], post: &[u8]) -> (r: Option<Vec<u8>>)
    requires
        pre@.len() > 0,
        post@.len() > 0,
    ensures
        match r {
            Some(v) => exists|i: int, j: int|
                #![auto]
                matches_at(s@, pre@, i) && (forall|k: int| 0 <= k < i ==> !matches_at(s@, pre@, k))
                    && i + pre@.len() <= j && matches_at(s@, post@, j) && (forall|k: int|
                    i + pre@.len() <= k < j ==> !matches_at(s@, post@, k)) && v@ == s@.subrange(
                    i + pre@.len(),
                    j,
                ),
            None => (forall|k: int| 0 <= k < s@.len() ==> !matches_at(s@, pre@, k)) || (exists|
                i: int,
            |
                #![auto]
                matches_at(s@, pre@, i) && (forall|k: int| 0 <= k < i ==> !matches_at(s@, pre@, k))
                    && (forall|k: int|
                    i + pre@.len() <= k < s@.len() ==> !matches_at(s@, post@, k))),
        },
{
    let n = s.len();
    let start = match find_subslice(s, 0, pre) {
        Some(i) => i,
        None => {
            return None;
        },
    };
    proof {
        assert(start + pre@.len() <= n);
    }
    let content_start = start + pre.len();
    match find_subslice(s, content_start, post) {
        Some(j) => {
            let v = subvec(s, content_start, j);
            proof {
                assert(matches_at(s@, pre@, start as int) && (forall|k: int|
                    0 <= k < start ==> !matches_at(s@, pre@, k)) && start + pre@.len()
                    <= j as int && matches_at(s@, post@, j as int) && (forall|k: int|
                    start + pre@.len() <= k < j ==> !matches_at(s@, post@, k)) && v@
                    == s@.subrange(start + pre@.len(), j as int));
            }
            Some(v)
        },
        None => None,
    }
}

} // verus!
