//! Byte-string model of the path operations the interpreter needs: joining a
//! relative path onto the working directory, and taking a path's parent.
//! A path is absolute when it starts with `/`; joining appends with a single
//! separator; the parent is everything before the last separator.

use vstd::prelude::*;

verus! {

pub const SEP: u8 = 47;

pub open spec fn is_abs(p: Seq<u8>) -> bool {
    p.len() > 0 && p[0] == SEP
}

pub open spec fn path_join(base: Seq<u8>, rel: Seq<u8>) -> Seq<u8> {
    if is_abs(rel) || base.len() == 0 {
        rel
    } else {
        base + seq![SEP] + rel
    }
}

pub open spec fn parent_of(p: Seq<u8>) -> Seq<u8>
    decreases p.len(),
{
    if p.len() == 0 {
        p
    } else if p.last() == SEP {
        p.drop_last()
    } else {
        parent_of(p.drop_last())
    }
}

/// Copy of the first `k` bytes.
pub fn take_prefix(p: &Vec<u8>, k: usize) -> (r: Vec<u8>)
    requires
        k <= p@.len(),
    ensures
        r@ == p@.take(k as int),
{
    let mut r: Vec<u8> = Vec::new();
    let mut i: usize = 0;
    while i < k
        invariant
            k <= p@.len(),
            i <= k,
            r@ == p@.take(i as int),
        decreases k - i,
    {
        r.push(p[i]);
        i = i + 1;
        proof {
            assert(r@ =~= p@.take(i as int));
        }
    }
    r
}

/// Copy of the bytes from position `k` on.
pub fn bytes_from(p: &Vec<u8>, k: usize) -> (r: Vec<u8>)
    requires
        k <= p@.len(),
    ensures
        r@ == p@.skip(k as int),
{
    let mut r: Vec<u8> = Vec::new();
    let mut i: usize = k;
    while i < p.len()
        invariant
            k <= i <= p@.len(),
            r@ == p@.subrange(k as int, i as int),
        decreases p@.len() - i,
    {
        r.push(p[i]);
        i = i + 1;
        proof {
            assert(r@ =~= p@.subrange(k as int, i as int));
        }
    }
    proof {
        assert(p@.subrange(k as int, p@.len() as int) =~= p@.skip(k as int));
    }
    r
}

/// Resolve `rel` against the working directory `base`.
pub fn resolve_path(base: &Vec<u8>, rel: &Vec<u8>) -> (r: Vec<u8>)
    ensures
        r@ == path_join(base@, rel@),
{
    if (rel.len() > 0 && rel[0] == SEP) || base.len() == 0 {
        crate::value::dup_bytes(rel)
    } else {
        let mut r = crate::value::dup_bytes(base);
        r.push(SEP);
        let mut i: usize = 0;
        while i < rel.len()
            invariant
                i <= rel@.len(),
                r@ == base@ + seq![SEP] + rel@.take(i as int),
            decreases rel@.len() - i,
        {
            r.push(rel[i]);
            i = i + 1;
            proof {
                assert(r@ =~= base@ + seq![SEP] + rel@.take(i as int));
            }
        }
        proof {
            assert(rel@.take(rel@.len() as int) =~= rel@);
            assert(r@ =~= base@ + seq![SEP] + rel@);
        }
        r
    }
}

pub open spec fn ends_with_spec(h: Seq<u8>, n: Seq<u8>) -> bool {
    n.len() <= h.len() && h.skip(h.len() - n.len()) == n
}

/// Whether `h` ends with the suffix `n`.
pub fn ends_with(h: &Vec<u8>, n: &Vec<u8>) -> (r: bool)
    ensures
        r == ends_with_spec(h@, n@),
{
    if n.len() > h.len() {
        return false;
    }
    let r = crate::value::match_at(h, n, h.len() - n.len());
    proof {
        assert(h@.subrange(h@.len() - n@.len(), h@.len() as int) =~= h@.skip(h@.len() - n@.len()));
    }
    r
}

/// The parent directory of a path.
pub fn parent_dir(p: &Vec<u8>) -> (r: Vec<u8>)
    ensures
        r@ == parent_of(p@),
{
    let mut i: usize = p.len();
    proof {
        assert(p@.take(p@.len() as int) =~= p@);
    }
    while i > 0
        invariant
            i <= p@.len(),
            parent_of(p@) == parent_of(p@.take(i as int)),
        decreases i,
    {
        proof {
            assert(p@.take(i as int).drop_last() =~= p@.take(i as int - 1));
            assert(p@.take(i as int).last() == p@[i as int - 1]);
        }
        if p[i - 1] == SEP {
            return take_prefix(p, i - 1);
        }
        i = i - 1;
    }
    proof {
        assert(p@.take(0) =~= Seq::<u8>::empty());
    }
    Vec::new()
}

} // verus!
