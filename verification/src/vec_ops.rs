//! Small verified helpers over vectors of scalars, points and bytes that
//! the protocol phases share.

use vstd::prelude::*;
use curve25519_dalek::scalar::Scalar;
use curve25519_dalek::ristretto::RistrettoPoint;
use crate::ops::{sc_add, sc_mul, sc_from_u64, pt_add, pt_mul};

verus! {

broadcast use vstd::array::group_array_axioms;

/// The scalar inner product of two equally long vectors.
pub(crate) fn inner_product(a: &Vec<Scalar>, b: &Vec<Scalar>) -> Scalar
    requires
        a@.len() == b@.len(),
{
    let mut acc = sc_from_u64(0);
    let mut k: usize = 0;
    while k < a.len()
        invariant
            a@.len() == b@.len(),
            k <= a@.len(),
        decreases a@.len() - k,
    {
        acc = sc_add(&acc, &sc_mul(&a[k], &b[k]));
        k = k + 1;
    }
    acc
}

/// A vector of `n` zero scalars.
pub(crate) fn zeros(n: usize) -> (r: Vec<Scalar>)
    ensures
        r@.len() == n,
{
    let mut r: Vec<Scalar> = Vec::new();
    let mut k: usize = 0;
    while k < n
        invariant
            k <= n,
            r@.len() == k,
        decreases n - k,
    {
        r.push(sc_from_u64(0));
        k = k + 1;
    }
    r
}

/// The subvector `v[start .. end]`.
pub(crate) fn scalar_slice(v: &Vec<Scalar>, start: usize, end: usize) -> (r: Vec<Scalar>)
    requires
        start <= end <= v@.len(),
    ensures
        r@ == v@.subrange(start as int, end as int),
{
    let mut r: Vec<Scalar> = Vec::new();
    let mut k: usize = start;
    while k < end
        invariant
            start <= k <= end <= v@.len(),
            r@ == v@.subrange(start as int, k as int),
        decreases end - k,
    {
        r.push(v[k]);
        proof {
            assert(v@.subrange(start as int, k + 1 as int) == v@.subrange(start as int, k as int).push(v@[k as int]));
        }
        k = k + 1;
    }
    r
}

/// The subvector `v[start .. end]`.
pub(crate) fn point_slice(v: &Vec<RistrettoPoint>, start: usize, end: usize) -> (r: Vec<RistrettoPoint>)
    requires
        start <= end <= v@.len(),
    ensures
        r@ == v@.subrange(start as int, end as int),
{
    let mut r: Vec<RistrettoPoint> = Vec::new();
    let mut k: usize = start;
    while k < end
        invariant
            start <= k <= end <= v@.len(),
            r@ == v@.subrange(start as int, k as int),
        decreases end - k,
    {
        r.push(v[k]);
        proof {
            assert(v@.subrange(start as int, k + 1 as int) == v@.subrange(start as int, k as int).push(v@[k as int]));
        }
        k = k + 1;
    }
    r
}

/// Appends a copy of every element of `src` to `dst`, in order.
pub(crate) fn append_scalars(dst: &mut Vec<Scalar>, src: &Vec<Scalar>)
    ensures
        final(dst)@ == old(dst)@ + src@,
{
    let ghost orig = dst@;
    let mut k: usize = 0;
    while k < src.len()
        invariant
            k <= src@.len(),
            dst@ == orig + src@.subrange(0, k as int),
        decreases src@.len() - k,
    {
        dst.push(src[k]);
        proof {
            assert(src@.subrange(0, k + 1 as int) == src@.subrange(0, k as int).push(src@[k as int]));
        }
        k = k + 1;
    }
    proof {
        assert(src@.subrange(0, src@.len() as int) == src@);
    }
}

/// Appends a copy of every element of `src` to `dst`, in order.
pub(crate) fn append_points(dst: &mut Vec<RistrettoPoint>, src: &Vec<RistrettoPoint>)
    ensures
        final(dst)@ == old(dst)@ + src@,
{
    let ghost orig = dst@;
    let mut k: usize = 0;
    while k < src.len()
        invariant
            k <= src@.len(),
            dst@ == orig + src@.subrange(0, k as int),
        decreases src@.len() - k,
    {
        dst.push(src[k]);
        proof {
            assert(src@.subrange(0, k + 1 as int) == src@.subrange(0, k as int).push(src@[k as int]));
        }
        k = k + 1;
    }
    proof {
        assert(src@.subrange(0, src@.len() as int) == src@);
    }
}

/// The pointwise combination `x[i] * xw + y[i] * yw`.
pub(crate) fn fold_scalars(x: &Vec<Scalar>, xw: &Scalar, y: &Vec<Scalar>, yw: &Scalar) -> (r: Vec<
    Scalar,
>)
    requires
        x@.len() == y@.len(),
    ensures
        r@.len() == x@.len(),
{
    let mut r: Vec<Scalar> = Vec::new();
    let mut k: usize = 0;
    while k < x.len()
        invariant
            x@.len() == y@.len(),
            k <= x@.len(),
            r@.len() == k,
        decreases x@.len() - k,
    {
        r.push(sc_add(&sc_mul(&x[k], xw), &sc_mul(&y[k], yw)));
        k = k + 1;
    }
    r
}

/// The pointwise combination `xw * x[i] + yw * y[i]` over group elements.
pub(crate) fn fold_points(x: &Vec<RistrettoPoint>, xw: &Scalar, y: &Vec<RistrettoPoint>, yw: &Scalar) -> (r:
    Vec<RistrettoPoint>)
    requires
        x@.len() == y@.len(),
    ensures
        r@.len() == x@.len(),
{
    let mut r: Vec<RistrettoPoint> = Vec::new();
    let mut k: usize = 0;
    while k < x.len()
        invariant
            x@.len() == y@.len(),
            k <= x@.len(),
            r@.len() == k,
        decreases x@.len() - k,
    {
        r.push(pt_add(&pt_mul(xw, &x[k]), &pt_mul(yw, &y[k])));
        k = k + 1;
    }
    r
}

/// The first `count` powers of `x`, starting from one.
pub(crate) fn scalar_powers(x: &Scalar, count: usize) -> (r: Vec<Scalar>)
    ensures
        r@.len() == count,
{
    let mut r: Vec<Scalar> = Vec::new();
    let mut acc = sc_from_u64(1);
    let mut k: usize = 0;
    while k < count
        invariant
            k <= count,
            r@.len() == k,
        decreases count - k,
    {
        r.push(acc);
        acc = sc_mul(&acc, x);
        k = k + 1;
    }
    r
}

/// Appends the 32 bytes of `b` to `dst`, in order.
pub(crate) fn push_block(dst: &mut Vec<u8>, b: &[u8; 32])
    ensures
        final(dst)@ == old(dst)@ + b@,
{
    let ghost orig = dst@;
    let mut k: usize = 0;
    while k < 32
        invariant
            k <= 32,
            b@.len() == 32,
            dst@ == orig + b@.subrange(0, k as int),
        decreases 32 - k,
    {
        dst.push(b[k]);
        proof {
            assert(b@.subrange(0, k + 1 as int) == b@.subrange(0, k as int).push(b@[k as int]));
        }
        k = k + 1;
    }
    proof {
        assert(b@.subrange(0, 32) == b@);
    }
}

/// The 32-byte block of `bytes` starting at offset `k`.
pub(crate) fn read_block(bytes: &Vec<u8>, k: usize) -> (r: [u8; 32])
    requires
        k + 32 <= bytes@.len(),
    ensures
        r@ == bytes@.subrange(k as int, k as int + 32),
{
    let mut out: [u8; 32] = [0u8; 32];
    let len = bytes.len();
    let mut j: usize = 0;
    while j < 32
        invariant
            j <= 32,
            k + 32 <= len,
            len == bytes@.len(),
            out@.len() == 32,
            forall|i: int| 0 <= i < j ==> out@[i] == bytes@[k + i],
        decreases 32 - j,
    {
        out[j] = bytes[k + j];
        j = j + 1;
    }
    proof {
        assert(out@ =~= bytes@.subrange(k as int, k as int + 32));
    }
    out
}

} // verus!
