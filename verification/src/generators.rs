//! Public parameters: the Pedersen commitment bases and the vector
//! generator sets the protocol commits to wires with.
//!
//! Every generator is derived deterministically by hashing a short tag, so
//! a prover and a verifier that build their parameters with the same sizes
//! agree on every point.

use vstd::prelude::*;
use curve25519_dalek::scalar::Scalar;
use curve25519_dalek::ristretto::RistrettoPoint;
use crate::ops::{pt_basepoint, pt_add, pt_mul, pt_hash};

verus! {

/// Derives one generator from a role tag and an index, by hashing the
/// 9-byte message `tag || index` into the group.
fn derive_generator(tag: u8, index: u64) -> RistrettoPoint {
    let mut msg: Vec<u8> = Vec::new();
    msg.push(tag);
    let mut k: usize = 0;
    let mut rest: u64 = index;
    while k < 8
        decreases 8 - k,
    {
        msg.push(#[verifier::truncate] (rest as u8));
        rest = rest >> 8;
        k = k + 1;
    }
    pt_hash(&msg)
}

/// The pair of bases a single scalar is committed with: `value * B +
/// blinding * B_blinding`.
pub struct PedersenGens {
    /// The base for the committed value: the Ristretto basepoint.
    pub B: RistrettoPoint,
    /// The base for the blinding factor, derived by hashing.
    pub B_blinding: RistrettoPoint,
}

impl PedersenGens {
    /// The standard bases.
    pub fn new() -> PedersenGens {
        PedersenGens { B: pt_basepoint(), B_blinding: derive_generator(0, 0) }
    }

    /// The Pedersen commitment `value * B + blinding * B_blinding`.
    pub fn commit(&self, value: &Scalar, blinding: &Scalar) -> RistrettoPoint {
        pt_add(&pt_mul(value, &self.B), &pt_mul(blinding, &self.B_blinding))
    }
}

/// The vector generator sets the wire vectors are committed with, one `G`
/// and one `H` point per supported multiplication gate.
pub struct BulletproofGens {
    /// The generators the left and output wire vectors use.
    pub G: Vec<RistrettoPoint>,
    /// The generators the right wire vector uses.
    pub H: Vec<RistrettoPoint>,
}

impl BulletproofGens {
    /// Generator sets supporting up to `gens_capacity` multiplication
    /// gates (after padding to a power of two).
    pub fn new(gens_capacity: usize) -> (r: BulletproofGens)
        ensures
            r.G@.len() == gens_capacity,
            r.H@.len() == gens_capacity,
    {
        let mut G: Vec<RistrettoPoint> = Vec::new();
        let mut H: Vec<RistrettoPoint> = Vec::new();
        let mut k: usize = 0;
        while k < gens_capacity
            invariant
                k <= gens_capacity,
                G@.len() == k,
                H@.len() == k,
            decreases gens_capacity - k,
        {
            G.push(derive_generator(1, k as u64));
            H.push(derive_generator(2, k as u64));
            k = k + 1;
        }
        BulletproofGens { G, H }
    }
}

} // verus!
