//! The inner-product argument: a sub-protocol proving that the inner
//! product of two committed vectors equals the value bound inside a
//! synthetic commitment, with proof size logarithmic in the vector length.
//!
//! Both vectors must have power-of-two length.  Each round halves them:
//! the prover sends two cross-term commitments, the transcript returns a
//! challenge, and both sides fold vectors and generators with it.

use vstd::prelude::*;
use curve25519_dalek::scalar::Scalar;
use curve25519_dalek::ristretto::RistrettoPoint;
use merlin::Transcript;
use crate::errors::R1CSError;
use crate::ops::{
    challenge_scalar, pt_add, pt_compress, pt_decompress, pt_eq, pt_msm, pt_mul, sc_from_canonical,
    sc_invert, sc_mul, sc_to_bytes, tr_append_32,
};
use crate::vec_ops::{append_points, append_scalars, fold_points, fold_scalars, inner_product,
    point_slice, scalar_slice};

verus! {

/// Whether `n` is a nonzero power of two.
pub open spec fn is_pow2(n: nat) -> bool
    decreases n,
{
    if n == 0 {
        false
    } else if n == 1 {
        true
    } else {
        n % 2 == 0 && is_pow2(n / 2)
    }
}

/// The smallest nonzero power of two at or above `n`.
pub open spec fn min_pow2_at_least(n: nat) -> nat
    decreases n,
{
    if n <= 1 {
        1
    } else {
        2 * min_pow2_at_least((n + 1) / 2)
    }
}

/// The smallest nonzero power of two at or above `n` is at least `n`.
pub proof fn lemma_min_pow2_at_least_ge(n: nat)
    ensures
        n <= min_pow2_at_least(n),
        1 <= min_pow2_at_least(n),
        is_pow2(min_pow2_at_least(n)),
    decreases n,
{
    if n > 1 {
        lemma_min_pow2_at_least_ge((n + 1) / 2);
        assert(is_pow2(2 * min_pow2_at_least((n + 1) / 2)));
    }
}

/// Whether generator sets of sizes `g` and `h` cover `n` multiplication
/// gates once `n` is padded to a power of two.
pub open spec fn gens_cover(n: nat, g: nat, h: nat) -> bool {
    &&& n <= usize::MAX as nat / 4
    &&& min_pow2_at_least(n) <= g
    &&& min_pow2_at_least(n) <= h
}

/// The smallest nonzero power of two covering `n` gates.
pub(crate) fn padded_size(n: usize) -> (r: usize)
    requires
        n <= usize::MAX / 4,
    ensures
        r == min_pow2_at_least(n as nat),
        is_pow2(r as nat),
        n <= r,
        n <= 1 || r <= 2 * n - 2,
    decreases n,
{
    if n <= 1 {
        1
    } else {
        let half = padded_size((n + 1) / 2);
        proof {
            assert(is_pow2((2 * half) as nat));
        }
        2 * half
    }
}

/// The serialized form of one run of the argument: the per-round cross
/// commitments `L` and `R` (compressed points) and the two folded-down
/// scalars, all as canonical 32-byte encodings.
#[derive(Clone, Debug)]
pub struct InnerProductProof {
    /// The left cross commitment of each round, outermost first.
    pub L: Vec<[u8; 32]>,
    /// The right cross commitment of each round, outermost first.
    pub R: Vec<[u8; 32]>,
    /// The single scalar the first vector folds down to.
    pub a: [u8; 32],
    /// The single scalar the second vector folds down to.
    pub b: [u8; 32],
}

impl InnerProductProof {
    /// A proof has one `L` and one `R` per round.
    pub open spec fn wf(self) -> bool {
        self.L@.len() == self.R@.len()
    }

    /// Proves that the commitment `⟨a, G⟩ + ⟨b, H⟩ + ⟨a, b⟩ * Q` opens to
    /// vectors whose inner product is the bound value, absorbing each
    /// round's cross commitments into the transcript and folding with the
    /// squeezed challenges.
    pub fn create(
        transcript: &mut Transcript,
        Q: &RistrettoPoint,
        G: Vec<RistrettoPoint>,
        H: Vec<RistrettoPoint>,
        a: Vec<Scalar>,
        b: Vec<Scalar>,
    ) -> (r: InnerProductProof)
        requires
            a@.len() == b@.len(),
            G@.len() == a@.len(),
            H@.len() == a@.len(),
            is_pow2(a@.len() as nat),
        ensures
            r.wf(),
            vstd::arithmetic::power2::pow2(r.L@.len()) == a@.len(),
            forall|j: int|
                0 <= j < r.L@.len() ==> crate::ops::ristretto_decodes((#[trigger] r.L@[j])@)
                    && crate::ops::ristretto_decodes(r.R@[j]@),
            crate::ops::scalar_canonical(r.a@),
            crate::ops::scalar_canonical(r.b@),
    {
        let ghost n0 = a@.len();
        let mut a = a;
        let mut b = b;
        let mut G = G;
        let mut H = H;
        let mut L: Vec<[u8; 32]> = Vec::new();
        let mut R: Vec<[u8; 32]> = Vec::new();
        let mut n = a.len();
        proof {
            vstd::arithmetic::power2::lemma2_to64();
            assert(vstd::arithmetic::power2::pow2(0) == 1);
            assert(L@.len() == 0);
            assert(vstd::arithmetic::power2::pow2(L@.len()) * n == n0);
        }
        while n > 1
            invariant
                a@.len() == n,
                b@.len() == n,
                G@.len() == n,
                H@.len() == n,
                is_pow2(n as nat),
                L@.len() == R@.len(),
                vstd::arithmetic::power2::pow2(L@.len()) * n == n0,
                forall|j: int|
                    0 <= j < L@.len() ==> crate::ops::ristretto_decodes((#[trigger] L@[j])@)
                        && crate::ops::ristretto_decodes(R@[j]@),
            decreases n,
        {
            proof {
                assert(n as nat % 2 == 0 && is_pow2(n as nat / 2));
            }
            let np = n / 2;
            let a_lo = scalar_slice(&a, 0, np);
            let a_hi = scalar_slice(&a, np, n);
            let b_lo = scalar_slice(&b, 0, np);
            let b_hi = scalar_slice(&b, np, n);
            let G_lo = point_slice(&G, 0, np);
            let G_hi = point_slice(&G, np, n);
            let H_lo = point_slice(&H, 0, np);
            let H_hi = point_slice(&H, np, n);
            let c_L = inner_product(&a_lo, &b_hi);
            let c_R = inner_product(&a_hi, &b_lo);
            let mut ls: Vec<Scalar> = Vec::new();
            append_scalars(&mut ls, &a_lo);
            append_scalars(&mut ls, &b_hi);
            ls.push(c_L);
            let mut lp: Vec<RistrettoPoint> = Vec::new();
            append_points(&mut lp, &G_hi);
            append_points(&mut lp, &H_lo);
            lp.push(*Q);
            let L_pt = pt_msm(&ls, &lp);
            let mut rs: Vec<Scalar> = Vec::new();
            append_scalars(&mut rs, &a_hi);
            append_scalars(&mut rs, &b_lo);
            rs.push(c_R);
            let mut rp: Vec<RistrettoPoint> = Vec::new();
            append_points(&mut rp, &G_lo);
            append_points(&mut rp, &H_hi);
            rp.push(*Q);
            let R_pt = pt_msm(&rs, &rp);
            let L_bytes = pt_compress(&L_pt);
            let R_bytes = pt_compress(&R_pt);
            tr_append_32(transcript, "ipp L", &L_bytes);
            tr_append_32(transcript, "ipp R", &R_bytes);
            let ghost L0 = L@;
            L.push(L_bytes);
            R.push(R_bytes);
            proof {
                assert forall|j: int| 0 <= j < L@.len() implies crate::ops::ristretto_decodes(
                    (#[trigger] L@[j])@,
                ) && crate::ops::ristretto_decodes(R@[j]@) by {
                    if j == L0.len() {
                        assert(L@[j] == L_bytes);
                        assert(R@[j] == R_bytes);
                    } else {
                        assert(L@[j] == L0[j]);
                    }
                }
            }
            let u = challenge_scalar(transcript, "ipp u");
            let u_inv = sc_invert(&u);
            a = fold_scalars(&a_lo, &u, &a_hi, &u_inv);
            b = fold_scalars(&b_lo, &u_inv, &b_hi, &u);
            G = fold_points(&G_lo, &u_inv, &G_hi, &u);
            H = fold_points(&H_lo, &u, &H_hi, &u_inv);
            proof {
                let k = L@.len();
                vstd::arithmetic::power2::lemma_pow2_unfold(k);
                assert(vstd::arithmetic::power2::pow2(k) * (np as nat) == (2 * vstd::arithmetic::power2::pow2((k - 1) as nat)) * (np as nat));
                assert((2 * vstd::arithmetic::power2::pow2((k - 1) as nat)) * (np as nat) == vstd::arithmetic::power2::pow2((k - 1) as nat) * (2 * np as nat)) by (nonlinear_arith);
            }
            n = np;
        }
        proof {
            assert(n == 1);
            assert(vstd::arithmetic::power2::pow2(L@.len()) * 1 == n0);
            assert(vstd::arithmetic::power2::pow2(L@.len()) == n0);
        }
        InnerProductProof { L, R, a: sc_to_bytes(&a[0]), b: sc_to_bytes(&b[0]) }
    }

    /// Checks the argument against the synthetic commitment `P`, replaying
    /// the prover's transcript schedule.  A round count that does not
    /// match the generator length, or a field that is not a canonical
    /// encoding, is a structural `FormatError`; a replayed fold that does
    /// not land on `P` is a `VerificationError`.
    #[verifier::rlimit(100)]
    pub fn verify(
        &self,
        transcript: &mut Transcript,
        P: &RistrettoPoint,
        Q: &RistrettoPoint,
        G: Vec<RistrettoPoint>,
        H: Vec<RistrettoPoint>,
    ) -> (r: Result<(), R1CSError>)
        requires
            G@.len() == H@.len(),
            is_pow2(G@.len() as nat),
        ensures
            r is Err ==> r == Err::<(), R1CSError>(R1CSError::FormatError) || r == Err::<(),
                R1CSError,
            >(R1CSError::VerificationError),
            r is Ok ==> self.L@.len() == self.R@.len(),
            r is Ok ==> vstd::arithmetic::power2::pow2(self.L@.len()) == G@.len(),
            r is Ok ==> (forall|j: int|
                0 <= j < self.L@.len() ==> crate::ops::ristretto_decodes((#[trigger] self.L@[j])@)
                    && crate::ops::ristretto_decodes(self.R@[j]@)),
            r is Ok ==> crate::ops::scalar_canonical(self.a@) && crate::ops::scalar_canonical(
                self.b@,
            ),
    {
        let ghost g0 = G@.len();
        let mut Gv = G;
        let mut Hv = H;
        let mut n = Gv.len();
        let mut i: usize = 0;
        let mut Pp = *P;
        proof {
            vstd::arithmetic::power2::lemma2_to64();
        }
        while n > 1
            invariant
                Gv@.len() == n,
                Hv@.len() == n,
                is_pow2(n as nat),
                i <= self.L@.len(),
                i <= self.R@.len(),
                vstd::arithmetic::power2::pow2(i as nat) * n == g0,
                forall|j: int|
                    0 <= j < i ==> crate::ops::ristretto_decodes((#[trigger] self.L@[j])@)
                        && crate::ops::ristretto_decodes(self.R@[j]@),
            decreases n,
        {
            proof {
                assert(n as nat % 2 == 0 && is_pow2(n as nat / 2));
            }
            if i >= self.L.len() || i >= self.R.len() {
                return Err(R1CSError::FormatError);
            }
            let L_bytes = self.L[i];
            let R_bytes = self.R[i];
            let L_pt = match pt_decompress(&L_bytes) {
                Some(p) => p,
                None => { return Err(R1CSError::FormatError) },
            };
            let R_pt = match pt_decompress(&R_bytes) {
                Some(p) => p,
                None => { return Err(R1CSError::FormatError) },
            };
            proof {
                assert(L_bytes == self.L@[i as int]);
                assert(R_bytes == self.R@[i as int]);
                assert forall|j: int| 0 <= j < i + 1 implies crate::ops::ristretto_decodes(
                    (#[trigger] self.L@[j])@,
                ) && crate::ops::ristretto_decodes(self.R@[j]@) by {
                    if j == i as int {
                        assert(self.L@[j] == L_bytes);
                        assert(self.R@[j] == R_bytes);
                        assert(crate::ops::ristretto_decodes(L_bytes@));
                        assert(crate::ops::ristretto_decodes(R_bytes@));
                    } else {
                        assert(crate::ops::ristretto_decodes((self.L@[j])@));
                        assert(crate::ops::ristretto_decodes(self.R@[j]@));
                    }
                }
            }
            tr_append_32(transcript, "ipp L", &L_bytes);
            tr_append_32(transcript, "ipp R", &R_bytes);
            let u = challenge_scalar(transcript, "ipp u");
            let u_inv = sc_invert(&u);
            let u_sq = sc_mul(&u, &u);
            let u_inv_sq = sc_mul(&u_inv, &u_inv);
            Pp = pt_add(&Pp, &pt_add(&pt_mul(&u_sq, &L_pt), &pt_mul(&u_inv_sq, &R_pt)));
            let np = n / 2;
            let G_lo = point_slice(&Gv, 0, np);
            let G_hi = point_slice(&Gv, np, n);
            let H_lo = point_slice(&Hv, 0, np);
            let H_hi = point_slice(&Hv, np, n);
            Gv = fold_points(&G_lo, &u_inv, &G_hi, &u);
            Hv = fold_points(&H_lo, &u, &H_hi, &u_inv);
            proof {
                let k = (i + 1) as nat;
                vstd::arithmetic::power2::lemma_pow2_unfold(k);
                assert(vstd::arithmetic::power2::pow2(k) * (np as nat) == (2
                    * vstd::arithmetic::power2::pow2((k - 1) as nat)) * (np as nat));
                assert((2 * vstd::arithmetic::power2::pow2((k - 1) as nat)) * (np as nat)
                    == vstd::arithmetic::power2::pow2((k - 1) as nat) * (2 * np as nat))
                    by (nonlinear_arith);
            }
            n = np;
            i = i + 1;
        }
        proof {
            assert(n == 1);
            assert(vstd::arithmetic::power2::pow2(i as nat) * 1 == g0);
            assert(vstd::arithmetic::power2::pow2(i as nat) == g0);
        }
        if i != self.L.len() || i != self.R.len() {
            return Err(R1CSError::FormatError);
        }
        proof {
            assert(i == self.L@.len());
            assert(forall|j: int|
                0 <= j < self.L@.len() ==> crate::ops::ristretto_decodes(
                    (#[trigger] self.L@[j])@,
                ) && crate::ops::ristretto_decodes(self.R@[j]@));
        }
        let a = match sc_from_canonical(&self.a) {
            Some(s) => s,
            None => { return Err(R1CSError::FormatError) },
        };
        let b = match sc_from_canonical(&self.b) {
            Some(s) => s,
            None => { return Err(R1CSError::FormatError) },
        };
        let expect = pt_add(
            &pt_add(&pt_mul(&a, &Gv[0]), &pt_mul(&b, &Hv[0])),
            &pt_mul(&sc_mul(&a, &b), Q),
        );
        if pt_eq(&Pp, &expect) {
            Ok(())
        } else {
            Err(R1CSError::VerificationError)
        }
    }
}

} // verus!
