//! The verifying session: holds only the input commitments and the
//! symbolic constraint structure, and on consumption checks a supplied
//! proof against them.

use vstd::prelude::*;
use curve25519_dalek::scalar::Scalar;
use curve25519_dalek::ristretto::RistrettoPoint;
use merlin::Transcript;
use crate::errors::R1CSError;
use crate::cs::{flatten_constraints, Assignment, ConstraintSystem, Variable, VariableIndex};
use crate::generators::{BulletproofGens, PedersenGens};
use crate::inner_product_proof::padded_size;
use crate::linear_combination::LinearCombination;
use crate::ops::{
    challenge_scalar, pt_decompress, pt_eq, pt_mul, pt_msm, sc_add, sc_from_canonical, sc_from_u64,
    sc_invert, sc_mul, sc_neg, sc_sub, tr_append_32, tr_append_u64,
};
use crate::r1cs_proof::R1CSProof;
use crate::vec_ops::{append_points, point_slice, scalar_powers};

verus! {

/// The verifying session in its building state.
///
/// The same statement-description routine that drove the proving session
/// runs against this one; every wire's assignment is forced to `Missing`,
/// so the routine can only lay out structure, never read values.
pub struct VerifierCS {
    commitments: Vec<[u8; 32]>,
    a_L: Vec<Assignment>,
    constraints: Vec<LinearCombination>,
}

impl VerifierCS {
    /// The input commitments the session was seeded with, in order.
    pub closed spec fn input_commitments(self) -> Seq<[u8; 32]> {
        self.commitments@
    }

    /// Builds a verifying session over the received input commitments,
    /// absorbing the count and each commitment into the transcript exactly
    /// as the proving side did.  Returns the session and one opaque wire
    /// handle per commitment, in order.
    pub fn new(transcript: &mut Transcript, commitments: Vec<[u8; 32]>) -> (r: (
        VerifierCS,
        Vec<Variable>,
    ))
        ensures
            r.0.gates() == 0,
            r.0.constraints() == Seq::<LinearCombination>::empty(),
            r.0.input_commitments() == commitments@,
            r.1@.len() == commitments@.len(),
            forall|j: int|
                0 <= j < commitments@.len() ==> (#[trigger] r.1@[j]).index
                    == VariableIndex::Committed(j as usize) && !r.1@[j].assignment.is_value(),
    {
        let m = commitments.len();
        tr_append_u64(transcript, "m", m as u64);
        let mut vars: Vec<Variable> = Vec::new();
        let mut j: usize = 0;
        while j < m
            invariant
                j <= m,
                m == commitments@.len(),
                vars@.len() == j,
                forall|i: int|
                    0 <= i < j ==> (#[trigger] vars@[i]).index == VariableIndex::Committed(
                        i as usize,
                    ) && !vars@[i].assignment.is_value(),
            decreases m - j,
        {
            tr_append_32(transcript, "V", &commitments[j]);
            vars.push(
                Variable { index: VariableIndex::Committed(j), assignment: Assignment::Missing },
            );
            j = j + 1;
        }
        (VerifierCS { commitments, a_L: Vec::new(), constraints: Vec::new() }, vars)
    }

    /// Consumes the building session, absorbing the multiplier and constraint
    /// counts exactly as the proving side did, and yields the committed
    /// session that a proof can be checked against, carrying over the
    /// commitments, the multiplier count and the constraints unchanged.
    pub fn commit(self, transcript: &mut Transcript) -> (r: VerifierCommitted)
        ensures
            r.input_commitments() == self.input_commitments(),
            r.gates() == self.gates(),
            r.constraint_list() == self.constraints(),
    {
        tr_append_u64(transcript, "n", self.a_L.len() as u64);
        tr_append_u64(transcript, "q", self.constraints.len() as u64);
        VerifierCommitted {
            commitments: self.commitments,
            n: self.a_L.len(),
            constraints: self.constraints,
        }
    }
}

impl ConstraintSystem for VerifierCS {
    closed spec fn gates(&self) -> nat {
        self.a_L@.len()
    }

    closed spec fn constraints(&self) -> Seq<LinearCombination> {
        self.constraints@
    }

    fn allocate(&mut self, a: Assignment) -> (v: Variable) {
        let idx = self.a_L.len();
        self.a_L.push(a);
        Variable { index: VariableIndex::MultiplierLeft(idx), assignment: a }
    }

    fn allocate_multiplier(&mut self, left: Assignment, right: Assignment) -> (res: (
        Variable,
        Variable,
        Variable,
    )) {
        let idx = self.a_L.len();
        let out = left.mul(right);
        self.a_L.push(left);
        (
            Variable { index: VariableIndex::MultiplierLeft(idx), assignment: left },
            Variable { index: VariableIndex::MultiplierRight(idx), assignment: right },
            Variable { index: VariableIndex::MultiplierOutput(idx), assignment: out },
        )
    }

    fn constrain(&mut self, lc: LinearCombination) {
        self.constraints.push(lc);
    }
}

/// The verifying session after its commit phase, ready to check one proof.
pub struct VerifierCommitted {
    commitments: Vec<[u8; 32]>,
    n: usize,
    constraints: Vec<LinearCombination>,
}

impl VerifierCommitted {
    /// The input commitments the session was seeded with, in order.
    pub closed spec fn input_commitments(self) -> Seq<[u8; 32]> {
        self.commitments@
    }

    /// How many multiplication gates the constraints laid out.
    pub closed spec fn gates(self) -> nat {
        self.n as nat
    }

    /// The registered constraints, in registration order.
    pub closed spec fn constraint_list(self) -> Seq<LinearCombination> {
        self.constraints@
    }

    /// The structural half of acceptance that does not involve the
    /// inner-product rounds: every fixed proof field and every input
    /// commitment is a canonical encoding, and every constraint names
    /// only wires of the session.
    pub open spec fn fixed_structure_ok(self, pf: R1CSProof) -> bool {
        &&& crate::ops::ristretto_decodes(pf.A_I@)
        &&& crate::ops::ristretto_decodes(pf.A_O@)
        &&& crate::ops::ristretto_decodes(pf.S@)
        &&& crate::ops::ristretto_decodes(pf.T_1@)
        &&& crate::ops::ristretto_decodes(pf.T_3@)
        &&& crate::ops::ristretto_decodes(pf.T_4@)
        &&& crate::ops::ristretto_decodes(pf.T_5@)
        &&& crate::ops::ristretto_decodes(pf.T_6@)
        &&& crate::ops::scalar_canonical(pf.t_x@)
        &&& crate::ops::scalar_canonical(pf.t_x_blinding@)
        &&& crate::ops::scalar_canonical(pf.e_blinding@)
        &&& forall|j: int|
            0 <= j < self.input_commitments().len() ==> crate::ops::ristretto_decodes(
                (#[trigger] self.input_commitments()[j])@,
            )
        &&& forall|q: int|
            0 <= q < self.constraint_list().len() ==> crate::cs::lc_in_range(
                #[trigger] self.constraint_list()[q],
                self.gates(),
                self.input_commitments().len(),
            )
    }


    /// Consumes the session and checks `proof`: re-derives every challenge
    /// by absorbing the proof's commitments in the proving side's order,
    /// reconstructs the two synthetic commitments from public data alone,
    /// and checks the `t(x)` opening and the inner-product argument
    /// against them.
    ///
    /// A field that does not decode, or an inner-product round count that
    /// does not match the multiplier count, is a structural `FormatError`; a
    /// generator set too small for the padded gate count is an
    /// `InvalidGeneratorsLength`; any opening check that does not hold is
    /// a `VerificationError`.  Success means every check held.
    #[verifier::rlimit(100)]
    pub fn verify(
        self,
        proof: &R1CSProof,
        bp_gens: &BulletproofGens,
        pc_gens: &PedersenGens,
        transcript: &mut Transcript,
    ) -> (r: Result<(), R1CSError>)
        ensures
            r == Err::<(), R1CSError>(R1CSError::InvalidGeneratorsLength)
                <==> !crate::inner_product_proof::gens_cover(
                self.gates(),
                bp_gens.G@.len(),
                bp_gens.H@.len(),
            ),
            r is Ok ==> self.fixed_structure_ok(*proof) && proof.wf()
                && vstd::arithmetic::power2::pow2(proof.ipp_proof.L@.len())
                == crate::inner_product_proof::min_pow2_at_least(self.gates()) && (forall|j: int|
                0 <= j < proof.ipp_proof.L@.len() ==> crate::ops::ristretto_decodes(
                    (#[trigger] proof.ipp_proof.L@[j])@,
                ) && crate::ops::ristretto_decodes(proof.ipp_proof.R@[j]@))
                && crate::ops::scalar_canonical(proof.ipp_proof.a@)
                && crate::ops::scalar_canonical(proof.ipp_proof.b@),
            r == Err::<(), R1CSError>(R1CSError::VerificationError) ==> self.fixed_structure_ok(
                *proof,
            ),
    {
        proof {
            crate::inner_product_proof::lemma_min_pow2_at_least_ge(self.n as nat);
        }
        let n = self.n;
        let m = self.commitments.len();
        if n > bp_gens.G.len() || n > bp_gens.H.len() || n > usize::MAX / 4 {
            return Err(R1CSError::InvalidGeneratorsLength);
        }
        let padded_n = padded_size(n);
        if padded_n > bp_gens.G.len() || padded_n > bp_gens.H.len() {
            return Err(R1CSError::InvalidGeneratorsLength);
        }
        tr_append_32(transcript, "A_I", &proof.A_I);
        tr_append_32(transcript, "A_O", &proof.A_O);
        tr_append_32(transcript, "S", &proof.S);
        let y = challenge_scalar(transcript, "y");
        let z = challenge_scalar(transcript, "z");
        tr_append_32(transcript, "T_1", &proof.T_1);
        tr_append_32(transcript, "T_3", &proof.T_3);
        tr_append_32(transcript, "T_4", &proof.T_4);
        tr_append_32(transcript, "T_5", &proof.T_5);
        tr_append_32(transcript, "T_6", &proof.T_6);
        let x = challenge_scalar(transcript, "x");
        tr_append_32(transcript, "t_x", &proof.t_x);
        tr_append_32(transcript, "t_x_blinding", &proof.t_x_blinding);
        tr_append_32(transcript, "e_blinding", &proof.e_blinding);
        let w = challenge_scalar(transcript, "w");
        let A_I = match pt_decompress(&proof.A_I) {
            Some(p) => p,
            None => { return Err(R1CSError::FormatError) },
        };
        let A_O = match pt_decompress(&proof.A_O) {
            Some(p) => p,
            None => { return Err(R1CSError::FormatError) },
        };
        let S = match pt_decompress(&proof.S) {
            Some(p) => p,
            None => { return Err(R1CSError::FormatError) },
        };
        let T_1 = match pt_decompress(&proof.T_1) {
            Some(p) => p,
            None => { return Err(R1CSError::FormatError) },
        };
        let T_3 = match pt_decompress(&proof.T_3) {
            Some(p) => p,
            None => { return Err(R1CSError::FormatError) },
        };
        let T_4 = match pt_decompress(&proof.T_4) {
            Some(p) => p,
            None => { return Err(R1CSError::FormatError) },
        };
        let T_5 = match pt_decompress(&proof.T_5) {
            Some(p) => p,
            None => { return Err(R1CSError::FormatError) },
        };
        let T_6 = match pt_decompress(&proof.T_6) {
            Some(p) => p,
            None => { return Err(R1CSError::FormatError) },
        };
        let t_x = match sc_from_canonical(&proof.t_x) {
            Some(s) => s,
            None => { return Err(R1CSError::FormatError) },
        };
        let t_x_blinding = match sc_from_canonical(&proof.t_x_blinding) {
            Some(s) => s,
            None => { return Err(R1CSError::FormatError) },
        };
        let e_blinding = match sc_from_canonical(&proof.e_blinding) {
            Some(s) => s,
            None => { return Err(R1CSError::FormatError) },
        };
        let mut V: Vec<RistrettoPoint> = Vec::new();
        let mut j: usize = 0;
        while j < m
            invariant
                j <= m,
                m == self.commitments@.len(),
                V@.len() == j,
                crate::inner_product_proof::gens_cover(
                    self.gates(),
                    bp_gens.G@.len(),
                    bp_gens.H@.len(),
                ),
                forall|i: int|
                    0 <= i < j ==> crate::ops::ristretto_decodes(
                        (#[trigger] self.input_commitments()[i])@,
                    ),
            decreases m - j,
        {
            let cb = self.commitments[j];
            match pt_decompress(&cb) {
                Some(p) => V.push(p),
                None => { return Err(R1CSError::FormatError) },
            }
            proof {
                assert(cb == self.input_commitments()[j as int]);
            }
            j = j + 1;
        }
        let flat = match flatten_constraints(&self.constraints, &z, n, m) {
            Ok(f) => f,
            Err(e) => { return Err(e) },
        };
        proof {
            assert(self.constraint_list() == self.constraints@);
            assert forall|q: int|
                0 <= q < self.constraint_list().len() implies crate::cs::lc_in_range(
                #[trigger] self.constraint_list()[q],
                self.gates(),
                self.input_commitments().len(),
            ) by {
                assert(crate::cs::lc_in_range(self.constraints@[q], n as nat, m as nat));
            }
        }
        let y_inv = sc_invert(&y);
        let exp_y_inv = scalar_powers(&y_inv, padded_n);
        let x2 = sc_mul(&x, &x);
        let x3 = sc_mul(&x2, &x);
        let x4 = sc_mul(&x3, &x);
        let x5 = sc_mul(&x4, &x);
        let x6 = sc_mul(&x5, &x);
        // delta(y, z) = <y^-n ∘ wR, wL>, the publicly computable part of
        // the degree-2 coefficient of t(x).
        let mut delta = sc_from_u64(0);
        let mut i: usize = 0;
        while i < n
            invariant
                i <= n,
                n <= padded_n,
                flat.wL@.len() == n,
                flat.wR@.len() == n,
                exp_y_inv@.len() == padded_n,
            decreases n - i,
        {
            delta = sc_add(&delta, &sc_mul(&sc_mul(&exp_y_inv[i], &flat.wR[i]), &flat.wL[i]));
            i = i + 1;
        }
        // First check: the claimed t(x) and its blinding open the
        // commitment reconstructed from T_1, T_3..T_6, the input
        // commitments and the public constant.
        let lhs = pc_gens.commit(&t_x, &t_x_blinding);
        let mut cs1: Vec<Scalar> = Vec::new();
        cs1.push(sc_mul(&x2, &sc_add(&flat.wc, &delta)));
        let mut j1: usize = 0;
        while j1 < m
            invariant
                j1 <= m,
                m == flat.wV@.len(),
                cs1@.len() == 1 + j1,
            decreases m - j1,
        {
            cs1.push(sc_mul(&x2, &flat.wV[j1]));
            j1 = j1 + 1;
        }
        cs1.push(x);
        cs1.push(x3);
        cs1.push(x4);
        cs1.push(x5);
        cs1.push(x6);
        let mut ps1: Vec<RistrettoPoint> = Vec::new();
        ps1.push(pc_gens.B);
        append_points(&mut ps1, &V);
        ps1.push(T_1);
        ps1.push(T_3);
        ps1.push(T_4);
        ps1.push(T_5);
        ps1.push(T_6);
        let rhs = pt_msm(&cs1, &ps1);
        if !pt_eq(&lhs, &rhs) {
            return Err(R1CSError::VerificationError);
        }
        // Second check: reconstruct the synthetic commitment to l(x), r(x)
        // and the claimed inner product, and hand it to the inner-product
        // argument.
        let Q = pt_mul(&w, &pc_gens.B);
        let one = sc_from_u64(1);
        let mut cs2: Vec<Scalar> = Vec::new();
        cs2.push(x);
        cs2.push(x2);
        cs2.push(x3);
        cs2.push(sc_neg(&e_blinding));
        cs2.push(t_x);
        let mut i4: usize = 0;
        while i4 < padded_n
            invariant
                i4 <= padded_n,
                n <= padded_n,
                cs2@.len() == 5 + i4,
                flat.wR@.len() == n,
                exp_y_inv@.len() == padded_n,
            decreases padded_n - i4,
        {
            if i4 < n {
                cs2.push(sc_mul(&x, &sc_mul(&exp_y_inv[i4], &flat.wR[i4])));
            } else {
                cs2.push(sc_from_u64(0));
            }
            i4 = i4 + 1;
        }
        let mut i5: usize = 0;
        while i5 < padded_n
            invariant
                i5 <= padded_n,
                n <= padded_n,
                cs2@.len() == 5 + padded_n + i5,
                flat.wL@.len() == n,
                flat.wO@.len() == n,
                exp_y_inv@.len() == padded_n,
            decreases padded_n - i5,
        {
            if i5 < n {
                cs2.push(
                    sc_sub(
                        &sc_mul(
                            &exp_y_inv[i5],
                            &sc_add(&sc_mul(&x, &flat.wL[i5]), &flat.wO[i5]),
                        ),
                        &one,
                    ),
                );
            } else {
                cs2.push(sc_neg(&one));
            }
            i5 = i5 + 1;
        }
        let mut ps2: Vec<RistrettoPoint> = Vec::new();
        ps2.push(A_I);
        ps2.push(A_O);
        ps2.push(S);
        ps2.push(pc_gens.B_blinding);
        ps2.push(Q);
        let G_p = point_slice(&bp_gens.G, 0, padded_n);
        let H_base = point_slice(&bp_gens.H, 0, padded_n);
        append_points(&mut ps2, &G_p);
        append_points(&mut ps2, &H_base);
        let P = pt_msm(&cs2, &ps2);
        let mut H_p: Vec<RistrettoPoint> = Vec::new();
        let mut i6: usize = 0;
        while i6 < padded_n
            invariant
                i6 <= padded_n,
                H_p@.len() == i6,
                padded_n <= bp_gens.H@.len(),
                exp_y_inv@.len() == padded_n,
            decreases padded_n - i6,
        {
            H_p.push(pt_mul(&exp_y_inv[i6], &bp_gens.H[i6]));
            i6 = i6 + 1;
        }
        let outcome = proof.ipp_proof.verify(transcript, &P, &Q, G_p, H_p);
        match outcome {
            Ok(()) => {
                proof {
                    assert(self.gates() == n as nat);
                    assert(padded_n == crate::inner_product_proof::min_pow2_at_least(n as nat));
                }
                Ok(())
            },
            Err(e) => Err(e),
        }
    }
}

} // verus!
