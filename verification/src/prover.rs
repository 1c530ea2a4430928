//! The proving session: holds every concrete wire value, accumulates the
//! caller's constraints, and on consumption runs the commit and prove
//! phases of the protocol.

use vstd::prelude::*;
use curve25519_dalek::scalar::Scalar;
use curve25519_dalek::ristretto::RistrettoPoint;
use merlin::Transcript;
use crate::errors::R1CSError;
use crate::cs::{flatten_constraints, Assignment, ConstraintSystem, Variable, VariableIndex};
use crate::generators::{BulletproofGens, PedersenGens};
use crate::inner_product_proof::{is_pow2, InnerProductProof};
use crate::linear_combination::LinearCombination;
use crate::ops::{
    challenge_scalar, pt_mul, pt_compress, pt_msm, sc_add, sc_eq, sc_from_u64, sc_invert, sc_mul,
    sc_neg, sc_random, sc_sub, sc_to_bytes, tr_append_32, tr_append_u64,
};
use crate::r1cs_proof::R1CSProof;
use crate::vec_ops::{append_points, append_scalars, inner_product, point_slice, scalar_powers};

verus! {

/// Turns a vector of assignments into the vector of their scalars, failing
/// if any wire was left without a concrete value.
fn unwrap_assignments(xs: &Vec<Assignment>) -> (r: Result<Vec<Scalar>, R1CSError>)
    ensures
        r is Ok <==> (forall|i: int| 0 <= i < xs@.len() ==> (#[trigger] xs@[i]).is_value()),
        r matches Ok(v) ==> v@.len() == xs@.len() && (forall|i: int|
            0 <= i < xs@.len() ==> #[trigger] xs@[i] == Assignment::Value(v@[i])),
        r is Err ==> r == Err::<Vec<Scalar>, R1CSError>(R1CSError::MissingAssignment),
{
    let mut out: Vec<Scalar> = Vec::new();
    let mut k: usize = 0;
    while k < xs.len()
        invariant
            k <= xs@.len(),
            out@.len() == k,
            forall|i: int| 0 <= i < k ==> #[trigger] xs@[i] == Assignment::Value(out@[i]),
        decreases xs@.len() - k,
    {
        match xs[k] {
            Assignment::Value(s) => out.push(s),
            Assignment::Missing => { return Err(R1CSError::MissingAssignment) },
        }
        k = k + 1;
    }
    Ok(out)
}

/// The proving session in its building state.
///
/// Constructed by [`ProverCS::new`], mutated through the
/// [`ConstraintSystem`] interface by the caller's statement-description
/// routine, and consumed exactly once by [`ProverCS::commit`].
pub struct ProverCS {
    v: Vec<Scalar>,
    v_blinding: Vec<Scalar>,
    a_L: Vec<Assignment>,
    a_R: Vec<Assignment>,
    a_O: Vec<Assignment>,
    constraints: Vec<LinearCombination>,
}

impl ProverCS {
    /// How many committed inputs the session holds.
    pub closed spec fn inputs(self) -> nat {
        self.v@.len()
    }

    /// Every multiplier wire holds a concrete value.
    pub closed spec fn fully_assigned(self) -> bool {
        &&& forall|i: int| 0 <= i < self.a_L@.len() ==> (#[trigger] self.a_L@[i]).is_value()
        &&& forall|i: int| 0 <= i < self.a_R@.len() ==> (#[trigger] self.a_R@[i]).is_value()
        &&& forall|i: int| 0 <= i < self.a_O@.len() ==> (#[trigger] self.a_O@[i]).is_value()
    }

    /// The multiplier wire vectors run in step and every committed input has its
    /// blinding factor.
    pub closed spec fn wf(self) -> bool {
        &&& self.a_R@.len() == self.a_L@.len()
        &&& self.a_O@.len() == self.a_L@.len()
        &&& self.v_blinding@.len() == self.v@.len()
    }

    /// Builds a proving session over the secret inputs `v` with their
    /// blinding factors, committing each input and absorbing the count and
    /// every commitment into the transcript.  Returns the session, one
    /// wire handle per input (in supply order, each holding its concrete
    /// value), and the input commitments to hand to the verifying side.
    /// Fails with a `FormatError` when the blinding list does not match
    /// the inputs.
    pub fn new(
        pc_gens: &PedersenGens,
        transcript: &mut Transcript,
        v: Vec<Scalar>,
        v_blinding: Vec<Scalar>,
    ) -> (r: Result<(ProverCS, Vec<Variable>, Vec<[u8; 32]>), R1CSError>)
        ensures
            r is Ok <==> v@.len() == v_blinding@.len(),
            r is Err ==> r == Err::<(ProverCS, Vec<Variable>, Vec<[u8; 32]>), R1CSError>(
                R1CSError::FormatError,
            ),
            r matches Ok(t) ==> {
                &&& t.0.wf()
                &&& t.0.constraints() == Seq::<LinearCombination>::empty()
                &&& t.0.gates() == 0
                &&& t.1@.len() == v@.len()
                &&& t.2@.len() == v@.len()
                &&& forall|j: int|
                    0 <= j < v@.len() ==> (#[trigger] t.1@[j]).index == VariableIndex::Committed(
                        j as usize,
                    ) && t.1@[j].assignment == Assignment::Value(v@[j])
            },
    {
        if v.len() != v_blinding.len() {
            return Err(R1CSError::FormatError);
        }
        let m = v.len();
        tr_append_u64(transcript, "m", m as u64);
        let mut vars: Vec<Variable> = Vec::new();
        let mut commitments: Vec<[u8; 32]> = Vec::new();
        let mut j: usize = 0;
        while j < m
            invariant
                j <= m,
                m == v@.len(),
                m == v_blinding@.len(),
                vars@.len() == j,
                commitments@.len() == j,
                forall|i: int|
                    0 <= i < j ==> (#[trigger] vars@[i]).index == VariableIndex::Committed(
                        i as usize,
                    ) && vars@[i].assignment == Assignment::Value(v@[i]),
            decreases m - j,
        {
            let commitment = pt_compress(&pc_gens.commit(&v[j], &v_blinding[j]));
            tr_append_32(transcript, "V", &commitment);
            commitments.push(commitment);
            vars.push(
                Variable {
                    index: VariableIndex::Committed(j),
                    assignment: Assignment::Value(v[j]),
                },
            );
            j = j + 1;
        }
        Ok((
            ProverCS {
                v,
                v_blinding,
                a_L: Vec::new(),
                a_R: Vec::new(),
                a_O: Vec::new(),
                constraints: Vec::new(),
            },
            vars,
            commitments,
        ))
    }

    /// Consumes the building session: assigns every wire, samples the
    /// blinding vectors, commits to the wire vectors, absorbs the sizes
    /// and commitments, and draws the challenges `y` and `z`, yielding the
    /// committed session.  Fails with `MissingAssignment` when a wire has
    /// no concrete value and with `InvalidGeneratorsLength` when the
    /// generator set cannot cover the padded gate count.
    pub fn commit(
        self,
        bp_gens: &BulletproofGens,
        pc_gens: &PedersenGens,
        transcript: &mut Transcript,
    ) -> (r: Result<ProverCommitted, R1CSError>)
        ensures
            r is Ok <==> self.wf() && crate::inner_product_proof::gens_cover(
                self.gates(),
                bp_gens.G@.len(),
                bp_gens.H@.len(),
            ) && self.fully_assigned(),
            r == Err::<ProverCommitted, R1CSError>(R1CSError::FormatError) <==> !self.wf(),
            r == Err::<ProverCommitted, R1CSError>(R1CSError::InvalidGeneratorsLength) <==> self.wf()
                && !crate::inner_product_proof::gens_cover(
                self.gates(),
                bp_gens.G@.len(),
                bp_gens.H@.len(),
            ),
            r == Err::<ProverCommitted, R1CSError>(R1CSError::MissingAssignment) <==> self.wf()
                && crate::inner_product_proof::gens_cover(
                self.gates(),
                bp_gens.G@.len(),
                bp_gens.H@.len(),
            ) && !self.fully_assigned(),
            r matches Ok(c) ==> c.wf() && c.gates() == self.gates() && c.padded_gates()
                == crate::inner_product_proof::min_pow2_at_least(self.gates())
                && c.constraint_list() == self.constraints() && c.inputs() == self.inputs(),
    {
        proof {
            crate::inner_product_proof::lemma_min_pow2_at_least_ge(self.a_L@.len());
        }
        if self.a_L.len() != self.a_R.len() || self.a_L.len() != self.a_O.len()
            || self.v.len() != self.v_blinding.len() {
            return Err(R1CSError::FormatError);
        }
        let n = self.a_L.len();
        if n > bp_gens.G.len() || n > bp_gens.H.len() || n > usize::MAX / 4 {
            return Err(R1CSError::InvalidGeneratorsLength);
        }
        let padded_n = crate::inner_product_proof::padded_size(n);
        if padded_n > bp_gens.G.len() || padded_n > bp_gens.H.len() {
            return Err(R1CSError::InvalidGeneratorsLength);
        }
        let a_L = match unwrap_assignments(&self.a_L) {
            Ok(x) => x,
            Err(e) => { return Err(e) },
        };
        let a_R = match unwrap_assignments(&self.a_R) {
            Ok(x) => x,
            Err(e) => { return Err(e) },
        };
        let a_O = match unwrap_assignments(&self.a_O) {
            Ok(x) => x,
            Err(e) => { return Err(e) },
        };
        let i_blinding = sc_random();
        let o_blinding = sc_random();
        let s_blinding = sc_random();
        let mut s_L: Vec<Scalar> = Vec::new();
        let mut s_R: Vec<Scalar> = Vec::new();
        let mut k: usize = 0;
        while k < n
            invariant
                k <= n,
                s_L@.len() == k,
                s_R@.len() == k,
            decreases n - k,
        {
            s_L.push(sc_random());
            s_R.push(sc_random());
            k = k + 1;
        }
        let G_n = point_slice(&bp_gens.G, 0, n);
        let H_n = point_slice(&bp_gens.H, 0, n);
        let mut sc: Vec<Scalar> = Vec::new();
        sc.push(i_blinding);
        append_scalars(&mut sc, &a_L);
        append_scalars(&mut sc, &a_R);
        let mut pts: Vec<RistrettoPoint> = Vec::new();
        pts.push(pc_gens.B_blinding);
        append_points(&mut pts, &G_n);
        append_points(&mut pts, &H_n);
        let A_I = pt_compress(&pt_msm(&sc, &pts));
        let mut sc_o: Vec<Scalar> = Vec::new();
        sc_o.push(o_blinding);
        append_scalars(&mut sc_o, &a_O);
        let mut pts_o: Vec<RistrettoPoint> = Vec::new();
        pts_o.push(pc_gens.B_blinding);
        append_points(&mut pts_o, &G_n);
        let A_O = pt_compress(&pt_msm(&sc_o, &pts_o));
        let mut sc_s: Vec<Scalar> = Vec::new();
        sc_s.push(s_blinding);
        append_scalars(&mut sc_s, &s_L);
        append_scalars(&mut sc_s, &s_R);
        let mut pts_s: Vec<RistrettoPoint> = Vec::new();
        pts_s.push(pc_gens.B_blinding);
        append_points(&mut pts_s, &G_n);
        append_points(&mut pts_s, &H_n);
        let S = pt_compress(&pt_msm(&sc_s, &pts_s));
        tr_append_u64(transcript, "n", n as u64);
        tr_append_u64(transcript, "q", self.constraints.len() as u64);
        tr_append_32(transcript, "A_I", &A_I);
        tr_append_32(transcript, "A_O", &A_O);
        tr_append_32(transcript, "S", &S);
        let y = challenge_scalar(transcript, "y");
        let z = challenge_scalar(transcript, "z");
        Ok(ProverCommitted {
            v: self.v,
            v_blinding: self.v_blinding,
            a_L,
            a_R,
            a_O,
            s_L,
            s_R,
            i_blinding,
            o_blinding,
            s_blinding,
            constraints: self.constraints,
            y,
            z,
            padded_n,
            A_I,
            A_O,
            S,
        })
    }
}

impl ConstraintSystem for ProverCS {
    closed spec fn gates(&self) -> nat {
        self.a_L@.len()
    }

    closed spec fn constraints(&self) -> Seq<LinearCombination> {
        self.constraints@
    }

    fn allocate(&mut self, a: Assignment) -> (v: Variable) {
        let idx = self.a_L.len();
        self.a_L.push(a);
        self.a_R.push(Assignment::Value(sc_from_u64(0)));
        self.a_O.push(Assignment::Value(sc_from_u64(0)));
        Variable { index: VariableIndex::MultiplierLeft(idx), assignment: a }
    }

    fn allocate_multiplier(&mut self, left: Assignment, right: Assignment) -> (res: (
        Variable,
        Variable,
        Variable,
    )) {
        let idx = self.a_L.len();
        let out = left.mul(right);
        self.a_L.push(left);
        self.a_R.push(right);
        self.a_O.push(out);
        (
            Variable { index: VariableIndex::MultiplierLeft(idx), assignment: left },
            Variable { index: VariableIndex::MultiplierRight(idx), assignment: right },
            Variable { index: VariableIndex::MultiplierOutput(idx), assignment: out },
        )
    }

    fn constrain(&mut self, lc: LinearCombination) {
        self.constraints.push(lc);
    }
}

/// The proving session after its commit phase: wire values and blinding
/// are fixed, the challenges `y` and `z` are drawn, and the session is
/// consumed exactly once by [`ProverCommitted::prove`].
pub struct ProverCommitted {
    v: Vec<Scalar>,
    v_blinding: Vec<Scalar>,
    a_L: Vec<Scalar>,
    a_R: Vec<Scalar>,
    a_O: Vec<Scalar>,
    s_L: Vec<Scalar>,
    s_R: Vec<Scalar>,
    i_blinding: Scalar,
    o_blinding: Scalar,
    s_blinding: Scalar,
    constraints: Vec<LinearCombination>,
    y: Scalar,
    z: Scalar,
    padded_n: usize,
    A_I: [u8; 32],
    A_O: [u8; 32],
    S: [u8; 32],
}

impl ProverCommitted {
    /// How many multiplication gates the session holds.
    pub closed spec fn gates(self) -> nat {
        self.a_L@.len()
    }

    /// The multiplier count padded to the next power of two.
    pub closed spec fn padded_gates(self) -> nat {
        self.padded_n as nat
    }

    /// How many committed inputs the session holds.
    pub closed spec fn inputs(self) -> nat {
        self.v@.len()
    }

    /// The registered constraints, in registration order.
    pub closed spec fn constraint_list(self) -> Seq<LinearCombination> {
        self.constraints@
    }

    /// The wire vectors run in step, the multiplier count is covered by the
    /// power-of-two padding, every committed input has its blinding, and
    /// the wire commitments taken during the commit phase are canonical
    /// encodings.
    pub closed spec fn wf(self) -> bool {
        &&& self.a_R@.len() == self.a_L@.len()
        &&& self.a_O@.len() == self.a_L@.len()
        &&& self.s_L@.len() == self.a_L@.len()
        &&& self.s_R@.len() == self.a_L@.len()
        &&& self.v_blinding@.len() == self.v@.len()
        &&& self.a_L@.len() <= self.padded_n
        &&& is_pow2(self.padded_n as nat)
        &&& crate::ops::ristretto_decodes(self.A_I@)
        &&& crate::ops::ristretto_decodes(self.A_O@)
        &&& crate::ops::ristretto_decodes(self.S@)
    }

    /// Evaluates a linear combination against the concrete wire tables.
    /// Succeeds exactly when every term names a wire of the session, and
    /// fails with a `FormatError` otherwise.
    fn eval_lc(&self, lc: &LinearCombination) -> (r: Result<Scalar, R1CSError>)
        requires
            self.wf(),
        ensures
            r is Ok <==> crate::cs::lc_in_range(*lc, self.a_L@.len(), self.v@.len()),
            r is Err ==> r == Err::<Scalar, R1CSError>(R1CSError::FormatError),
    {
        let mut acc = lc.constant;
        let mut t: usize = 0;
        while t < lc.terms.len()
            invariant
                t <= lc.terms@.len(),
                self.a_R@.len() == self.a_L@.len(),
                self.a_O@.len() == self.a_L@.len(),
                forall|s: int|
                    0 <= s < t ==> crate::cs::index_in_range(
                        (#[trigger] lc.terms@[s]).0,
                        self.a_L@.len(),
                        self.v@.len(),
                    ),
            decreases lc.terms@.len() - t,
        {
            let (idx, w) = lc.terms[t];
            let in_range = match idx {
                VariableIndex::Committed(j) => j < self.v.len(),
                VariableIndex::MultiplierLeft(i) => i < self.a_L.len(),
                VariableIndex::MultiplierRight(i) => i < self.a_R.len(),
                VariableIndex::MultiplierOutput(i) => i < self.a_O.len(),
                VariableIndex::One => true,
            };
            if !in_range {
                proof {
                    assert(lc.terms@[t as int] == (idx, w));
                    assert(!crate::cs::index_in_range(
                        lc.terms@[t as int].0,
                        self.a_L@.len(),
                        self.v@.len(),
                    ));
                }
                return Err(R1CSError::FormatError);
            }
            let val = match idx {
                VariableIndex::Committed(j) => self.v[j],
                VariableIndex::MultiplierLeft(i) => self.a_L[i],
                VariableIndex::MultiplierRight(i) => self.a_R[i],
                VariableIndex::MultiplierOutput(i) => self.a_O[i],
                VariableIndex::One => sc_from_u64(1),
            };
            acc = sc_add(&acc, &sc_mul(&w, &val));
            t = t + 1;
        }
        Ok(acc)
    }

    /// Consumes the committed session and produces the proof: checks every
    /// registered constraint against the concrete assignment, builds the
    /// challenge polynomials, commits to their coefficients, draws the
    /// challenge `x`, evaluates, and runs the inner-product argument.
    /// Fails with `ConstraintViolation` when a constraint does not hold of
    /// the assignment, so that no invalid proof is ever produced.
    pub fn prove(
        self,
        bp_gens: &BulletproofGens,
        pc_gens: &PedersenGens,
        transcript: &mut Transcript,
    ) -> (r: Result<R1CSProof, R1CSError>)
        requires
            self.wf(),
        ensures
            r matches Ok(p) ==> p.wf() && vstd::arithmetic::power2::pow2(p.ipp_proof.L@.len())
                == self.padded_gates() && self.padded_gates() <= bp_gens.G@.len(),
            r matches Ok(p) ==> crate::ops::ristretto_decodes(p.A_I@)
                && crate::ops::ristretto_decodes(p.A_O@) && crate::ops::ristretto_decodes(p.S@)
                && crate::ops::ristretto_decodes(p.T_1@) && crate::ops::ristretto_decodes(p.T_3@)
                && crate::ops::ristretto_decodes(p.T_4@) && crate::ops::ristretto_decodes(p.T_5@)
                && crate::ops::ristretto_decodes(p.T_6@) && crate::ops::scalar_canonical(p.t_x@)
                && crate::ops::scalar_canonical(p.t_x_blinding@) && crate::ops::scalar_canonical(
                p.e_blinding@,
            ) && crate::ops::scalar_canonical(p.ipp_proof.a@) && crate::ops::scalar_canonical(
                p.ipp_proof.b@,
            ) && (forall|j: int|
                0 <= j < p.ipp_proof.L@.len() ==> crate::ops::ristretto_decodes(
                    (#[trigger] p.ipp_proof.L@[j])@,
                ) && crate::ops::ristretto_decodes(p.ipp_proof.R@[j]@)),
            r == Err::<R1CSProof, R1CSError>(R1CSError::InvalidGeneratorsLength) <==> !(
            self.padded_gates() <= bp_gens.G@.len() && self.padded_gates() <= bp_gens.H@.len()),
            r == Err::<R1CSProof, R1CSError>(R1CSError::FormatError) ==> !(forall|q: int|
                0 <= q < self.constraint_list().len() ==> crate::cs::lc_in_range(
                    #[trigger] self.constraint_list()[q],
                    self.gates(),
                    self.inputs(),
                )),
            (self.padded_gates() <= bp_gens.G@.len() && self.padded_gates() <= bp_gens.H@.len()
                && (forall|q: int|
                0 <= q < self.constraint_list().len() ==> crate::cs::lc_in_range(
                    #[trigger] self.constraint_list()[q],
                    self.gates(),
                    self.inputs(),
                ))) ==> r is Ok || r == Err::<R1CSProof, R1CSError>(R1CSError::ConstraintViolation),
    {
        let n = self.a_L.len();
        let padded_n = self.padded_n;
        let m = self.v.len();
        if padded_n > bp_gens.G.len() || padded_n > bp_gens.H.len() {
            return Err(R1CSError::InvalidGeneratorsLength);
        }
        let zero = sc_from_u64(0);
        let mut q: usize = 0;
        while q < self.constraints.len()
            invariant
                self.wf(),
                self.padded_n <= bp_gens.G@.len(),
                self.padded_n <= bp_gens.H@.len(),
            decreases self.constraints@.len() - q,
        {
            let val = match self.eval_lc(&self.constraints[q]) {
                Ok(s) => s,
                Err(e) => {
                    proof {
                        assert(0 <= q < self.constraint_list().len() && !crate::cs::lc_in_range(
                            self.constraint_list()[q as int],
                            self.gates(),
                            self.inputs(),
                        ));
                    }
                    return Err(e)
                },
            };
            if !sc_eq(&val, &zero) {
                return Err(R1CSError::ConstraintViolation);
            }
            q = q + 1;
        }
        let flat = match flatten_constraints(&self.constraints, &self.z, n, m) {
            Ok(f) => f,
            Err(e) => {
                proof {
                    assert(self.constraint_list() == self.constraints@);
                    assert(self.gates() == n as nat);
                    assert(self.inputs() == m as nat);
                    assert((forall|p: int|
                        0 <= p < self.constraint_list().len() ==> crate::cs::lc_in_range(
                            #[trigger] self.constraint_list()[p],
                            self.gates(),
                            self.inputs(),
                        )) ==> (forall|p: int|
                        0 <= p < self.constraints@.len() ==> crate::cs::lc_in_range(
                            #[trigger] self.constraints@[p],
                            n as nat,
                            m as nat,
                        )));
                }
                return Err(e)
            },
        };
        let exp_y = scalar_powers(&self.y, padded_n);
        let y_inv = sc_invert(&self.y);
        let exp_y_inv = scalar_powers(&y_inv, padded_n);
        // The two degree-3 vector polynomials l(X) and r(X): their
        // nonzero coefficient vectors, padded to the power-of-two size.
        let mut l1: Vec<Scalar> = Vec::new();
        let mut l2: Vec<Scalar> = Vec::new();
        let mut l3: Vec<Scalar> = Vec::new();
        let mut r0: Vec<Scalar> = Vec::new();
        let mut r1: Vec<Scalar> = Vec::new();
        let mut r3: Vec<Scalar> = Vec::new();
        let mut i: usize = 0;
        while i < padded_n
            invariant
                i <= padded_n,
                n <= padded_n,
                l1@.len() == i,
                l2@.len() == i,
                l3@.len() == i,
                r0@.len() == i,
                r1@.len() == i,
                r3@.len() == i,
                n == self.a_L@.len(),
                self.wf(),
                flat.wL@.len() == n,
                flat.wR@.len() == n,
                flat.wO@.len() == n,
                exp_y@.len() == padded_n,
                exp_y_inv@.len() == padded_n,
            decreases padded_n - i,
        {
            if i < n {
                l1.push(sc_add(&self.a_L[i], &sc_mul(&exp_y_inv[i], &flat.wR[i])));
                l2.push(self.a_O[i]);
                l3.push(self.s_L[i]);
                r0.push(sc_sub(&flat.wO[i], &exp_y[i]));
                r1.push(sc_add(&sc_mul(&exp_y[i], &self.a_R[i]), &flat.wL[i]));
                r3.push(sc_mul(&exp_y[i], &self.s_R[i]));
            } else {
                l1.push(zero);
                l2.push(zero);
                l3.push(zero);
                r0.push(sc_neg(&exp_y[i]));
                r1.push(zero);
                r3.push(zero);
            }
            i = i + 1;
        }
        // Coefficients of t(X) = <l(X), r(X)>, degree six.
        let t1 = inner_product(&l1, &r0);
        let t2 = sc_add(&inner_product(&l1, &r1), &inner_product(&l2, &r0));
        let t3 = sc_add(&inner_product(&l2, &r1), &inner_product(&l3, &r0));
        let t4 = sc_add(&inner_product(&l1, &r3), &inner_product(&l3, &r1));
        let t5 = inner_product(&l2, &r3);
        let t6 = inner_product(&l3, &r3);
        let tau1 = sc_random();
        let tau3 = sc_random();
        let tau4 = sc_random();
        let tau5 = sc_random();
        let tau6 = sc_random();
        let T_1 = pt_compress(&pc_gens.commit(&t1, &tau1));
        let T_3 = pt_compress(&pc_gens.commit(&t3, &tau3));
        let T_4 = pt_compress(&pc_gens.commit(&t4, &tau4));
        let T_5 = pt_compress(&pc_gens.commit(&t5, &tau5));
        let T_6 = pt_compress(&pc_gens.commit(&t6, &tau6));
        tr_append_32(transcript, "T_1", &T_1);
        tr_append_32(transcript, "T_3", &T_3);
        tr_append_32(transcript, "T_4", &T_4);
        tr_append_32(transcript, "T_5", &T_5);
        tr_append_32(transcript, "T_6", &T_6);
        let x = challenge_scalar(transcript, "x");
        let x2 = sc_mul(&x, &x);
        let x3 = sc_mul(&x2, &x);
        let x4 = sc_mul(&x3, &x);
        let x5 = sc_mul(&x4, &x);
        let x6 = sc_mul(&x5, &x);
        let mut l: Vec<Scalar> = Vec::new();
        let mut r: Vec<Scalar> = Vec::new();
        let mut i2: usize = 0;
        while i2 < padded_n
            invariant
                i2 <= padded_n,
                l@.len() == i2,
                r@.len() == i2,
                l1@.len() == padded_n,
                l2@.len() == padded_n,
                l3@.len() == padded_n,
                r0@.len() == padded_n,
                r1@.len() == padded_n,
                r3@.len() == padded_n,
            decreases padded_n - i2,
        {
            l.push(
                sc_add(
                    &sc_add(&sc_mul(&l1[i2], &x), &sc_mul(&l2[i2], &x2)),
                    &sc_mul(&l3[i2], &x3),
                ),
            );
            r.push(
                sc_add(&sc_add(&r0[i2], &sc_mul(&r1[i2], &x)), &sc_mul(&r3[i2], &x3)),
            );
            i2 = i2 + 1;
        }
        let t_x = sc_add(
            &sc_add(
                &sc_add(&sc_mul(&t1, &x), &sc_mul(&t2, &x2)),
                &sc_add(&sc_mul(&t3, &x3), &sc_mul(&t4, &x4)),
            ),
            &sc_add(&sc_mul(&t5, &x5), &sc_mul(&t6, &x6)),
        );
        let wv_dot_gamma = inner_product(&flat.wV, &self.v_blinding);
        let t_x_blinding = sc_add(
            &sc_add(
                &sc_add(&sc_mul(&tau1, &x), &sc_mul(&wv_dot_gamma, &x2)),
                &sc_add(&sc_mul(&tau3, &x3), &sc_mul(&tau4, &x4)),
            ),
            &sc_add(&sc_mul(&tau5, &x5), &sc_mul(&tau6, &x6)),
        );
        let e_blinding = sc_add(
            &sc_add(&sc_mul(&self.i_blinding, &x), &sc_mul(&self.o_blinding, &x2)),
            &sc_mul(&self.s_blinding, &x3),
        );
        let t_x_bytes = sc_to_bytes(&t_x);
        let t_x_blinding_bytes = sc_to_bytes(&t_x_blinding);
        let e_blinding_bytes = sc_to_bytes(&e_blinding);
        tr_append_32(transcript, "t_x", &t_x_bytes);
        tr_append_32(transcript, "t_x_blinding", &t_x_blinding_bytes);
        tr_append_32(transcript, "e_blinding", &e_blinding_bytes);
        let w = challenge_scalar(transcript, "w");
        let Q = pt_mul(&w, &pc_gens.B);
        let G_p = point_slice(&bp_gens.G, 0, padded_n);
        let mut H_p: Vec<RistrettoPoint> = Vec::new();
        let mut i3: usize = 0;
        while i3 < padded_n
            invariant
                i3 <= padded_n,
                H_p@.len() == i3,
                padded_n <= bp_gens.H@.len(),
                exp_y_inv@.len() == padded_n,
            decreases padded_n - i3,
        {
            H_p.push(pt_mul(&exp_y_inv[i3], &bp_gens.H[i3]));
            i3 = i3 + 1;
        }
        let ipp_proof = InnerProductProof::create(transcript, &Q, G_p, H_p, l, r);
        Ok(R1CSProof {
            A_I: self.A_I,
            A_O: self.A_O,
            S: self.S,
            T_1,
            T_3,
            T_4,
            T_5,
            T_6,
            t_x: t_x_bytes,
            t_x_blinding: t_x_blinding_bytes,
            e_blinding: e_blinding_bytes,
            ipp_proof,
        })
    }
}

} // verus!
