//! The proof structure: the fixed bundle of commitments and scalars a
//! prover sends, with its exact wire format.
//!
//! Every field is held as its canonical 32-byte encoding, so the wire
//! format is pure concatenation and serialization is verified exactly:
//! eight compressed group elements, three scalars, the inner-product
//! argument's interleaved round commitments, and its two final scalars.

use vstd::prelude::*;
use curve25519_dalek::scalar::Scalar;
use merlin::Transcript;
use crate::cs::Variable;
use crate::cs::ConstraintSystem;
use crate::errors::R1CSError;
use crate::generators::{BulletproofGens, PedersenGens};
use crate::inner_product_proof::InnerProductProof;
use crate::prover::ProverCS;
use crate::verifier_cs::VerifierCS;
use crate::vec_ops::{push_block, read_block};

verus! {

broadcast use vstd::array::group_array_axioms;

/// The byte interleaving `L[0] R[0] L[1] R[1] ...` of two equally long
/// block sequences.
pub open spec fn interleave(L: Seq<[u8; 32]>, R: Seq<[u8; 32]>) -> Seq<u8>
    decreases L.len(),
{
    if L.len() == 0 {
        Seq::<u8>::empty()
    } else {
        interleave(L.drop_last(), R.drop_last()) + L.last()@ + R.last()@
    }
}

/// Interleaving two equally long block sequences yields 64 bytes per pair.
pub proof fn lemma_interleave_len(L: Seq<[u8; 32]>, R: Seq<[u8; 32]>)
    requires
        L.len() == R.len(),
    ensures
        interleave(L, R).len() == 64 * L.len(),
    decreases L.len(),
{
    if L.len() > 0 {
        lemma_interleave_len(L.drop_last(), R.drop_last());
    }
}

/// Adjacent subranges concatenate to the enclosing subrange.
proof fn lemma_concat_sub(s: Seq<u8>, a: int, b: int, c: int)
    requires
        0 <= a <= b <= c <= s.len(),
    ensures
        s.subrange(a, b) + s.subrange(b, c) == s.subrange(a, c),
{
    assert(s.subrange(a, b) + s.subrange(b, c) =~= s.subrange(a, c));
}

/// A proof of a statement described against a [`crate::cs::ConstraintSystem`].
///
/// Immutable once produced; the fields are the canonical encodings of the
/// protocol's commitments and response scalars, in wire order.
#[derive(Clone, Debug)]
pub struct R1CSProof {
    /// Commitment to the left and right input wire vectors.
    pub A_I: [u8; 32],
    /// Commitment to the output wire vector.
    pub A_O: [u8; 32],
    /// Commitment to the blinding vectors.
    pub S: [u8; 32],
    /// Commitment to the degree-1 coefficient of `t(x)`.
    pub T_1: [u8; 32],
    /// Commitment to the degree-3 coefficient of `t(x)`.
    pub T_3: [u8; 32],
    /// Commitment to the degree-4 coefficient of `t(x)`.
    pub T_4: [u8; 32],
    /// Commitment to the degree-5 coefficient of `t(x)`.
    pub T_5: [u8; 32],
    /// Commitment to the degree-6 coefficient of `t(x)`.
    pub T_6: [u8; 32],
    /// Evaluation of `t(x)` at the challenge point.
    pub t_x: [u8; 32],
    /// Blinding factor for the synthetic commitment to `t(x)`.
    pub t_x_blinding: [u8; 32],
    /// Blinding factor for the synthetic commitment to the inner-product
    /// vectors.
    pub e_blinding: [u8; 32],
    /// The inner-product argument for the committed vectors.
    pub ipp_proof: InnerProductProof,
}

impl R1CSProof {
    /// A proof is well-formed when its inner-product part has one `L` and
    /// one `R` commitment per round.
    pub open spec fn wf(self) -> bool {
        self.ipp_proof.wf()
    }

    /// The eleven fixed 32-byte fields, in wire order.
    pub open spec fn fixed_bytes(self) -> Seq<u8> {
        self.A_I@ + self.A_O@ + self.S@ + self.T_1@ + self.T_3@ + self.T_4@ + self.T_5@
            + self.T_6@ + self.t_x@ + self.t_x_blinding@ + self.e_blinding@
    }

    /// The full wire format: the fixed fields, the interleaved round
    /// commitments, then the two folded scalars.
    pub open spec fn spec_bytes(self) -> Seq<u8> {
        self.fixed_bytes() + interleave(self.ipp_proof.L@, self.ipp_proof.R@)
            + self.ipp_proof.a@ + self.ipp_proof.b@
    }

    /// Whether a byte string has the shape of a serialized proof: a
    /// multiple of 32 bytes, at least the thirteen fixed blocks, and an
    /// even number of round blocks.
    pub open spec fn spec_parses(s: Seq<u8>) -> bool {
        &&& s.len() % 32 == 0
        &&& s.len() >= 13 * 32
        &&& (s.len() - 13 * 32) % 64 == 0
    }

    /// Serializes the proof into its wire format.
    pub fn to_bytes(&self) -> (r: Vec<u8>)
        requires
            self.wf(),
        ensures
            r@ == self.spec_bytes(),
            Self::spec_parses(r@),
    {
        let mut out: Vec<u8> = Vec::new();
        push_block(&mut out, &self.A_I);
        push_block(&mut out, &self.A_O);
        push_block(&mut out, &self.S);
        push_block(&mut out, &self.T_1);
        push_block(&mut out, &self.T_3);
        push_block(&mut out, &self.T_4);
        push_block(&mut out, &self.T_5);
        push_block(&mut out, &self.T_6);
        push_block(&mut out, &self.t_x);
        push_block(&mut out, &self.t_x_blinding);
        push_block(&mut out, &self.e_blinding);
        proof {
            assert(out@ =~= self.fixed_bytes());
        }
        let ghost Ls = self.ipp_proof.L@;
        let ghost Rs = self.ipp_proof.R@;
        let k = self.ipp_proof.L.len();
        let mut i: usize = 0;
        while i < k
            invariant
                self.wf(),
                k == Ls.len(),
                Ls == self.ipp_proof.L@,
                Rs == self.ipp_proof.R@,
                i <= k,
                out@ == self.fixed_bytes() + interleave(Ls.take(i as int), Rs.take(i as int)),
            decreases k - i,
        {
            push_block(&mut out, &self.ipp_proof.L[i]);
            push_block(&mut out, &self.ipp_proof.R[i]);
            proof {
                let i1 = i + 1 as int;
                assert(Ls.take(i1).drop_last() =~= Ls.take(i as int));
                assert(Rs.take(i1).drop_last() =~= Rs.take(i as int));
                assert(Ls.take(i1).last() == Ls[i as int]);
                assert(interleave(Ls.take(i1), Rs.take(i1)) == interleave(
                    Ls.take(i as int),
                    Rs.take(i as int),
                ) + Ls[i as int]@ + Rs[i as int]@);
                assert(out@ =~= self.fixed_bytes() + interleave(Ls.take(i1), Rs.take(i1)));
            }
            i = i + 1;
        }
        proof {
            assert(Ls.take(k as int) =~= Ls);
            assert(Rs.take(k as int) =~= Rs);
        }
        push_block(&mut out, &self.ipp_proof.a);
        push_block(&mut out, &self.ipp_proof.b);
        proof {
            assert(out@ =~= self.spec_bytes());
            lemma_interleave_len(Ls, Rs);
        }
        out
    }

    /// Deserializes a proof from its wire format.  Succeeds exactly on
    /// byte strings of the right shape, and then reproduces the byte
    /// string when serialized again.
    pub fn from_bytes(bytes: &Vec<u8>) -> (r: Result<R1CSProof, R1CSError>)
        ensures
            r is Ok <==> Self::spec_parses(bytes@),
            r matches Ok(p) ==> p.wf() && p.spec_bytes() == bytes@,
    {
        let len = bytes.len();
        if len % 32 != 0 {
            return Err(R1CSError::FormatError);
        }
        if len < 13 * 32 {
            return Err(R1CSError::FormatError);
        }
        if (len - 13 * 32) % 64 != 0 {
            return Err(R1CSError::FormatError);
        }
        let k = (len - 13 * 32) / 64;
        proof {
            assert(len == 416 + 64 * ((len - 416) / 64)) by {
                vstd::arithmetic::div_mod::lemma_fundamental_div_mod((len - 416) as int, 64);
            };
        }
        let A_I = read_block(bytes, 0);
        let A_O = read_block(bytes, 32);
        let S = read_block(bytes, 64);
        let T_1 = read_block(bytes, 96);
        let T_3 = read_block(bytes, 128);
        let T_4 = read_block(bytes, 160);
        let T_5 = read_block(bytes, 192);
        let T_6 = read_block(bytes, 224);
        let t_x = read_block(bytes, 256);
        let t_x_blinding = read_block(bytes, 288);
        let e_blinding = read_block(bytes, 320);
        let mut L: Vec<[u8; 32]> = Vec::new();
        let mut R: Vec<[u8; 32]> = Vec::new();
        let mut i: usize = 0;
        let mut off: usize = 352;
        while i < k
            invariant
                len == bytes@.len(),
                len == 416 + 64 * k,
                i <= k,
                off == 352 + 64 * i,
                L@.len() == i,
                R@.len() == i,
                interleave(L@, R@) == bytes@.subrange(352, off as int),
            decreases k - i,
        {
            let lb = read_block(bytes, off);
            let rb = read_block(bytes, off + 32);
            let ghost L0 = L@;
            let ghost R0 = R@;
            L.push(lb);
            R.push(rb);
            proof {
                assert(L@.drop_last() =~= L0);
                assert(R@.drop_last() =~= R0);
                assert(interleave(L@, R@) == interleave(L@.drop_last(), R@.drop_last())
                    + L@.last()@ + R@.last()@);
                lemma_concat_sub(bytes@, 352, off as int, off + 32 as int);
                lemma_concat_sub(bytes@, 352, off + 32 as int, off + 64 as int);
                assert(interleave(L@, R@) =~= bytes@.subrange(352, off + 64 as int));
            }
            i = i + 1;
            off = off + 64;
        }
        let a = read_block(bytes, off);
        let b = read_block(bytes, off + 32);
        let p = R1CSProof {
            A_I,
            A_O,
            S,
            T_1,
            T_3,
            T_4,
            T_5,
            T_6,
            t_x,
            t_x_blinding,
            e_blinding,
            ipp_proof: InnerProductProof { L, R, a, b },
        };
        proof {
            lemma_concat_sub(bytes@, 0, 32, 64);
            lemma_concat_sub(bytes@, 0, 64, 96);
            lemma_concat_sub(bytes@, 0, 96, 128);
            lemma_concat_sub(bytes@, 0, 128, 160);
            lemma_concat_sub(bytes@, 0, 160, 192);
            lemma_concat_sub(bytes@, 0, 192, 224);
            lemma_concat_sub(bytes@, 0, 224, 256);
            lemma_concat_sub(bytes@, 0, 256, 288);
            lemma_concat_sub(bytes@, 0, 288, 320);
            lemma_concat_sub(bytes@, 0, 320, 352);
            assert(p.fixed_bytes() =~= bytes@.subrange(0, 352));
            lemma_concat_sub(bytes@, 0, 352, off as int);
            lemma_concat_sub(bytes@, 0, off as int, off + 32 as int);
            lemma_concat_sub(bytes@, 0, off + 32 as int, off + 64 as int);
            assert(p.spec_bytes() =~= bytes@);
        }
        Ok(p)
    }
}

impl R1CSProof {
    /// Creates a proof of the statement laid out by `builder`, along with
    /// the Pedersen commitments for all supplied secrets.
    ///
    /// Constructs a proving session bound to the parameters and the
    /// transcript, hands it to `builder` exactly once together with one
    /// wire handle per secret (in supply order), then commits and proves.
    /// Every failure — the builder's own error, a missing assignment, an
    /// undersized generator set, or an unsatisfied constraint — is
    /// returned unchanged; no proof is produced on any failure.
    pub fn prove<F: FnOnce(ProverCS, Vec<Variable>) -> Result<ProverCS, R1CSError>>(
        bp_gens: &BulletproofGens,
        pc_gens: &PedersenGens,
        transcript: &mut Transcript,
        v: Vec<Scalar>,
        v_blinding: Vec<Scalar>,
        builder: F,
    ) -> (r: Result<(R1CSProof, Vec<[u8; 32]>), R1CSError>)
        requires
            forall|p: ProverCS, vars: Vec<Variable>| #[trigger] call_requires(builder, (p, vars)),
        ensures
            r matches Ok(t) ==> t.0.wf() && t.1@.len() == v@.len()
                && vstd::arithmetic::power2::pow2(t.0.ipp_proof.L@.len()) <= bp_gens.G@.len(),
            v@.len() != v_blinding@.len() ==> r == Err::<(R1CSProof, Vec<[u8; 32]>), R1CSError>(
                R1CSError::FormatError,
            ),
            forall|e: R1CSError|
                v@.len() == v_blinding@.len() && (forall|p: ProverCS, vars: Vec<Variable>, out:
                    Result<ProverCS, R1CSError>|
                    call_ensures(builder, (p, vars), out) ==> out == Err::<ProverCS, R1CSError>(e))
                    ==> r == Err::<(R1CSProof, Vec<[u8; 32]>), R1CSError>(e),
            (forall|p: ProverCS, vars: Vec<Variable>, out: Result<ProverCS, R1CSError>|
                call_ensures(builder, (p, vars), out) ==> (out matches Ok(session)
                    ==> !crate::inner_product_proof::gens_cover(
                    session.gates(),
                    bp_gens.G@.len(),
                    bp_gens.H@.len(),
                ))) ==> r is Err,
    {
        let (prover, vars, commitments) = match ProverCS::new(pc_gens, transcript, v, v_blinding) {
            Ok(t) => t,
            Err(e) => { return Err(e) },
        };
        let prover = match builder(prover, vars) {
            Ok(p) => p,
            Err(e) => { return Err(e) },
        };
        let committed = match prover.commit(bp_gens, pc_gens, transcript) {
            Ok(c) => c,
            Err(e) => { return Err(e) },
        };
        let proof = match committed.prove(bp_gens, pc_gens, transcript) {
            Ok(p) => p,
            Err(e) => { return Err(e) },
        };
        Ok((proof, commitments))
    }

    /// Checks this proof against the statement laid out by `builder` and
    /// the supplied input commitments.
    ///
    /// Constructs a verifying session seeded with the commitments, hands
    /// it to `builder` exactly once together with one opaque wire handle
    /// per commitment, then commits and verifies.  The builder's own
    /// error and every protocol failure are returned unchanged; success
    /// means every opening and inner-product check held.
    pub fn verify<F: FnOnce(VerifierCS, Vec<Variable>) -> Result<VerifierCS, R1CSError>>(
        &self,
        bp_gens: &BulletproofGens,
        pc_gens: &PedersenGens,
        transcript: &mut Transcript,
        commitments: Vec<[u8; 32]>,
        builder: F,
    ) -> (r: Result<(), R1CSError>)
        requires
            forall|c: VerifierCS, vars: Vec<Variable>| #[trigger] call_requires(builder, (c, vars)),
        ensures
            r is Ok ==> self.wf() && crate::ops::ristretto_decodes(self.A_I@)
                && crate::ops::ristretto_decodes(self.A_O@) && crate::ops::ristretto_decodes(
                self.S@,
            ) && crate::ops::ristretto_decodes(self.T_1@) && crate::ops::ristretto_decodes(
                self.T_3@,
            ) && crate::ops::ristretto_decodes(self.T_4@) && crate::ops::ristretto_decodes(
                self.T_5@,
            ) && crate::ops::ristretto_decodes(self.T_6@) && crate::ops::scalar_canonical(
                self.t_x@,
            ) && crate::ops::scalar_canonical(self.t_x_blinding@) && crate::ops::scalar_canonical(
                self.e_blinding@,
            ) && crate::ops::scalar_canonical(self.ipp_proof.a@) && crate::ops::scalar_canonical(
                self.ipp_proof.b@,
            ) && (forall|j: int|
                0 <= j < self.ipp_proof.L@.len() ==> crate::ops::ristretto_decodes(
                    (#[trigger] self.ipp_proof.L@[j])@,
                ) && crate::ops::ristretto_decodes(self.ipp_proof.R@[j]@)),
            forall|e: R1CSError|
                (forall|c: VerifierCS, vars: Vec<Variable>, out: Result<VerifierCS, R1CSError>|
                    call_ensures(builder, (c, vars), out) ==> out == Err::<VerifierCS, R1CSError>(
                        e,
                    )) ==> r == Err::<(), R1CSError>(e),
    {
        let (verifier, vars) = VerifierCS::new(transcript, commitments);
        let verifier = match builder(verifier, vars) {
            Ok(c) => c,
            Err(e) => { return Err(e) },
        };
        let committed = verifier.commit(transcript);
        committed.verify(self, bp_gens, pc_gens, transcript)
    }
}

/// Serialization is injective on well-formed proofs: two proofs with the
/// same wire bytes agree in every field.  Together with the contracts of
/// [`R1CSProof::to_bytes`] and [`R1CSProof::from_bytes`], this says that
/// deserializing a serialized proof reproduces every field exactly.
pub proof fn lemma_serialization_injective(p: R1CSProof, q: R1CSProof)
    requires
        p.wf(),
        q.wf(),
        p.spec_bytes() == q.spec_bytes(),
    ensures
        p.A_I == q.A_I,
        p.A_O == q.A_O,
        p.S == q.S,
        p.T_1 == q.T_1,
        p.T_3 == q.T_3,
        p.T_4 == q.T_4,
        p.T_5 == q.T_5,
        p.T_6 == q.T_6,
        p.t_x == q.t_x,
        p.t_x_blinding == q.t_x_blinding,
        p.e_blinding == q.e_blinding,
        p.ipp_proof.L@ == q.ipp_proof.L@,
        p.ipp_proof.R@ == q.ipp_proof.R@,
        p.ipp_proof.a == q.ipp_proof.a,
        p.ipp_proof.b == q.ipp_proof.b,
{
    lemma_interleave_len(p.ipp_proof.L@, p.ipp_proof.R@);
    lemma_interleave_len(q.ipp_proof.L@, q.ipp_proof.R@);
    let s = p.spec_bytes();
    assert(p.fixed_bytes().len() == 352);
    assert(q.fixed_bytes().len() == 352);
    assert(p.spec_bytes().len() == 352 + 64 * p.ipp_proof.L@.len() + 64);
    assert(q.spec_bytes().len() == 352 + 64 * q.ipp_proof.L@.len() + 64);
    assert(p.ipp_proof.L@.len() == q.ipp_proof.L@.len());
    lemma_blocks_equal(p, q);
    lemma_interleave_injective(
        p.ipp_proof.L@,
        p.ipp_proof.R@,
        q.ipp_proof.L@,
        q.ipp_proof.R@,
    );
}

/// Two equal interleavings of equally long block sequences have equal
/// components.
proof fn lemma_interleave_injective(
    L1: Seq<[u8; 32]>,
    R1: Seq<[u8; 32]>,
    L2: Seq<[u8; 32]>,
    R2: Seq<[u8; 32]>,
)
    requires
        L1.len() == R1.len(),
        L2.len() == R2.len(),
        L1.len() == L2.len(),
        interleave(L1, R1) == interleave(L2, R2),
    ensures
        L1 == L2,
        R1 == R2,
    decreases L1.len(),
{
    if L1.len() == 0 {
        assert(L1 =~= L2);
        assert(R1 =~= R2);
    } else {
        lemma_interleave_len(L1.drop_last(), R1.drop_last());
        lemma_interleave_len(L2.drop_last(), R2.drop_last());
        let s = interleave(L1, R1);
        let t1 = interleave(L1.drop_last(), R1.drop_last());
        let t2 = interleave(L2.drop_last(), R2.drop_last());
        let m = t1.len() as int;
        assert(t2.len() == m);
        assert(s == t1 + L1.last()@ + R1.last()@);
        assert(s == t2 + L2.last()@ + R2.last()@);
        assert(L1.last()@ =~= s.subrange(m as int, m + 32));
        assert(L2.last()@ =~= s.subrange(m as int, m + 32));
        assert(R1.last()@ =~= s.subrange(m + 32, m + 64));
        assert(R2.last()@ =~= s.subrange(m + 32, m + 64));
        assert(L1.last() =~= L2.last());
        assert(R1.last() =~= R2.last());
        assert(t1 =~= s.subrange(0, m));
        assert(t2 =~= s.subrange(0, m));
        assert(interleave(L1.drop_last(), R1.drop_last()) == interleave(
            L2.drop_last(),
            R2.drop_last(),
        ));
        lemma_interleave_injective(L1.drop_last(), R1.drop_last(), L2.drop_last(), R2.drop_last());
        assert forall|j: int| 0 <= j < L1.len() implies L1[j] == L2[j] && R1[j] == R2[j] by {
            if j < L1.len() - 1 {
                assert(L1.drop_last()[j] == L2.drop_last()[j]);
                assert(R1.drop_last()[j] == R2.drop_last()[j]);
            } else {
                assert(L1[j] == L1.last());
                assert(L2[j] == L2.last());
                assert(R1[j] == R1.last());
                assert(R2[j] == R2.last());
            }
        }
        assert(L1 =~= L2);
        assert(R1 =~= R2);
    }
}

/// The fixed fields and final scalars of two proofs with equal wire bytes
/// are equal.
proof fn lemma_blocks_equal(p: R1CSProof, q: R1CSProof)
    requires
        p.wf(),
        q.wf(),
        p.spec_bytes() == q.spec_bytes(),
        p.ipp_proof.L@.len() == q.ipp_proof.L@.len(),
    ensures
        p.A_I == q.A_I,
        p.A_O == q.A_O,
        p.S == q.S,
        p.T_1 == q.T_1,
        p.T_3 == q.T_3,
        p.T_4 == q.T_4,
        p.T_5 == q.T_5,
        p.T_6 == q.T_6,
        p.t_x == q.t_x,
        p.t_x_blinding == q.t_x_blinding,
        p.e_blinding == q.e_blinding,
        p.ipp_proof.a == q.ipp_proof.a,
        p.ipp_proof.b == q.ipp_proof.b,
        interleave(p.ipp_proof.L@, p.ipp_proof.R@) == interleave(q.ipp_proof.L@, q.ipp_proof.R@),
{
    lemma_interleave_len(p.ipp_proof.L@, p.ipp_proof.R@);
    lemma_interleave_len(q.ipp_proof.L@, q.ipp_proof.R@);
    let s = p.spec_bytes();
    let m = interleave(p.ipp_proof.L@, p.ipp_proof.R@).len() as int;
    assert(p.A_I@ =~= s.subrange(0, 32));
    assert(q.A_I@ =~= s.subrange(0, 32));
    assert(p.A_I =~= q.A_I);
    assert(p.A_O@ =~= s.subrange(32, 64));
    assert(q.A_O@ =~= s.subrange(32, 64));
    assert(p.A_O =~= q.A_O);
    assert(p.S@ =~= s.subrange(64, 96));
    assert(q.S@ =~= s.subrange(64, 96));
    assert(p.S =~= q.S);
    assert(p.T_1@ =~= s.subrange(96, 128));
    assert(q.T_1@ =~= s.subrange(96, 128));
    assert(p.T_1 =~= q.T_1);
    assert(p.T_3@ =~= s.subrange(128, 160));
    assert(q.T_3@ =~= s.subrange(128, 160));
    assert(p.T_3 =~= q.T_3);
    assert(p.T_4@ =~= s.subrange(160, 192));
    assert(q.T_4@ =~= s.subrange(160, 192));
    assert(p.T_4 =~= q.T_4);
    assert(p.T_5@ =~= s.subrange(192, 224));
    assert(q.T_5@ =~= s.subrange(192, 224));
    assert(p.T_5 =~= q.T_5);
    assert(p.T_6@ =~= s.subrange(224, 256));
    assert(q.T_6@ =~= s.subrange(224, 256));
    assert(p.T_6 =~= q.T_6);
    assert(p.t_x@ =~= s.subrange(256, 288));
    assert(q.t_x@ =~= s.subrange(256, 288));
    assert(p.t_x =~= q.t_x);
    assert(p.t_x_blinding@ =~= s.subrange(288, 320));
    assert(q.t_x_blinding@ =~= s.subrange(288, 320));
    assert(p.t_x_blinding =~= q.t_x_blinding);
    assert(p.e_blinding@ =~= s.subrange(320, 352));
    assert(q.e_blinding@ =~= s.subrange(320, 352));
    assert(p.e_blinding =~= q.e_blinding);
    assert(p.ipp_proof.a@ =~= s.subrange(352 + m, 352 + m + 32));
    assert(q.ipp_proof.a@ =~= s.subrange(352 + m, 352 + m + 32));
    assert(p.ipp_proof.a =~= q.ipp_proof.a);
    assert(p.ipp_proof.b@ =~= s.subrange(352 + m + 32, 352 + m + 64));
    assert(q.ipp_proof.b@ =~= s.subrange(352 + m + 32, 352 + m + 64));
    assert(p.ipp_proof.b =~= q.ipp_proof.b);
    assert(interleave(p.ipp_proof.L@, p.ipp_proof.R@) =~= s.subrange(352, 352 + m));
    assert(interleave(q.ipp_proof.L@, q.ipp_proof.R@) =~= s.subrange(352, 352 + m));
}

} // verus!
