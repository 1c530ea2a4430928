//! The constraint-system abstraction: wire handles, the two-sided value
//! model, and the capability interface that statement-description code is
//! written against.

use vstd::prelude::*;
use curve25519_dalek::scalar::Scalar;
use crate::ops::{sc_add, sc_sub, sc_mul};
use crate::linear_combination::LinearCombination;
use crate::errors::R1CSError;

verus! {

/// The role and position of one wire in the constraint graph.
///
/// Wires are never mutated after allocation; a handle is only ever looked
/// up against the session that produced it.
#[derive(Clone, Copy, Debug, PartialEq, Eq, Structural)]
pub enum VariableIndex {
    /// The `j`-th externally committed input wire.
    Committed(usize),
    /// The left input wire of the `i`-th multiplication gate.
    MultiplierLeft(usize),
    /// The right input wire of the `i`-th multiplication gate.
    MultiplierRight(usize),
    /// The output wire of the `i`-th multiplication gate.
    MultiplierOutput(usize),
    /// The constant-1 wire.
    One,
}

/// A wire's value: a concrete scalar on the proving side, or an opaque
/// placeholder on the verifying side.
///
/// Statement-description code computes with assignments without knowing
/// which side it runs on: arithmetic on `Missing` propagates `Missing`,
/// never panics, and never reveals structure.
#[derive(Clone, Copy, Debug)]
pub enum Assignment {
    /// A concretely known scalar.
    Value(Scalar),
    /// An opaque placeholder carrying only commitment-relevant identity.
    Missing,
}

impl Assignment {
    /// Whether a concrete scalar is held.
    pub open spec fn is_value(self) -> bool {
        match self {
            Assignment::Value(_) => true,
            Assignment::Missing => false,
        }
    }

    /// The sum of two assignments; `Missing` propagates.
    pub fn add(self, other: Assignment) -> (r: Assignment)
        ensures
            r.is_value() <==> (self.is_value() && other.is_value()),
    {
        match (self, other) {
            (Assignment::Value(a), Assignment::Value(b)) => Assignment::Value(sc_add(&a, &b)),
            _ => Assignment::Missing,
        }
    }

    /// The difference of two assignments; `Missing` propagates.
    pub fn sub(self, other: Assignment) -> (r: Assignment)
        ensures
            r.is_value() <==> (self.is_value() && other.is_value()),
    {
        match (self, other) {
            (Assignment::Value(a), Assignment::Value(b)) => Assignment::Value(sc_sub(&a, &b)),
            _ => Assignment::Missing,
        }
    }

    /// The product of two assignments; `Missing` propagates.
    pub fn mul(self, other: Assignment) -> (r: Assignment)
        ensures
            r.is_value() <==> (self.is_value() && other.is_value()),
    {
        match (self, other) {
            (Assignment::Value(a), Assignment::Value(b)) => Assignment::Value(sc_mul(&a, &b)),
            _ => Assignment::Missing,
        }
    }
}

/// An opaque handle to one wire, carrying the wire's assignment so that the
/// same statement-description code can compute with concrete values on the
/// proving side and stay symbolic on the verifying side.
#[derive(Clone, Copy, Debug)]
pub struct Variable {
    /// Which wire slot this handle names.
    pub index: VariableIndex,
    /// The wire's value, as visible to the side that allocated it.
    pub assignment: Assignment,
}

/// The capability interface shared by the proving and the verifying session.
///
/// Statement-description code is written once against this trait and runs
/// unmodified against either concrete session.  All three operations are
/// infallible at call time; their effects are checked only when the session
/// is later committed and proved or verified.
pub trait ConstraintSystem: Sized {
    /// How many multiplication gates have been allocated so far.
    spec fn gates(&self) -> nat;

    /// The linear constraints registered so far, in registration order.
    spec fn constraints(&self) -> Seq<LinearCombination>;

    /// Allocates a fresh wire holding `a`: the left input of a fresh
    /// multiplication gate whose right input and output are fixed to zero.
    fn allocate(&mut self, a: Assignment) -> (v: Variable)
        ensures
            final(self).gates() == old(self).gates() + 1,
            final(self).constraints() == old(self).constraints(),
            v.index == VariableIndex::MultiplierLeft(old(self).gates() as usize),
            v.assignment == a;

    /// Allocates a fresh multiplication gate and returns handles to its
    /// left, right and output wires; the output is assigned the product of
    /// the two inputs, so that `left * right = output` holds of every gate
    /// by construction.
    fn allocate_multiplier(&mut self, left: Assignment, right: Assignment) -> (res: (
        Variable,
        Variable,
        Variable,
    ))
        ensures
            final(self).gates() == old(self).gates() + 1,
            final(self).constraints() == old(self).constraints(),
            res.0.index == VariableIndex::MultiplierLeft(old(self).gates() as usize),
            res.1.index == VariableIndex::MultiplierRight(old(self).gates() as usize),
            res.2.index == VariableIndex::MultiplierOutput(old(self).gates() as usize),
            res.0.assignment == left,
            res.1.assignment == right,
            res.2.assignment.is_value() <==> (left.is_value() && right.is_value());

    /// Registers the constraint that `lc` evaluates to zero under every
    /// assignment satisfying the circuit.
    fn constrain(&mut self, lc: LinearCombination)
        ensures
            final(self).gates() == old(self).gates(),
            final(self).constraints() == old(self).constraints().push(lc);
}

/// The registered constraints folded into single weight vectors by powers
/// of a challenge scalar.
///
/// With gate wires `a_L, a_R, a_O` and committed inputs `v`, the fold of
/// satisfied constraints obeys
/// `⟨wL, a_L⟩ + ⟨wR, a_R⟩ + ⟨wO, a_O⟩ = ⟨wV, v⟩ + wc`.
pub struct FlattenedConstraints {
    /// Weights on the left gate wires.
    pub wL: Vec<Scalar>,
    /// Weights on the right gate wires.
    pub wR: Vec<Scalar>,
    /// Weights on the output gate wires.
    pub wO: Vec<Scalar>,
    /// Weights on the committed input wires.
    pub wV: Vec<Scalar>,
    /// The folded constant term.
    pub wc: Scalar,
}

/// Whether a wire handle stays inside a session with `n` multiplication
/// gates and `m` committed inputs.
pub open spec fn index_in_range(idx: VariableIndex, n: nat, m: nat) -> bool {
    match idx {
        VariableIndex::Committed(j) => j < m,
        VariableIndex::MultiplierLeft(i) => i < n,
        VariableIndex::MultiplierRight(i) => i < n,
        VariableIndex::MultiplierOutput(i) => i < n,
        VariableIndex::One => true,
    }
}

/// Whether every wire a linear combination names stays inside such a
/// session.
pub open spec fn lc_in_range(lc: LinearCombination, n: nat, m: nat) -> bool {
    forall|t: int| 0 <= t < lc.terms@.len() ==> index_in_range(#[trigger] lc.terms@[t].0, n, m)
}

/// Folds every constraint `q` with the multiplier `z^(q+1)`, accumulating
/// each term's weight on its wire's slot.  Succeeds exactly when every
/// term names a wire inside the session — a gate below `n` or a committed
/// input below `m` — and fails with a `FormatError` otherwise, since such
/// a handle cannot have come from the session.
pub(crate) fn flatten_constraints(
    constraints: &Vec<LinearCombination>,
    z: &Scalar,
    n: usize,
    m: usize,
) -> (r: Result<FlattenedConstraints, R1CSError>)
    ensures
        r is Ok <==> (forall|q: int|
            0 <= q < constraints@.len() ==> lc_in_range(
                #[trigger] constraints@[q],
                n as nat,
                m as nat,
            )),
        r is Err ==> r == Err::<FlattenedConstraints, R1CSError>(R1CSError::FormatError),
        r matches Ok(f) ==> f.wL@.len() == n && f.wR@.len() == n && f.wO@.len() == n
            && f.wV@.len() == m,
{
    let mut wL = crate::vec_ops::zeros(n);
    let mut wR = crate::vec_ops::zeros(n);
    let mut wO = crate::vec_ops::zeros(n);
    let mut wV = crate::vec_ops::zeros(m);
    let mut wc = crate::ops::sc_from_u64(0);
    let mut exp_z = *z;
    let mut q: usize = 0;
    while q < constraints.len()
        invariant
            q <= constraints@.len(),
            wL@.len() == n,
            wR@.len() == n,
            wO@.len() == n,
            wV@.len() == m,
            forall|p: int|
                0 <= p < q ==> lc_in_range(#[trigger] constraints@[p], n as nat, m as nat),
        decreases constraints@.len() - q,
    {
        let lc = &constraints[q];
        let mut t: usize = 0;
        while t < lc.terms.len()
            invariant
                t <= lc.terms@.len(),
                q < constraints@.len(),
                *lc == constraints@[q as int],
                wL@.len() == n,
                wR@.len() == n,
                wO@.len() == n,
                wV@.len() == m,
                forall|s: int|
                    0 <= s < t ==> index_in_range(#[trigger] lc.terms@[s].0, n as nat, m as nat),
            decreases lc.terms@.len() - t,
        {
            let (idx, coeff) = lc.terms[t];
            let in_range = match idx {
                VariableIndex::MultiplierLeft(i) => i < n,
                VariableIndex::MultiplierRight(i) => i < n,
                VariableIndex::MultiplierOutput(i) => i < n,
                VariableIndex::Committed(j) => j < m,
                VariableIndex::One => true,
            };
            if !in_range {
                proof {
                    assert(lc.terms@[t as int] == (idx, coeff));
                    assert(!index_in_range(lc.terms@[t as int].0, n as nat, m as nat));
                    assert(constraints@[q as int] == *lc);
                    assert(!lc_in_range(constraints@[q as int], n as nat, m as nat));
                }
                return Err(R1CSError::FormatError);
            }
            let zc = sc_mul(&exp_z, &coeff);
            match idx {
                VariableIndex::MultiplierLeft(i) => {
                    wL[i] = sc_add(&wL[i], &zc);
                },
                VariableIndex::MultiplierRight(i) => {
                    wR[i] = sc_add(&wR[i], &zc);
                },
                VariableIndex::MultiplierOutput(i) => {
                    wO[i] = sc_add(&wO[i], &zc);
                },
                VariableIndex::Committed(j) => {
                    wV[j] = sc_sub(&wV[j], &zc);
                },
                VariableIndex::One => {
                    wc = sc_sub(&wc, &zc);
                },
            }
            t = t + 1;
        }
        wc = sc_sub(&wc, &sc_mul(&exp_z, &lc.constant));
        exp_z = sc_mul(&exp_z, z);
        q = q + 1;
    }
    Ok(FlattenedConstraints { wL, wR, wO, wV, wc })
}

} // verus!
