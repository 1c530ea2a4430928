//! Symbolic weighted sums of wires: the atomic unit constraints are
//! expressed in.

use vstd::prelude::*;
use curve25519_dalek::scalar::Scalar;
use crate::cs::{Variable, VariableIndex};
use crate::ops::{sc_add, sc_mul, sc_neg};

verus! {

/// An ordered sequence of `(wire, weight)` pairs plus a constant scalar.
///
/// A registered linear combination states that the weighted sum of the
/// named wires plus the constant evaluates to exactly zero under any
/// assignment satisfying the circuit.  Building one never evaluates a wire:
/// evaluation happens only when the proving session holds concrete values.
#[derive(Clone, Debug)]
pub struct LinearCombination {
    /// The weighted wire handles, in the order they were added.
    pub terms: Vec<(VariableIndex, Scalar)>,
    /// The constant term.
    pub constant: Scalar,
}

impl LinearCombination {
    /// The empty combination: no terms and a zero constant.
    pub fn zero() -> (r: LinearCombination)
        ensures
            r.terms@ =~= Seq::<(VariableIndex, Scalar)>::empty(),
    {
        LinearCombination { terms: Vec::new(), constant: crate::ops::sc_from_u64(0) }
    }

    /// The combination naming `v` once, with weight one.
    pub fn from_variable(v: &Variable) -> (r: LinearCombination)
        ensures
            r.terms@.len() == 1,
            r.terms@[0].0 == v.index,
    {
        let mut terms: Vec<(VariableIndex, Scalar)> = Vec::new();
        terms.push((v.index, crate::ops::sc_from_u64(1)));
        LinearCombination { terms, constant: crate::ops::sc_from_u64(0) }
    }

    /// Appends one weighted wire; the constant is unchanged.
    pub fn with_term(self, v: &Variable, weight: Scalar) -> (r: LinearCombination)
        ensures
            r.terms@ =~= self.terms@.push((v.index, weight)),
            r.constant == self.constant,
    {
        let mut terms = self.terms;
        terms.push((v.index, weight));
        LinearCombination { terms, constant: self.constant }
    }

    /// Adds `c` to the constant term; the wire terms are unchanged.
    pub fn with_added_constant(self, c: Scalar) -> (r: LinearCombination)
        ensures
            r.terms@ =~= self.terms@,
    {
        LinearCombination { terms: self.terms, constant: sc_add(&self.constant, &c) }
    }

    /// The sum of two combinations: the term lists are concatenated in
    /// order and the constants are added.
    pub fn combine(self, other: LinearCombination) -> (r: LinearCombination)
        ensures
            r.terms@ =~= self.terms@ + other.terms@,
    {
        let mut terms = self.terms;
        let mut other_terms = other.terms;
        terms.append(&mut other_terms);
        LinearCombination { terms, constant: sc_add(&self.constant, &other.constant) }
    }

    /// Every weight and the constant multiplied by `s`; the wires named and
    /// their order are unchanged, so the combination still speaks of the
    /// same slice of the constraint graph.
    pub fn scaled(self, s: Scalar) -> (r: LinearCombination)
        ensures
            r.terms@.len() == self.terms@.len(),
            forall|i: int| 0 <= i < self.terms@.len() ==> r.terms@[i].0 == self.terms@[i].0,
    {
        let mut terms: Vec<(VariableIndex, Scalar)> = Vec::new();
        let n = self.terms.len();
        let mut k: usize = 0;
        while k < n
            invariant
                n == self.terms@.len(),
                k <= n,
                terms@.len() == k,
                forall|i: int| 0 <= i < k ==> terms@[i].0 == self.terms@[i].0,
            decreases n - k,
        {
            let (idx, w) = self.terms[k];
            terms.push((idx, sc_mul(&w, &s)));
            k = k + 1;
        }
        LinearCombination { terms, constant: sc_mul(&self.constant, &s) }
    }

    /// Every weight and the constant negated; the wires named and their
    /// order are unchanged.
    pub fn negated(self) -> (r: LinearCombination)
        ensures
            r.terms@.len() == self.terms@.len(),
            forall|i: int| 0 <= i < self.terms@.len() ==> r.terms@[i].0 == self.terms@[i].0,
    {
        let mut terms: Vec<(VariableIndex, Scalar)> = Vec::new();
        let n = self.terms.len();
        let mut k: usize = 0;
        while k < n
            invariant
                n == self.terms@.len(),
                k <= n,
                terms@.len() == k,
                forall|i: int| 0 <= i < k ==> terms@[i].0 == self.terms@[i].0,
            decreases n - k,
        {
            let (idx, w) = self.terms[k];
            terms.push((idx, sc_neg(&w)));
            k = k + 1;
        }
        LinearCombination { terms, constant: sc_neg(&self.constant) }
    }
}

/// Concatenation of term lists is associative: combining three
/// combinations gives the same term sequence whichever way the two
/// combinations are bracketed.  This is the representation-level half of
/// the requirement that building a statement is order-insensitive in the
/// bracketing; the scalar half lives in the opaque field algebra.
pub proof fn lemma_combine_terms_associative(
    a: Seq<(VariableIndex, Scalar)>,
    b: Seq<(VariableIndex, Scalar)>,
    c: Seq<(VariableIndex, Scalar)>,
)
    ensures
        (a + b) + c =~= a + (b + c),
{
}

} // verus!
