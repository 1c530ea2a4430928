//! Zero-knowledge proofs for rank-1 constraint systems (R1CS) over the
//! Ristretto group.
//!
//! A prover who holds secret scalars hidden inside Pedersen commitments can
//! prove, without revealing them, that they satisfy a caller-described system
//! of linear constraints and single-multiplication gates.  The same
//! constraint-building routine runs on the proving side (with concrete
//! values) and on the verifying side (with every value opaque), and the
//! three-phase commit / challenge / respond protocol turns the constraints
//! into a short proof checked by an inner-product argument.
//!
//! Both sides must absorb the identical sequence of labeled values into
//! the caller's transcript: the input count `m` and each input commitment
//! `V`; the sizes `n` and `q`; the wire commitments `A_I`, `A_O`, `S`;
//! the challenges `y`, `z`; the coefficient commitments `T_1`, `T_3`,
//! `T_4`, `T_5`, `T_6`; the challenge `x`; the response scalars `t_x`,
//! `t_x_blinding`, `e_blinding`; the challenge `w`; then, per
//! inner-product round, `L` and `R` with a challenge `u` after each pair.

#![allow(non_snake_case)]

pub mod errors;
pub mod ops;
pub mod vec_ops;
pub mod cs;
pub mod linear_combination;
pub mod generators;
pub mod inner_product_proof;
pub mod prover;
pub mod verifier_cs;
pub mod r1cs_proof;

pub use crate::cs::Assignment;
pub use crate::cs::ConstraintSystem;
pub use crate::cs::Variable;
pub use crate::cs::VariableIndex;
pub use crate::errors::R1CSError;
pub use crate::generators::BulletproofGens;
pub use crate::generators::PedersenGens;
pub use crate::inner_product_proof::InnerProductProof;
pub use crate::linear_combination::LinearCombination;
pub use crate::prover::ProverCS;
pub use crate::r1cs_proof::R1CSProof;
pub use crate::verifier_cs::VerifierCS;
