use curve25519_dalek::scalar::Scalar;
use merlin::Transcript;
use r1cs_zkp::cs::{Assignment, ConstraintSystem, Variable, VariableIndex};
use r1cs_zkp::errors::R1CSError;
use r1cs_zkp::generators::{BulletproofGens, PedersenGens};
use r1cs_zkp::linear_combination::LinearCombination;
use r1cs_zkp::prover::ProverCS;
use r1cs_zkp::r1cs_proof::R1CSProof;

fn sample_proof() -> R1CSProof {
    let bp_gens = BulletproofGens::new(8);
    let pc_gens = PedersenGens::new();
    let mut transcript = Transcript::new(b"codec test");
    let (proof, _) = R1CSProof::prove(
        &bp_gens,
        &pc_gens,
        &mut transcript,
        vec![Scalar::from(3u64), Scalar::from(5u64)],
        vec![Scalar::from(7u64), Scalar::from(9u64)],
        |mut cs: ProverCS, vars: Vec<Variable>| {
            let one = Scalar::ONE;
            let (l, r, o) = cs.allocate_multiplier(vars[0].assignment, vars[1].assignment);
            cs.constrain(
                LinearCombination::zero()
                    .with_term(&vars[0], one)
                    .with_term(&l, -one),
            );
            cs.constrain(
                LinearCombination::zero()
                    .with_term(&vars[1], one)
                    .with_term(&r, -one),
            );
            cs.constrain(
                LinearCombination::zero()
                    .with_term(&o, one)
                    .with_added_constant(-Scalar::from(15u64)),
            );
            Ok(cs)
        },
    )
    .unwrap();
    proof
}

#[test]
fn serialization_round_trip_reproduces_every_field() {
    let proof = sample_proof();
    let bytes = proof.to_bytes();
    // One gate pads to one wire, so the argument has no rounds: thirteen
    // 32-byte blocks exactly.
    assert_eq!(bytes.len(), 416);
    let back = R1CSProof::from_bytes(&bytes).unwrap();
    assert_eq!(back.A_I, proof.A_I);
    assert_eq!(back.A_O, proof.A_O);
    assert_eq!(back.S, proof.S);
    assert_eq!(back.T_1, proof.T_1);
    assert_eq!(back.T_3, proof.T_3);
    assert_eq!(back.T_4, proof.T_4);
    assert_eq!(back.T_5, proof.T_5);
    assert_eq!(back.T_6, proof.T_6);
    assert_eq!(back.t_x, proof.t_x);
    assert_eq!(back.t_x_blinding, proof.t_x_blinding);
    assert_eq!(back.e_blinding, proof.e_blinding);
    assert_eq!(back.ipp_proof.L, proof.ipp_proof.L);
    assert_eq!(back.ipp_proof.R, proof.ipp_proof.R);
    assert_eq!(back.ipp_proof.a, proof.ipp_proof.a);
    assert_eq!(back.ipp_proof.b, proof.ipp_proof.b);
    assert_eq!(back.to_bytes(), bytes);
}

#[test]
fn from_bytes_rejects_lengths_off_the_block_grid() {
    let proof = sample_proof();
    let mut bytes = proof.to_bytes();
    bytes.push(0);
    assert!(matches!(
        R1CSProof::from_bytes(&bytes),
        Err(R1CSError::FormatError)
    ));
}

#[test]
fn from_bytes_rejects_truncated_input() {
    let bytes = vec![0u8; 12 * 32];
    assert!(matches!(
        R1CSProof::from_bytes(&bytes),
        Err(R1CSError::FormatError)
    ));
}

#[test]
fn from_bytes_rejects_an_odd_round_block() {
    let bytes = vec![0u8; 14 * 32];
    assert!(matches!(
        R1CSProof::from_bytes(&bytes),
        Err(R1CSError::FormatError)
    ));
}

#[test]
fn from_bytes_accepts_the_smallest_shape() {
    let bytes = vec![0u8; 13 * 32];
    let p = R1CSProof::from_bytes(&bytes).unwrap();
    assert_eq!(p.ipp_proof.L.len(), 0);
    assert_eq!(p.to_bytes(), bytes);
}

#[test]
fn missing_assignment_propagates_through_arithmetic() {
    let v = Assignment::Value(Scalar::from(4u64));
    let m = Assignment::Missing;
    assert!(matches!(v.add(v), Assignment::Value(_)));
    assert!(matches!(v.sub(v), Assignment::Value(_)));
    assert!(matches!(v.mul(v), Assignment::Value(_)));
    assert!(matches!(v.add(m), Assignment::Missing));
    assert!(matches!(m.add(v), Assignment::Missing));
    assert!(matches!(m.mul(m), Assignment::Missing));
    assert!(matches!(v.mul(m), Assignment::Missing));
}

#[test]
fn linear_combination_building_keeps_order_and_wires() {
    let a = Variable {
        index: VariableIndex::Committed(0),
        assignment: Assignment::Missing,
    };
    let b = Variable {
        index: VariableIndex::MultiplierOutput(3),
        assignment: Assignment::Missing,
    };
    let lc = LinearCombination::zero()
        .with_term(&a, Scalar::from(2u64))
        .with_term(&b, Scalar::from(7u64));
    assert_eq!(lc.terms.len(), 2);
    assert_eq!(lc.terms[0].0, VariableIndex::Committed(0));
    assert_eq!(lc.terms[0].1, Scalar::from(2u64));
    assert_eq!(lc.terms[1].0, VariableIndex::MultiplierOutput(3));
    let scaled = lc.scaled(Scalar::from(3u64));
    assert_eq!(scaled.terms.len(), 2);
    assert_eq!(scaled.terms[0].0, VariableIndex::Committed(0));
    assert_eq!(scaled.terms[0].1, Scalar::from(6u64));
    let neg = scaled.negated();
    assert_eq!(neg.terms[1].1, -Scalar::from(21u64));
    let other = LinearCombination::from_variable(&a);
    let combined = neg.combine(other);
    assert_eq!(combined.terms.len(), 3);
    assert_eq!(combined.terms[2].0, VariableIndex::Committed(0));
    assert_eq!(combined.terms[2].1, Scalar::ONE);
}

#[test]
fn allocation_hands_out_sequential_gate_handles() {
    let pc_gens = PedersenGens::new();
    let mut transcript = Transcript::new(b"alloc test");
    let (mut cs, vars, commitments) = ProverCS::new(
        &pc_gens,
        &mut transcript,
        vec![Scalar::from(1u64)],
        vec![Scalar::from(2u64)],
    )
    .unwrap();
    assert_eq!(vars.len(), 1);
    assert_eq!(commitments.len(), 1);
    assert_eq!(vars[0].index, VariableIndex::Committed(0));
    let first = cs.allocate(Assignment::Value(Scalar::from(9u64)));
    assert_eq!(first.index, VariableIndex::MultiplierLeft(0));
    let (l, r, o) = cs.allocate_multiplier(
        Assignment::Value(Scalar::from(2u64)),
        Assignment::Value(Scalar::from(3u64)),
    );
    assert_eq!(l.index, VariableIndex::MultiplierLeft(1));
    assert_eq!(r.index, VariableIndex::MultiplierRight(1));
    assert_eq!(o.index, VariableIndex::MultiplierOutput(1));
    match o.assignment {
        Assignment::Value(s) => assert_eq!(s, Scalar::from(6u64)),
        Assignment::Missing => panic!("the output wire must hold the product"),
    }
}

#[test]
fn pedersen_commitment_is_binding_to_the_value() {
    let pc_gens = PedersenGens::new();
    let blind = Scalar::from(5u64);
    let c1 = pc_gens.commit(&Scalar::from(1u64), &blind);
    let c2 = pc_gens.commit(&Scalar::from(2u64), &blind);
    assert_ne!(c1.compress(), c2.compress());
}

#[test]
fn generator_sets_have_the_requested_size() {
    let bp = BulletproofGens::new(5);
    assert_eq!(bp.G.len(), 5);
    assert_eq!(bp.H.len(), 5);
    assert_ne!(bp.G[0].compress(), bp.H[0].compress());
    assert_ne!(bp.G[0].compress(), bp.G[1].compress());
}
