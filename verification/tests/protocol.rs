use curve25519_dalek::scalar::Scalar;
use merlin::Transcript;
use r1cs_zkp::cs::{Assignment, ConstraintSystem, Variable};
use r1cs_zkp::errors::R1CSError;
use r1cs_zkp::generators::{BulletproofGens, PedersenGens};
use r1cs_zkp::linear_combination::LinearCombination;
use r1cs_zkp::prover::ProverCS;
use r1cs_zkp::r1cs_proof::R1CSProof;
use r1cs_zkp::verifier_cs::VerifierCS;

/// One multiplication gate enforcing `a * b = c` for a public constant
/// `c`, with the committed inputs `a` and `b` tied to the multiplier wires.
/// Written once, generically, and run on both sides.
fn mul_gadget<CS: ConstraintSystem>(
    mut cs: CS,
    vars: Vec<Variable>,
    c: u64,
) -> Result<CS, R1CSError> {
    let one = Scalar::ONE;
    let (l, r, o) = cs.allocate_multiplier(vars[0].assignment, vars[1].assignment);
    cs.constrain(
        LinearCombination::zero()
            .with_term(&vars[0], one)
            .with_term(&l, -one),
    );
    cs.constrain(
        LinearCombination::zero()
            .with_term(&vars[1], one)
            .with_term(&r, -one),
    );
    cs.constrain(
        LinearCombination::zero()
            .with_term(&o, one)
            .with_added_constant(-Scalar::from(c)),
    );
    Ok(cs)
}

/// `(a + b) * (a - b) = c` for a public constant `c`: exercises the
/// assignment arithmetic on both gate inputs.
fn diff_of_squares_gadget<CS: ConstraintSystem>(
    mut cs: CS,
    vars: Vec<Variable>,
    c: u64,
) -> Result<CS, R1CSError> {
    let one = Scalar::ONE;
    let sum = vars[0].assignment.add(vars[1].assignment);
    let diff = vars[0].assignment.sub(vars[1].assignment);
    let (l, r, o) = cs.allocate_multiplier(sum, diff);
    cs.constrain(
        LinearCombination::zero()
            .with_term(&l, one)
            .with_term(&vars[0], -one)
            .with_term(&vars[1], -one),
    );
    cs.constrain(
        LinearCombination::zero()
            .with_term(&r, one)
            .with_term(&vars[0], -one)
            .with_term(&vars[1], one),
    );
    cs.constrain(
        LinearCombination::zero()
            .with_term(&o, one)
            .with_added_constant(-Scalar::from(c)),
    );
    Ok(cs)
}

fn prove_mul(
    a: u64,
    b: u64,
    c: u64,
    label: &'static [u8],
) -> Result<(R1CSProof, Vec<[u8; 32]>), R1CSError> {
    let bp_gens = BulletproofGens::new(8);
    let pc_gens = PedersenGens::new();
    let mut transcript = Transcript::new(label);
    R1CSProof::prove(
        &bp_gens,
        &pc_gens,
        &mut transcript,
        vec![Scalar::from(a), Scalar::from(b)],
        vec![Scalar::from(901u64), Scalar::from(902u64)],
        |cs: ProverCS, vars: Vec<Variable>| mul_gadget(cs, vars, c),
    )
}

fn verify_mul(
    proof: &R1CSProof,
    commitments: Vec<[u8; 32]>,
    c: u64,
    label: &'static [u8],
) -> Result<(), R1CSError> {
    let bp_gens = BulletproofGens::new(8);
    let pc_gens = PedersenGens::new();
    let mut transcript = Transcript::new(label);
    proof.verify(
        &bp_gens,
        &pc_gens,
        &mut transcript,
        commitments,
        |cs: VerifierCS, vars: Vec<Variable>| mul_gadget(cs, vars, c),
    )
}

#[test]
fn mul_gate_roundtrip_succeeds() {
    let (proof, commitments) = prove_mul(3, 5, 15, b"mul test").unwrap();
    assert_eq!(commitments.len(), 2);
    assert!(verify_mul(&proof, commitments, 15, b"mul test").is_ok());
}

#[test]
fn prove_rejects_unsatisfied_constraint() {
    // a * b = 16 does not hold of a = 3, b = 5: the prover's own check
    // must fail before any proof is produced.
    match prove_mul(3, 5, 16, b"mul test") {
        Err(R1CSError::ConstraintViolation) => {}
        other => panic!("expected a constraint violation, got {:?}", other.map(|_| ())),
    }
}

#[test]
fn verify_rejects_wrong_public_constant() {
    let (proof, commitments) = prove_mul(3, 5, 15, b"mul test").unwrap();
    assert!(verify_mul(&proof, commitments, 16, b"mul test").is_err());
}

#[test]
fn diff_of_squares_roundtrip_succeeds() {
    let bp_gens = BulletproofGens::new(8);
    let pc_gens = PedersenGens::new();
    let mut transcript = Transcript::new(b"dos test");
    let (proof, commitments) = R1CSProof::prove(
        &bp_gens,
        &pc_gens,
        &mut transcript,
        vec![Scalar::from(6u64), Scalar::from(4u64)],
        vec![Scalar::from(11u64), Scalar::from(12u64)],
        |cs: ProverCS, vars: Vec<Variable>| diff_of_squares_gadget(cs, vars, 20),
    )
    .unwrap();
    let mut transcript = Transcript::new(b"dos test");
    assert!(proof
        .verify(
            &bp_gens,
            &pc_gens,
            &mut transcript,
            commitments,
            |cs: VerifierCS, vars: Vec<Variable>| diff_of_squares_gadget(cs, vars, 20),
        )
        .is_ok());
}

#[test]
fn tampered_t_x_fails_verification() {
    let (proof, commitments) = prove_mul(3, 5, 15, b"mul test").unwrap();
    let mut tampered = proof.clone();
    tampered.t_x[0] ^= 1;
    match verify_mul(&tampered, commitments, 15, b"mul test") {
        Err(R1CSError::VerificationError) => {}
        other => panic!("expected a verification failure, got {:?}", other),
    }
}

#[test]
fn tampering_any_field_fails_verification() {
    let (proof, commitments) = prove_mul(3, 5, 15, b"mul test").unwrap();
    let mut mutants: Vec<R1CSProof> = Vec::new();
    for field in 0..13 {
        let mut p = proof.clone();
        match field {
            0 => p.A_I[0] ^= 1,
            1 => p.A_O[0] ^= 1,
            2 => p.S[0] ^= 1,
            3 => p.T_1[0] ^= 1,
            4 => p.T_3[0] ^= 1,
            5 => p.T_4[0] ^= 1,
            6 => p.T_5[0] ^= 1,
            7 => p.T_6[0] ^= 1,
            8 => p.t_x[0] ^= 1,
            9 => p.t_x_blinding[0] ^= 1,
            10 => p.e_blinding[0] ^= 1,
            11 => p.ipp_proof.a[0] ^= 1,
            _ => p.ipp_proof.b[0] ^= 1,
        }
        mutants.push(p);
    }
    for p in mutants {
        assert!(verify_mul(&p, commitments.clone(), 15, b"mul test").is_err());
    }
}

/// Two multiplication gates: `a * b = c` and `a * a = d`, so that the
/// inner-product argument has a folding round to tamper with.
fn two_gate_gadget<CS: ConstraintSystem>(
    mut cs: CS,
    vars: Vec<Variable>,
    c: u64,
    d: u64,
) -> Result<CS, R1CSError> {
    let one = Scalar::ONE;
    let (l1, r1, o1) = cs.allocate_multiplier(vars[0].assignment, vars[1].assignment);
    let (l2, r2, o2) = cs.allocate_multiplier(vars[0].assignment, vars[0].assignment);
    for (wire, var) in [(&l1, &vars[0]), (&r1, &vars[1]), (&l2, &vars[0]), (&r2, &vars[0])] {
        cs.constrain(
            LinearCombination::zero()
                .with_term(var, one)
                .with_term(wire, -one),
        );
    }
    cs.constrain(
        LinearCombination::zero()
            .with_term(&o1, one)
            .with_added_constant(-Scalar::from(c)),
    );
    cs.constrain(
        LinearCombination::zero()
            .with_term(&o2, one)
            .with_added_constant(-Scalar::from(d)),
    );
    Ok(cs)
}

#[test]
fn tampering_ipp_rounds_fails_verification() {
    let bp_gens = BulletproofGens::new(8);
    let pc_gens = PedersenGens::new();
    let mut transcript = Transcript::new(b"two gates");
    let (proof, commitments) = R1CSProof::prove(
        &bp_gens,
        &pc_gens,
        &mut transcript,
        vec![Scalar::from(3u64), Scalar::from(5u64)],
        vec![Scalar::from(41u64), Scalar::from(42u64)],
        |cs: ProverCS, vars: Vec<Variable>| two_gate_gadget(cs, vars, 15, 9),
    )
    .unwrap();
    assert_eq!(proof.ipp_proof.L.len(), 1);
    let mut ok_transcript = Transcript::new(b"two gates");
    assert!(proof
        .verify(
            &bp_gens,
            &pc_gens,
            &mut ok_transcript,
            commitments.clone(),
            |cs: VerifierCS, vars: Vec<Variable>| two_gate_gadget(cs, vars, 15, 9),
        )
        .is_ok());
    for which in 0..2 {
        let mut p = proof.clone();
        if which == 0 {
            p.ipp_proof.L[0][0] ^= 1;
        } else {
            p.ipp_proof.R[0][0] ^= 1;
        }
        let mut transcript = Transcript::new(b"two gates");
        assert!(p
            .verify(
                &bp_gens,
                &pc_gens,
                &mut transcript,
                commitments.clone(),
                |cs: VerifierCS, vars: Vec<Variable>| two_gate_gadget(cs, vars, 15, 9),
            )
            .is_err());
    }
}

#[test]
fn non_canonical_scalar_is_a_format_error() {
    // An all-ones block is above the group order, so it is no canonical
    // scalar encoding: a structural error, not a mere failed check.
    let (proof, commitments) = prove_mul(3, 5, 15, b"mul test").unwrap();
    let mut p = proof.clone();
    p.t_x = [0xff; 32];
    match verify_mul(&p, commitments, 15, b"mul test") {
        Err(R1CSError::FormatError) => {}
        other => panic!("expected a format error, got {:?}", other),
    }
}

#[test]
fn tampered_commitment_fails_verification() {
    let (proof, commitments) = prove_mul(3, 5, 15, b"mul test").unwrap();
    let mut bad = commitments.clone();
    bad[0][0] ^= 1;
    assert!(verify_mul(&proof, bad, 15, b"mul test").is_err());
}

#[test]
fn different_domain_label_fails_verification() {
    let (proof, commitments) = prove_mul(3, 5, 15, b"mul test").unwrap();
    assert!(verify_mul(&proof, commitments, 15, b"another domain").is_err());
}

#[test]
fn reordered_commitments_fail_verification() {
    let (proof, commitments) = prove_mul(3, 5, 15, b"mul test").unwrap();
    let swapped = vec![commitments[1], commitments[0]];
    assert!(verify_mul(&proof, swapped, 15, b"mul test").is_err());
}

#[test]
fn independent_blinding_changes_every_secret_field() {
    // Two proofs of the same statement over the same commitments: the
    // freshly sampled protocol blinding must make every serialized field
    // differ, while the public input commitments stay the same.
    let (p1, c1) = prove_mul(3, 5, 15, b"mul test").unwrap();
    let (p2, c2) = prove_mul(3, 5, 15, b"mul test").unwrap();
    assert_eq!(c1, c2);
    assert_ne!(p1.A_I, p2.A_I);
    assert_ne!(p1.A_O, p2.A_O);
    assert_ne!(p1.S, p2.S);
    assert_ne!(p1.T_1, p2.T_1);
    assert_ne!(p1.T_3, p2.T_3);
    assert_ne!(p1.T_4, p2.T_4);
    assert_ne!(p1.T_5, p2.T_5);
    assert_ne!(p1.T_6, p2.T_6);
    assert_ne!(p1.t_x, p2.t_x);
    assert_ne!(p1.t_x_blinding, p2.t_x_blinding);
    assert_ne!(p1.e_blinding, p2.e_blinding);
    assert_ne!(p1.ipp_proof.a, p2.ipp_proof.a);
    assert_ne!(p1.ipp_proof.b, p2.ipp_proof.b);
}

#[test]
fn undersized_generators_are_rejected() {
    let bp_gens = BulletproofGens::new(0);
    let pc_gens = PedersenGens::new();
    let mut transcript = Transcript::new(b"gens test");
    let r = R1CSProof::prove(
        &bp_gens,
        &pc_gens,
        &mut transcript,
        vec![Scalar::from(3u64), Scalar::from(5u64)],
        vec![Scalar::from(901u64), Scalar::from(902u64)],
        |cs: ProverCS, vars: Vec<Variable>| mul_gadget(cs, vars, 15),
    );
    match r {
        Err(R1CSError::InvalidGeneratorsLength) => {}
        other => panic!("expected a generators error, got {:?}", other.map(|_| ())),
    }
}

#[test]
fn missing_assignment_is_reported() {
    let bp_gens = BulletproofGens::new(8);
    let pc_gens = PedersenGens::new();
    let mut transcript = Transcript::new(b"missing test");
    let r = R1CSProof::prove(
        &bp_gens,
        &pc_gens,
        &mut transcript,
        vec![Scalar::from(3u64)],
        vec![Scalar::from(901u64)],
        |mut cs: ProverCS, _vars: Vec<Variable>| {
            cs.allocate(Assignment::Missing);
            Ok(cs)
        },
    );
    match r {
        Err(R1CSError::MissingAssignment) => {}
        other => panic!("expected a missing assignment, got {:?}", other.map(|_| ())),
    }
}

#[test]
fn builder_error_is_propagated_verbatim() {
    let bp_gens = BulletproofGens::new(8);
    let pc_gens = PedersenGens::new();
    let mut transcript = Transcript::new(b"builder test");
    let r = R1CSProof::prove(
        &bp_gens,
        &pc_gens,
        &mut transcript,
        vec![Scalar::from(3u64)],
        vec![Scalar::from(901u64)],
        |_cs: ProverCS, _vars: Vec<Variable>| Err(R1CSError::FormatError),
    );
    match r {
        Err(R1CSError::FormatError) => {}
        other => panic!("expected the builder's error, got {:?}", other.map(|_| ())),
    }
}

#[test]
fn mismatched_blinding_list_is_rejected() {
    let bp_gens = BulletproofGens::new(8);
    let pc_gens = PedersenGens::new();
    let mut transcript = Transcript::new(b"blinding test");
    let r = R1CSProof::prove(
        &bp_gens,
        &pc_gens,
        &mut transcript,
        vec![Scalar::from(3u64), Scalar::from(5u64)],
        vec![Scalar::from(901u64)],
        |cs: ProverCS, vars: Vec<Variable>| mul_gadget(cs, vars, 15),
    );
    match r {
        Err(R1CSError::FormatError) => {}
        other => panic!("expected a format error, got {:?}", other.map(|_| ())),
    }
}
