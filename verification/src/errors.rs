use vstd::prelude::*;

verus! {

/// The ways a proving or a verification run can fail.
///
/// Every failure is reported to the immediate caller; nothing is retried and
/// no partial proof or partial verdict is ever exposed.
#[derive(Clone, Copy, Debug, PartialEq, Eq, Structural)]
pub enum R1CSError {
    /// A wire was left without a concrete value on the proving side, so the
    /// witness vectors could not be assembled.
    MissingAssignment,
    /// The generator set supplied by the caller is too small for the number
    /// of multiplication gates the constraints allocate.
    InvalidGeneratorsLength,
    /// A structurally malformed input: a linear combination naming a wire
    /// that was never allocated, a proof whose byte encoding cannot be
    /// decoded, or a commitment list of the wrong shape.
    FormatError,
    /// A registered constraint does not hold of the concrete assignment.
    /// Raised by the prover before any proof is produced, so that a bug in a
    /// statement description never yields an invalid proof.
    ConstraintViolation,
    /// Every check ran, but an opening or inner-product check failed: the
    /// proof is invalid or was tampered with.
    VerificationError,
}

} // verus!
