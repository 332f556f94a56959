use vstd::prelude::*;

verus! {

/// Errors of the lookup protocol.
///
/// Configuration errors (`InvalidNumberOfSegments`, `InvalidSegmentSize`,
/// `InvalidNumberOfQueries`, `FailedToCreateEvaluationDomain`,
/// `SrsTooShort`) are reported before any cryptographic work begins.
/// The malformed-input error (`InvalidSegmentIndex`) is local to the
/// failing call. Algebraic-precondition errors (`FailedToInverseFieldElement`,
/// `FailedToDivideByVanishingPolynomial`, `RemainderAfterDivisionIsNonZero`)
/// abort proving rather than produce a proof that would fail verification.
#[derive(Debug, Clone, Copy, PartialEq, Eq, Structural)]
pub enum Error {
    /// The number of table segments is not a power of two (or is too small).
    InvalidNumberOfSegments(usize),
    /// The segment size is not a power of two.
    InvalidSegmentSize(usize),
    /// The number of witness segments does not match the parameters.
    InvalidNumberOfQueries(usize),
    /// A queried segment index lies outside the table.
    InvalidSegmentIndex(usize),
    /// An evaluation domain of the requested size cannot be built.
    FailedToCreateEvaluationDomain,
    /// The structured reference string has too few powers for a
    /// commitment.
    SrsTooShort,
    /// A field element had no multiplicative inverse.
    FailedToInverseFieldElement,
    /// A polynomial division by a vanishing polynomial was refused.
    FailedToDivideByVanishingPolynomial,
    /// A division that must be exact left a non-zero remainder.
    RemainderAfterDivisionIsNonZero,
}

} // verus!
