//! A minimal label-indexed, order-sensitive challenge derivation: the
//! Fiat-Shamir state is a single scalar; each step folds the label and the
//! absorbed value in with a fixed mixing constant and squares the result,
//! so the update is not affine in any absorbed value. Prover and verifier
//! derive equal challenges exactly when they make the same sequence of
//! calls with the same labels and values; the contracts pin every state
//! transition over the named field operations.
//!
//! This primitive is a stand-in, not a cryptographic hash: the original
//! derivation this interface describes is an external collaborator, and no
//! hash dependency is part of this crate.

use vstd::prelude::*;

use crate::curve::G1Affine;
use crate::curve::fr_from_g1;
use crate::curve::fr_of_point;
use crate::scalar::Scalar;
use crate::scalar::add_of;
use crate::scalar::fr_add;
use crate::scalar::fr_from_u64;
use crate::scalar::fr_mul;
use crate::scalar::fr_of;
use crate::scalar::fr_zero;
use crate::scalar::mul_of;

verus! {

/// The label of the multi-unity evaluation-point challenge.
pub const LABEL_ALPHA: u64 = 1;

/// The label of the multi-unity batching-point challenge.
pub const LABEL_BETA: u64 = 2;

/// The label of the fractional-decomposition challenge pair.
pub const LABEL_FRACTION_BETA: u64 = 3;

/// The label of the fractional-decomposition challenge pair.
pub const LABEL_FRACTION_DELTA: u64 = 4;

/// The label under which the prover's commitments are absorbed.
pub const LABEL_COMMITMENT: u64 = 5;

/// The mixing constant folded into the state at every step.
pub const MIX: u64 = 0x9e37_79b9_7f4a_7c15;

/// One mixing step: the folded input multiplied by the mixing constant
/// and squared.
pub open spec fn mix_of(folded: Scalar) -> Scalar {
    mul_of(mul_of(folded, fr_of(MIX)), mul_of(folded, fr_of(MIX)))
}

/// Append-only Fiat-Shamir state, scoped to one proving session.
pub struct Transcript {
    state: Scalar,
}

impl Transcript {
    /// The held state.
    pub closed spec fn state_spec(&self) -> Scalar {
        self.state
    }

    /// A fresh transcript.
    pub fn new() -> (r: Transcript)
        ensures
            r.state_spec() == fr_of(0),
    {
        Transcript { state: fr_zero() }
    }

    /// Absorbs a scalar into the state.
    pub fn append_scalar(&mut self, label: u64, value: &Scalar)
        ensures
            final(self).state_spec() == mix_of(
                add_of(add_of(old(self).state_spec(), fr_of(label)), *value),
            ),
    {
        let folded = fr_mul(
            fr_add(fr_add(self.state, fr_from_u64(label)), *value),
            fr_from_u64(MIX),
        );
        self.state = fr_mul(folded, folded);
    }

    /// Absorbs a commitment into the state, through the fixed
    /// point-to-scalar conversion.
    pub fn append_point(&mut self, label: u64, point: &G1Affine)
        ensures
            final(self).state_spec() == mix_of(
                add_of(add_of(old(self).state_spec(), fr_of(label)), fr_of_point(*point)),
            ),
    {
        let value = fr_from_g1(point);
        let folded = fr_mul(
            fr_add(fr_add(self.state, fr_from_u64(label)), value),
            fr_from_u64(MIX),
        );
        self.state = fr_mul(folded, folded);
    }

    /// Derives the next challenge from the state and the label, and
    /// absorbs it.
    pub fn get_and_append_challenge(&mut self, label: u64) -> (r: Scalar)
        ensures
            r == mix_of(add_of(old(self).state_spec(), fr_of(label))),
            final(self).state_spec() == r,
    {
        let folded = fr_mul(fr_add(self.state, fr_from_u64(label)), fr_from_u64(MIX));
        self.state = fr_mul(folded, folded);
        self.state
    }
}

} // verus!
