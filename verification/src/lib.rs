//! A lookup argument for fixed-size segments over the BN254 pairing curve:
//! a succinct, non-interactive proof that a secret witness of `k` segments
//! is a sub-multiset of a public table of `n` segments, without revealing
//! which segments were chosen.
//!
//! The core is [`public_parameters::PublicParameters::setup`] (the one-shot
//! structured reference string and precomputed commitment tables),
//! [`prover::prove`] (the proof bundle), [`verification::verify`] (the
//! batched pairing checks of every quotient relation), and the multi-unity
//! sub-argument in [`multi_unity`], which shows in one fixed-size proof
//! that the compressed index polynomial encodes segment-aligned table
//! positions.
//! All curve and polynomial arithmetic is `ark_bn254` / `ark_ec` /
//! `ark_ff` / `ark_poly`'s, behind the trusted wrappers of [`scalar`],
//! [`curve`], [`domain`] and [`poly`].

pub mod curve;
pub mod domain;
pub mod error;
pub mod kzg;
pub mod math;
pub mod multi_unity;
pub mod poly;
pub mod prover;
pub mod public_parameters;
pub mod scalar;
pub mod table;
pub mod transcript;
pub mod verification;
pub mod witness;
