//! Attestation hashing, age-threshold predicate evaluation and journal
//! commitment for zero-knowledge age proofs over signed typed-data records.
//!
//! A signer authorises an attestation record that carries a birth date.
//! The library proves nothing by itself: it holds the rules that a proving
//! engine executes and that a host drives, so that a verifier who never
//! sees the birth date learns that the signer attested a person of at
//! least a public age.
//!
//! The parts, leaves first:
//!
//! - [`keccak`], [`abi`], [`word`]: hashing and the 32-byte words of the
//!   encoding;
//! - [`typed_data`]: the canonical digest builder;
//! - [`input`], [`parse`], [`assembler`]: the input record and the witness
//!   assembler;
//! - [`signature`], [`birth_date`], [`calendar`], [`evaluator`]: the
//!   predicate evaluator;
//! - [`witness`], [`journal`]: the two records that cross the boundary of
//!   the isolated environment, and their bytes;
//! - [`orchestrator`], [`program_id`]: the decisions of the host around
//!   the proving engine;
//! - [`laws`]: what holds of the whole;
//! - [`errors`]: the error kinds.

pub mod abi;
pub mod assembler;
pub mod birth_date;
pub mod calendar;
pub mod errors;
pub mod evaluator;
pub mod input;
pub mod journal;
pub mod keccak;
pub mod laws;
pub mod orchestrator;
pub mod parse;
pub mod program_id;
pub mod signature;
pub mod typed_data;
pub mod witness;
pub mod word;
