//! Resumable verification of Groth16 pairing proofs over the BN254 curve.
//!
//! A full pairing check costs far more computation than a single invocation
//! of the host environment may spend.  This crate therefore splits the
//! Miller loop, the final exponentiation, the extension-field inversion and
//! the fixed-exponent exponentiation into many bounded rounds.  One round is
//! executed per invocation; all intermediate state lives in plain,
//! persistable data (`VerificationState`, `RAM`), never in a call stack.
//!
//! Field arithmetic itself is delegated to the `ark-bn254` / `ark-ff` /
//! `ark-ec` crates through a small set of trusted wrappers in [`field`].

pub mod accounts;
pub mod curve_steps;
pub mod errors;
pub mod exp;
pub mod fee;
pub mod fexp;
pub mod field;
pub mod inverse;
pub mod miller;
pub mod mul034;
pub mod network;
pub mod partition;
pub mod prepare;
pub mod ram;
pub mod schedule;
pub mod state;
pub mod tower;
pub mod verify;
pub mod vkey;
