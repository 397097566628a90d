//! Error taxonomy of the engine.

use vstd::prelude::*;

verus! {

/// A recoverable error raised while advancing a verification.
#[derive(Clone, Copy, PartialEq, Eq, Structural, Debug)]
pub enum ComputationError {
    /// `advance` was called with a round index other than the state's
    /// current round, or after the computation finished.
    InvalidRound,
    /// The round program asked for more work after the verdict was reached.
    ComputationIsAlreadyFinished,
    /// The verdict was requested before the final round ran.
    ComputationIsNotYetFinished,
    /// The public-input count does not match the verification key.
    InvalidPublicInputs,
    /// A proof element's field encoding is not a canonical residue.
    InvalidProofData,
    /// The commitment queue holds no whole batch.
    InvalidQueueAccess,
    /// The warden network is already full.
    WardenRegistrationError,
    /// An inversion of the additive identity was requested.  This is
    /// cryptographically unreachable for well-formed proof data and is
    /// treated as a proof-invalid verdict by the state machine, never as a
    /// system fault.
    InverseOfZero,
}

/// The outcome of advancing one round.
#[derive(Clone, Copy, PartialEq, Eq, Structural, Debug)]
pub enum RoundResult {
    /// More rounds remain.
    Continue,
    /// All rounds ran; the verdict of the proof check.
    Done(bool),
    /// A sequencing error; the state was left unchanged.
    Error(ComputationError),
}

} // verus!
