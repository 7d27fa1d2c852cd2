use vstd::prelude::*;

verus! {

/// Why a claim attempt was turned down. Every error aborts the whole attempt.
#[derive(Clone, Copy, Debug, PartialEq, Eq, Structural)]
pub enum ClaimError {
    /// The participant's metric is below even the lowest published threshold.
    NotEligible,
    /// The reward for this participant and day has been paid out before.
    AlreadyClaimed,
    /// The reward pool could not cover the amount.
    InsufficientPoolBalance,
    /// The engine was driven into a step that a sound schedule and an orderly
    /// host never reach.
    InternalConsistencyError,
    /// The bonus credential could not be issued.
    BonusIssuanceFailure,
}

} // verus!
