use crate::accounts::{admission, ClaimDayRankReward, LedgerEntry, Progress};
use crate::error::ClaimError;
use crate::schedule::{lemma_resolved_tier, Schedule};
use vstd::prelude::*;

verus! {

/// What the host reports to the engine.
#[derive(Clone, Copy, Debug, PartialEq, Eq, Structural)]
pub enum ClaimEvent {
    /// The participant asks for the reward.
    Requested,
    /// The transfer that the engine asked for went through.
    TransferCompleted,
    /// The transfer that the engine asked for was refused.
    TransferFailed,
    /// The bonus that the engine asked for was minted.
    BonusIssued,
    /// The bonus that the engine asked for was not minted.
    BonusFailed,
}

/// What the engine asks of the host.
#[derive(Clone, Copy, Debug, PartialEq, Eq, Structural)]
pub enum ClaimAction {
    /// Move `amount` out of the reward pool into the participant's receiving
    /// account, then report how it went.
    Transfer { amount: u64 },
    /// Have the bonus credential minted to the participant, then report how it
    /// went.
    MintBonus,
    /// The claim is complete: keep every effect of the attempt, together with
    /// the ledger entry, which now says that the reward was claimed.
    Commit { tier: usize, amount: u64 },
    /// The claim failed: undo every effect of the attempt.
    Abort(ClaimError),
}

/// One step of the engine: the ledger entry and the progress after it, and
/// what the host is asked to do next.
pub struct Step {
    pub entry: LedgerEntry,
    pub progress: Progress,
    pub action: ClaimAction,
}

/// The attempt is over without a reward: the entry stays as it was.
pub open spec fn aborted(entry: LedgerEntry, error: ClaimError) -> Step {
    Step { entry, progress: Progress::Idle, action: ClaimAction::Abort(error) }
}

/// The attempt is over with a reward: the entry is marked as claimed.
pub open spec fn committed(entry: LedgerEntry, tier: usize, amount: u64) -> Step {
    Step {
        entry: LedgerEntry { claimed: true, ..entry },
        progress: Progress::Idle,
        action: ClaimAction::Commit { tier, amount },
    }
}

/// The engine's transition: what it does on `event` when the attempt stands at
/// `progress`.
///
/// A request is validated and resolved to a tier before anything is
/// asked of the host. After the transfer, the top tier alone goes on to the
/// bonus, and only where the caller supplied the issuer's handles
/// (`bonus_ready`). A refusal by the host, and an event that the engine was
/// not waiting for, end the attempt.
pub open spec fn step(
    entry: LedgerEntry,
    schedule: Schedule,
    bonus_ready: bool,
    progress: Progress,
    event: ClaimEvent,
) -> Step {
    match (progress, event) {
        (Progress::Idle, ClaimEvent::Requested) => match admission(entry, schedule) {
            Err(e) => aborted(entry, e),
            Ok(_) => match schedule.resolution(entry.metric) {
                Err(e) => aborted(entry, e),
                Ok(award) => Step {
                    entry,
                    progress: Progress::Disbursing { tier: award.index, amount: award.amount },
                    action: ClaimAction::Transfer { amount: award.amount },
                },
            },
        },
        (Progress::Disbursing { tier, amount }, ClaimEvent::TransferCompleted) => {
            if tier != 0 {
                committed(entry, tier, amount)
            } else if bonus_ready {
                Step { entry, progress: Progress::Issuing { amount }, action: ClaimAction::MintBonus }
            } else {
                aborted(entry, ClaimError::BonusIssuanceFailure)
            }
        },
        (Progress::Disbursing { .. }, ClaimEvent::TransferFailed) => aborted(
            entry,
            ClaimError::InsufficientPoolBalance,
        ),
        (Progress::Issuing { amount }, ClaimEvent::BonusIssued) => committed(entry, 0, amount),
        (Progress::Issuing { .. }, ClaimEvent::BonusFailed) => aborted(
            entry,
            ClaimError::BonusIssuanceFailure,
        ),
        _ => aborted(entry, ClaimError::InternalConsistencyError),
    }
}

/// A metric that passes validation reaches the lowest threshold, so it
/// resolves to a tier.
pub proof fn lemma_admitted_resolves(entry: LedgerEntry, schedule: Schedule)
    requires
        schedule.wf(),
        admission(entry, schedule) is Ok,
    ensures
        schedule.resolution(entry.metric) is Ok,
{
    let last: int = schedule.tiers@.len() - 1;
    assert(entry.metric >= schedule.tiers@[last]);
    lemma_resolved_tier(schedule.tiers@, entry.metric);
}

/// Takes the claim one step further: decides on `event` what the host is to do
/// next, and keeps the claim's progress and ledger entry up to date. Nothing
/// else of the claim changes.
///
/// The host starts an attempt with `Requested`, performs each `Transfer` and
/// `MintBonus` that comes back and reports how it went, and stops at `Commit`
/// or `Abort`.
pub fn handler<A>(accts: &mut ClaimDayRankReward<A>, event: ClaimEvent) -> (action: ClaimAction)
    requires
        old(accts).schedule.wf(),
    ensures
        ({
            let s = step(
                old(accts).entry,
                old(accts).schedule,
                old(accts).bonus is Some,
                old(accts).progress,
                event,
            );
            &&& action == s.action
            &&& *final(accts) == (ClaimDayRankReward {
                entry: s.entry,
                progress: s.progress,
                ..*old(accts)
            })
        }),
{
    let (progress, action) = match (accts.progress, event) {
        (Progress::Idle, ClaimEvent::Requested) => match accts.validate() {
            Err(e) => (Progress::Idle, ClaimAction::Abort(e)),
            Ok(_) => match accts.schedule.resolve_tier(accts.entry.metric) {
                Err(e) => (Progress::Idle, ClaimAction::Abort(e)),
                Ok(award) => (
                    Progress::Disbursing { tier: award.index, amount: award.amount },
                    ClaimAction::Transfer { amount: award.amount },
                ),
            },
        },
        (Progress::Disbursing { tier, amount }, ClaimEvent::TransferCompleted) => {
            if tier != 0 {
                accts.entry.claimed = true;
                (Progress::Idle, ClaimAction::Commit { tier, amount })
            } else if accts.bonus.is_some() {
                (Progress::Issuing { amount }, ClaimAction::MintBonus)
            } else {
                (Progress::Idle, ClaimAction::Abort(ClaimError::BonusIssuanceFailure))
            }
        },
        (Progress::Disbursing { .. }, ClaimEvent::TransferFailed) => (
            Progress::Idle,
            ClaimAction::Abort(ClaimError::InsufficientPoolBalance),
        ),
        (Progress::Issuing { amount }, ClaimEvent::BonusIssued) => {
            accts.entry.claimed = true;
            (Progress::Idle, ClaimAction::Commit { tier: 0, amount })
        },
        (Progress::Issuing { .. }, ClaimEvent::BonusFailed) => (
            Progress::Idle,
            ClaimAction::Abort(ClaimError::BonusIssuanceFailure),
        ),
        _ => (Progress::Idle, ClaimAction::Abort(ClaimError::InternalConsistencyError)),
    };
    accts.progress = progress;
    action
}

} // verus!
