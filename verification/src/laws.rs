use crate::accounts::{admission, LedgerEntry, Progress};
use crate::claim::{lemma_admitted_resolves, step, ClaimAction, ClaimEvent, Step};
use crate::error::ClaimError;
use crate::schedule::{lemma_resolved_tier, resolved_tier, Schedule, TierAward};
use vstd::prelude::*;

verus! {

/// What one attempt leaves behind once the host has committed it or rolled it
/// back.
pub struct Outcome {
    /// The award, or why there is none.
    pub result: Result<TierAward, ClaimError>,
    /// The ledger entry after the attempt.
    pub entry: LedgerEntry,
    /// By how much the pool's balance went down and the receiving account's
    /// balance went up.
    pub paid: nat,
    /// Whether a bonus credential was minted.
    pub bonus_minted: bool,
}

/// The event by which the host reports on a transfer.
pub open spec fn transfer_reply(ok: bool) -> ClaimEvent {
    if ok {
        ClaimEvent::TransferCompleted
    } else {
        ClaimEvent::TransferFailed
    }
}

/// The event by which the host reports on a mint.
pub open spec fn issuer_reply(ok: bool) -> ClaimEvent {
    if ok {
        ClaimEvent::BonusIssued
    } else {
        ClaimEvent::BonusFailed
    }
}

/// The host's part in an attempt that ended with `last`: what was moved and
/// minted on the way stays where the engine commits, and is undone where it
/// aborts.
pub open spec fn settled(last: Step, moved: nat, minted: bool) -> Outcome {
    match last.action {
        ClaimAction::Commit { tier, amount } => Outcome {
            result: Ok(TierAward { index: tier, amount }),
            entry: last.entry,
            paid: moved,
            bonus_minted: minted,
        },
        ClaimAction::Abort(e) => Outcome {
            result: Err(e),
            entry: last.entry,
            paid: 0,
            bonus_minted: false,
        },
        _ => Outcome {
            result: Err(ClaimError::InternalConsistencyError),
            entry: last.entry,
            paid: 0,
            bonus_minted: false,
        },
    }
}

/// One whole attempt on `entry`, from the request to the commit or abort, with
/// a host whose transfer goes through or not (`transfer_ok`) and whose issuer
/// delivers or not (`issuer_ok`). The host performs what the engine asks for,
/// in the order in which it asks, and reports back.
pub open spec fn attempt(
    entry: LedgerEntry,
    schedule: Schedule,
    bonus_ready: bool,
    transfer_ok: bool,
    issuer_ok: bool,
) -> Outcome {
    let s1 = step(entry, schedule, bonus_ready, Progress::Idle, ClaimEvent::Requested);
    match s1.action {
        ClaimAction::Transfer { amount } => {
            let s2 = step(s1.entry, schedule, bonus_ready, s1.progress, transfer_reply(transfer_ok));
            let moved: nat = if transfer_ok {
                amount as nat
            } else {
                0
            };
            match s2.action {
                ClaimAction::MintBonus => {
                    let s3 = step(
                        s2.entry,
                        schedule,
                        bonus_ready,
                        s2.progress,
                        issuer_reply(issuer_ok),
                    );
                    settled(s3, moved, issuer_ok)
                },
                _ => settled(s2, moved, false),
            }
        },
        _ => settled(s1, 0, false),
    }
}

/// The host lets a claim of `metric` through: the transfer goes through and,
/// where the metric resolves to the top tier, the issuer's handles are there
/// and the issuer delivers.
pub open spec fn host_allows(
    schedule: Schedule,
    metric: u64,
    bonus_ready: bool,
    transfer_ok: bool,
    issuer_ok: bool,
) -> bool {
    &&& transfer_ok
    &&& resolved_tier(schedule.tiers@, metric) == Some(0int) ==> bonus_ready && issuer_ok
}

/// What an attempt comes to, said directly: validation decides first, then the
/// transfer, then, for the top tier alone, the bonus.
pub open spec fn claim_result(
    entry: LedgerEntry,
    schedule: Schedule,
    bonus_ready: bool,
    transfer_ok: bool,
    issuer_ok: bool,
) -> Result<TierAward, ClaimError> {
    if entry.metric < schedule.lowest_threshold() {
        Err(ClaimError::NotEligible)
    } else if entry.claimed {
        Err(ClaimError::AlreadyClaimed)
    } else if !transfer_ok {
        Err(ClaimError::InsufficientPoolBalance)
    } else if resolved_tier(schedule.tiers@, entry.metric) == Some(0int) && !(bonus_ready
        && issuer_ok) {
        Err(ClaimError::BonusIssuanceFailure)
    } else {
        schedule.resolution(entry.metric)
    }
}

/// Every attempt comes to what `claim_result` says, and an attempt on a sound
/// schedule never ends in an inconsistency. A successful attempt marks the
/// entry as claimed and pays the resolved tier's amount, no more and no less;
/// a failed one leaves nothing behind.
pub proof fn law_attempt_is_all_or_nothing(
    entry: LedgerEntry,
    schedule: Schedule,
    bonus_ready: bool,
    transfer_ok: bool,
    issuer_ok: bool,
)
    requires
        schedule.wf(),
    ensures
        ({
            let o = attempt(entry, schedule, bonus_ready, transfer_ok, issuer_ok);
            &&& o.result == claim_result(entry, schedule, bonus_ready, transfer_ok, issuer_ok)
            &&& o.result != Err::<TierAward, ClaimError>(ClaimError::InternalConsistencyError)
            &&& o.result is Ok <==> admission(entry, schedule) is Ok && host_allows(
                schedule,
                entry.metric,
                bonus_ready,
                transfer_ok,
                issuer_ok,
            )
            &&& o.result is Err ==> o.entry == entry && o.paid == 0 && !o.bonus_minted
            &&& o.result matches Ok(award) ==> {
                &&& o.entry == LedgerEntry { claimed: true, ..entry }
                &&& resolved_tier(schedule.tiers@, entry.metric) == Some(award.index as int)
                &&& award.amount == schedule.reward_per_tier@[award.index as int]
                &&& o.paid == award.amount
            }
        }),
{
    lemma_resolved_tier(schedule.tiers@, entry.metric);
    if admission(entry, schedule) is Ok {
        lemma_admitted_resolves(entry, schedule);
    }
}

/// Rejection is idempotent: an entry that is marked as claimed is turned down
/// with `AlreadyClaimed` by validation, before anything is asked of the host, so
/// neither balance moves and the entry stays as it is, however often this is
/// tried. (An entry whose metric is below the lowest threshold is turned down
/// as not eligible, claimed or not.)
pub proof fn law_claimed_entry_is_rejected(
    entry: LedgerEntry,
    schedule: Schedule,
    bonus_ready: bool,
    transfer_ok: bool,
    issuer_ok: bool,
)
    requires
        schedule.wf(),
        entry.claimed,
        entry.metric >= schedule.lowest_threshold(),
    ensures
        step(entry, schedule, bonus_ready, Progress::Idle, ClaimEvent::Requested).action
            == ClaimAction::Abort(ClaimError::AlreadyClaimed),
        ({
            let o = attempt(entry, schedule, bonus_ready, transfer_ok, issuer_ok);
            &&& o.result == Err::<TierAward, ClaimError>(ClaimError::AlreadyClaimed)
            &&& o.entry == entry
            &&& o.paid == 0
            &&& !o.bonus_minted
        }),
{
}

/// At-most-once disbursement: of two attempts on the same entry, one after the
/// other, never both succeed, whatever the host replies. Where either
/// succeeds, the other is turned down or fails, and the pool has paid the
/// resolved tier's amount exactly once; where neither does, it has paid
/// nothing. Exactly one succeeds where the entry is eligible and unclaimed and
/// the host lets at least one of the two through.
pub proof fn law_at_most_once(
    entry: LedgerEntry,
    schedule: Schedule,
    bonus_ready: bool,
    first_transfer_ok: bool,
    first_issuer_ok: bool,
    second_transfer_ok: bool,
    second_issuer_ok: bool,
)
    requires
        schedule.wf(),
    ensures
        ({
            let first = attempt(entry, schedule, bonus_ready, first_transfer_ok, first_issuer_ok);
            let second = attempt(
                first.entry,
                schedule,
                bonus_ready,
                second_transfer_ok,
                second_issuer_ok,
            );
            &&& !(first.result is Ok && second.result is Ok)
            &&& first.result is Ok ==> second.result == Err::<TierAward, ClaimError>(
                ClaimError::AlreadyClaimed,
            )
            &&& (first.result is Ok || second.result is Ok) ==> (resolved_tier(
                schedule.tiers@,
                entry.metric,
            ) matches Some(i) && first.paid + second.paid == schedule.reward_per_tier@[i])
            &&& !(first.result is Ok || second.result is Ok) ==> first.paid + second.paid == 0
            &&& (first.result is Ok) != (second.result is Ok) <==> admission(entry, schedule) is Ok
                && (host_allows(
                schedule,
                entry.metric,
                bonus_ready,
                first_transfer_ok,
                first_issuer_ok,
            ) || host_allows(
                schedule,
                entry.metric,
                bonus_ready,
                second_transfer_ok,
                second_issuer_ok,
            ))
        }),
{
    let first = attempt(entry, schedule, bonus_ready, first_transfer_ok, first_issuer_ok);
    law_attempt_is_all_or_nothing(entry, schedule, bonus_ready, first_transfer_ok, first_issuer_ok);
    law_attempt_is_all_or_nothing(
        first.entry,
        schedule,
        bonus_ready,
        second_transfer_ok,
        second_issuer_ok,
    );
}

/// Bonus gating: a bonus credential is minted in a successful claim of the top
/// tier, and in no other attempt.
pub proof fn law_bonus_gating(
    entry: LedgerEntry,
    schedule: Schedule,
    bonus_ready: bool,
    transfer_ok: bool,
    issuer_ok: bool,
)
    requires
        schedule.wf(),
    ensures
        ({
            let o = attempt(entry, schedule, bonus_ready, transfer_ok, issuer_ok);
            o.bonus_minted <==> o.result is Ok && resolved_tier(schedule.tiers@, entry.metric)
                == Some(0int)
        }),
{
    law_attempt_is_all_or_nothing(entry, schedule, bonus_ready, transfer_ok, issuer_ok);
}

/// The engine asks for a mint in one situation only: the transfer for the top
/// tier has gone through and the issuer's handles are there.
pub proof fn law_mint_is_asked_for_top_tier_only(
    entry: LedgerEntry,
    schedule: Schedule,
    bonus_ready: bool,
    progress: Progress,
    event: ClaimEvent,
)
    ensures
        step(entry, schedule, bonus_ready, progress, event).action == ClaimAction::MintBonus <==> {
            &&& progress matches Progress::Disbursing { tier, .. }
            &&& tier == 0
            &&& event == ClaimEvent::TransferCompleted
            &&& bonus_ready
        },
{
}

/// Atomicity: where the transfer fails, the attempt fails, the entry's
/// `claimed` stays as it was, no bonus is asked for or minted, and neither
/// balance has moved, although the tier had been resolved.
pub proof fn law_failed_transfer_leaves_no_trace(
    entry: LedgerEntry,
    schedule: Schedule,
    bonus_ready: bool,
    issuer_ok: bool,
    tier: usize,
    amount: u64,
)
    requires
        schedule.wf(),
    ensures
        step(
            entry,
            schedule,
            bonus_ready,
            Progress::Disbursing { tier, amount },
            ClaimEvent::TransferFailed,
        ) == (Step {
            entry,
            progress: Progress::Idle,
            action: ClaimAction::Abort(ClaimError::InsufficientPoolBalance),
        }),
        ({
            let o = attempt(entry, schedule, bonus_ready, false, issuer_ok);
            &&& o.result is Err
            &&& admission(entry, schedule) is Ok ==> o.result == Err::<TierAward, ClaimError>(
                ClaimError::InsufficientPoolBalance,
            )
            &&& o.entry == entry
            &&& o.paid == 0
            &&& !o.bonus_minted
        }),
{
    law_attempt_is_all_or_nothing(entry, schedule, bonus_ready, false, issuer_ok);
}

/// A claimed entry stays claimed: no step of the engine, on any event and at
/// any point of an attempt, takes the mark away or touches the metric.
pub proof fn law_claimed_is_permanent(
    entry: LedgerEntry,
    schedule: Schedule,
    bonus_ready: bool,
    progress: Progress,
    event: ClaimEvent,
)
    ensures
        step(entry, schedule, bonus_ready, progress, event).entry.metric == entry.metric,
        entry.claimed ==> step(entry, schedule, bonus_ready, progress, event).entry == entry,
{
}

} // verus!
