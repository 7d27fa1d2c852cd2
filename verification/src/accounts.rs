use crate::error::ClaimError;
use crate::schedule::Schedule;
use vstd::prelude::*;

verus! {

/// The category tag under which the top tier's daily bonus is minted.
pub const TOP_TIER_DAILY_BONUS: u8 = 8;

/// How many bonus credentials one top-tier claim earns.
pub const BONUS_UNITS: u64 = 1;

/// One participant's record for one day: the metric that the day's activity
/// added up to, and whether the reward has been paid out.
#[derive(Clone, Copy, Debug, PartialEq, Eq, Structural)]
pub struct LedgerEntry {
    pub metric: u64,
    pub claimed: bool,
}

/// How far one claim attempt has come. Nothing of this is kept once the
/// attempt is over: the ledger entry alone says whether a reward was claimed.
#[derive(Clone, Copy, Debug, PartialEq, Eq, Structural)]
pub enum Progress {
    /// No attempt is under way.
    Idle,
    /// The host has been asked to pay `amount` for tier `tier`.
    Disbursing { tier: usize, amount: u64 },
    /// `amount` has been paid for the top tier and the host has been asked to
    /// mint the bonus.
    Issuing { amount: u64 },
}

/// The handles that the bonus issuer needs, supplied by the caller where the
/// top tier may be reached.
#[derive(Debug, PartialEq, Eq)]
pub struct BonusContext<A> {
    pub mint: A,
    pub receiving_account: A,
    pub metadata_target: A,
    pub minting_authority: A,
}

impl<A> BonusContext<A> {
    /// Reads the issuer's handles off the accounts that the caller appended to
    /// the claim's own: the minting authority first, then the mint, the
    /// holding account and the metadata target. Fewer than four make no
    /// bundle; what follows the fourth is ignored.
    pub fn from_remaining(remaining: Vec<A>) -> (r: Option<BonusContext<A>>)
        ensures
            r is Some <==> remaining@.len() >= 4,
            r matches Some(context) ==> {
                &&& context.minting_authority == remaining@[0]
                &&& context.mint == remaining@[1]
                &&& context.receiving_account == remaining@[2]
                &&& context.metadata_target == remaining@[3]
            },
    {
        let mut rest = remaining;
        if rest.len() < 4 {
            return None;
        }
        rest.truncate(4);
        let metadata_target = rest.pop().unwrap();
        let receiving_account = rest.pop().unwrap();
        let mint = rest.pop().unwrap();
        let minting_authority = rest.pop().unwrap();
        Some(BonusContext { mint, receiving_account, metadata_target, minting_authority })
    }
}

/// The parties to the transfer that pays a reward.
#[derive(Debug)]
pub struct TransferContext<'a, A> {
    pub program: &'a A,
    pub from: &'a A,
    pub to: &'a A,
    pub authority: &'a A,
}

/// What the engine hands to the bonus issuer.
#[derive(Debug)]
pub struct BonusRequest<'a, A> {
    pub context: &'a BonusContext<A>,
    pub recipient: &'a A,
    pub authority: &'a A,
    pub category: u8,
    pub units: u64,
}

/// One participant's claim of one day's rank reward: the accounts it touches,
/// each as a handle of the host's, the two records it reads, and how far the
/// attempt has come.
#[derive(Debug)]
pub struct ClaimDayRankReward<A> {
    /// The day that the claim is for.
    pub day: u64,
    /// The claiming participant.
    pub participant: A,
    /// The derived identity that controls the reward pool and signs for it.
    pub pool_authority: A,
    /// The shared pool that rewards are paid from.
    pub reward_pool: A,
    /// The participant's account for the reward asset.
    pub receiving_account: A,
    /// The primitive that moves the reward asset.
    pub transfer_program: A,
    /// The day's published schedule.
    pub schedule: Schedule,
    /// The participant's ledger entry for the day.
    pub entry: LedgerEntry,
    /// The bonus issuer's handles, where the caller supplied them.
    pub bonus: Option<BonusContext<A>>,
    /// How far the attempt has come.
    pub progress: Progress,
}

/// Whether a claim is admitted: the metric has to reach the lowest
/// threshold, and the reward must not have been claimed before. Eligibility is
/// looked at first.
pub open spec fn admission(entry: LedgerEntry, schedule: Schedule) -> Result<(), ClaimError> {
    if entry.metric < schedule.lowest_threshold() {
        Err(ClaimError::NotEligible)
    } else if entry.claimed {
        Err(ClaimError::AlreadyClaimed)
    } else {
        Ok(())
    }
}

impl<A> ClaimDayRankReward<A> {
    /// Decides whether the claim is permitted. Changes nothing.
    pub fn validate(&self) -> (r: Result<(), ClaimError>)
        requires
            self.schedule.wf(),
        ensures
            r == admission(self.entry, self.schedule),
    {
        let last: usize = self.schedule.tiers.len() - 1;
        if self.entry.metric < self.schedule.tiers[last] {
            return Err(ClaimError::NotEligible);
        }
        if self.entry.claimed {
            return Err(ClaimError::AlreadyClaimed);
        }
        Ok(())
    }

    /// Names the parties to the reward transfer: out of the pool, into the
    /// participant's receiving account, signed for by the pool's authority.
    pub fn claim_reward_context(&self) -> (ctx: TransferContext<'_, A>)
        ensures
            *ctx.program == self.transfer_program,
            *ctx.from == self.reward_pool,
            *ctx.to == self.receiving_account,
            *ctx.authority == self.pool_authority,
    {
        TransferContext {
            program: &self.transfer_program,
            from: &self.reward_pool,
            to: &self.receiving_account,
            authority: &self.pool_authority,
        }
    }

    /// What goes to the bonus issuer, where the caller supplied its handles:
    /// the handles, the participant as recipient, the pool's authority as the
    /// identity that funds and signs, the top tier's category tag, and the
    /// one unit to mint.
    pub fn bonus_request(&self) -> (r: Option<BonusRequest<'_, A>>)
        ensures
            match r {
                Some(req) => {
                    &&& self.bonus == Some(*req.context)
                    &&& *req.recipient == self.participant
                    &&& *req.authority == self.pool_authority
                    &&& req.category == TOP_TIER_DAILY_BONUS
                    &&& req.units == BONUS_UNITS
                },
                None => self.bonus is None,
            },
    {
        match &self.bonus {
            Some(context) => Some(
                BonusRequest {
                    context,
                    recipient: &self.participant,
                    authority: &self.pool_authority,
                    category: TOP_TIER_DAILY_BONUS,
                    units: BONUS_UNITS,
                },
            ),
            None => None,
        }
    }
}

} // verus!
