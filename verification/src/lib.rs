//! A tiered reward-claim engine.
//!
//! Given a participant's recorded daily metric and the day's published schedule
//! of reward tiers, the engine decides which tier the participant has earned,
//! asks for the matching amount to be paid out of the shared reward pool exactly
//! once, and, for the top tier only, asks for a scarce bonus credential to be
//! minted.
//!
//! Transfers and mints are the host's work. The engine never performs them: it
//! is a state machine that the host drives. The host hands [`handler`] an
//! event and gets back the next thing to do; it performs a `Transfer` or a
//! `MintBonus`, reports how that went, and ends the attempt at `Commit` or
//! `Abort`. The host runs an attempt as one atomic unit: what it did on the
//! way stays with `Commit` and is undone with `Abort`.
//!
//! [`claim::step`] is the machine's transition, and `handler` is proved to
//! compute it. The module [`laws`] states what follows for whole attempts: a
//! reward is paid at most once, a failed attempt leaves nothing behind, and the
//! bonus goes to successful claims of the top tier alone.

pub mod accounts;
pub mod authority;
pub mod claim;
pub mod error;
pub mod laws;
pub mod schedule;

pub use accounts::{
    BonusContext, BonusRequest, ClaimDayRankReward, LedgerEntry, Progress, TransferContext,
    BONUS_UNITS, TOP_TIER_DAILY_BONUS,
};
pub use authority::signer_seeds;
pub use claim::{handler, ClaimAction, ClaimEvent};
pub use error::ClaimError;
pub use schedule::{Schedule, TierAward};
