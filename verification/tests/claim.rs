use reward_claim::{
    handler, signer_seeds, BonusContext, ClaimAction, ClaimDayRankReward, ClaimError, ClaimEvent,
    LedgerEntry, Progress, Schedule, BONUS_UNITS, TOP_TIER_DAILY_BONUS,
};

/// A host in memory: two balances, a count of minted credentials, and an
/// issuer that delivers or not.
struct Host {
    pool: u64,
    receiving: u64,
    minted: u32,
    issuer_ok: bool,
}

fn host(pool: u64) -> Host {
    Host { pool, receiving: 0, minted: 0, issuer_ok: true }
}

fn claim_of(metric: u64, claimed: bool, with_bonus: bool) -> ClaimDayRankReward<&'static str> {
    ClaimDayRankReward {
        day: 19,
        participant: "participant",
        pool_authority: "authority",
        reward_pool: "pool",
        receiving_account: "receiving",
        transfer_program: "asset program",
        schedule: Schedule::new(vec![1000, 500, 100], vec![50, 20, 5]).unwrap(),
        entry: LedgerEntry { metric, claimed },
        bonus: if with_bonus {
            Some(BonusContext {
                mint: "bonus mint",
                receiving_account: "bonus holding",
                metadata_target: "bonus metadata",
                minting_authority: "bonus minter",
            })
        } else {
            None
        },
        progress: Progress::Idle,
    }
}

/// Runs one attempt to its end: performs what the engine asks for, reports
/// back, and keeps or undoes the effects as the engine says.
fn run(accts: &mut ClaimDayRankReward<&'static str>, host: &mut Host) -> Result<(usize, u64), ClaimError> {
    let before = (host.pool, host.receiving, host.minted);
    let mut event = ClaimEvent::Requested;
    loop {
        match handler(accts, event) {
            ClaimAction::Transfer { amount } => {
                if host.pool >= amount {
                    host.pool -= amount;
                    host.receiving += amount;
                    event = ClaimEvent::TransferCompleted;
                } else {
                    event = ClaimEvent::TransferFailed;
                }
            }
            ClaimAction::MintBonus => {
                if host.issuer_ok {
                    host.minted += 1;
                    event = ClaimEvent::BonusIssued;
                } else {
                    event = ClaimEvent::BonusFailed;
                }
            }
            ClaimAction::Commit { tier, amount } => return Ok((tier, amount)),
            ClaimAction::Abort(e) => {
                host.pool = before.0;
                host.receiving = before.1;
                host.minted = before.2;
                return Err(e);
            }
        }
    }
}

#[test]
fn top_tier_claim_pays_and_mints() {
    let mut accts = claim_of(1200, false, true);
    let mut h = host(1_000);
    assert_eq!(run(&mut accts, &mut h), Ok((0, 50)));
    assert!(accts.entry.claimed);
    assert_eq!(accts.entry.metric, 1200);
    assert_eq!(accts.progress, Progress::Idle);
    assert_eq!((h.pool, h.receiving, h.minted), (950, 50, 1));
}

#[test]
fn lowest_tier_claim_pays_without_bonus() {
    let mut accts = claim_of(300, false, true);
    let mut h = host(1_000);
    assert_eq!(run(&mut accts, &mut h), Ok((2, 5)));
    assert!(accts.entry.claimed);
    assert_eq!((h.pool, h.receiving, h.minted), (995, 5, 0));
}

#[test]
fn metric_below_lowest_threshold_is_not_eligible() {
    let mut accts = claim_of(50, false, true);
    let mut h = host(1_000);
    assert_eq!(run(&mut accts, &mut h), Err(ClaimError::NotEligible));
    assert_eq!(accts.entry, LedgerEntry { metric: 50, claimed: false });
    assert_eq!(accts.progress, Progress::Idle);
    assert_eq!((h.pool, h.receiving, h.minted), (1_000, 0, 0));
}

#[test]
fn claimed_entry_is_turned_down() {
    let mut accts = claim_of(300, true, true);
    let mut h = host(1_000);
    assert_eq!(run(&mut accts, &mut h), Err(ClaimError::AlreadyClaimed));
    assert_eq!(accts.entry, LedgerEntry { metric: 300, claimed: true });
    assert_eq!((h.pool, h.receiving, h.minted), (1_000, 0, 0));
}

#[test]
fn claimed_entry_is_turned_down_every_time() {
    let mut accts = claim_of(1200, true, true);
    let mut h = host(1_000);
    for _ in 0..3 {
        assert_eq!(handler(&mut accts, ClaimEvent::Requested), ClaimAction::Abort(ClaimError::AlreadyClaimed));
        assert_eq!(run(&mut accts, &mut h), Err(ClaimError::AlreadyClaimed));
        assert_eq!(accts.entry, LedgerEntry { metric: 1200, claimed: true });
        assert_eq!((h.pool, h.receiving, h.minted), (1_000, 0, 0));
    }
}

#[test]
fn eligibility_is_checked_before_the_claimed_mark() {
    let mut accts = claim_of(50, true, true);
    let mut h = host(1_000);
    assert_eq!(run(&mut accts, &mut h), Err(ClaimError::NotEligible));
    assert_eq!(accts.validate(), Err(ClaimError::NotEligible));
}

#[test]
fn validation_admits_an_eligible_unclaimed_entry() {
    assert_eq!(claim_of(100, false, false).validate(), Ok(()));
    assert_eq!(claim_of(99, false, false).validate(), Err(ClaimError::NotEligible));
    assert_eq!(claim_of(100, true, false).validate(), Err(ClaimError::AlreadyClaimed));
    assert_eq!(claim_of(u64::MAX, false, false).validate(), Ok(()));
}

#[test]
fn second_attempt_after_a_success_pays_nothing() {
    let mut accts = claim_of(700, false, true);
    let mut h = host(1_000);
    assert_eq!(run(&mut accts, &mut h), Ok((1, 20)));
    assert_eq!(run(&mut accts, &mut h), Err(ClaimError::AlreadyClaimed));
    assert_eq!((h.pool, h.receiving, h.minted), (980, 20, 0));
    assert!(accts.entry.claimed);
}

#[test]
fn retry_after_a_failed_transfer_pays_once() {
    let mut accts = claim_of(700, false, true);
    let mut h = host(19);
    assert_eq!(run(&mut accts, &mut h), Err(ClaimError::InsufficientPoolBalance));
    assert!(!accts.entry.claimed);
    h.pool = 20;
    assert_eq!(run(&mut accts, &mut h), Ok((1, 20)));
    assert_eq!(run(&mut accts, &mut h), Err(ClaimError::AlreadyClaimed));
    assert_eq!((h.pool, h.receiving), (0, 20));
}

#[test]
fn failed_transfer_leaves_entry_unclaimed_and_mints_nothing() {
    let mut accts = claim_of(1200, false, true);
    let mut h = host(49);
    assert_eq!(handler(&mut accts, ClaimEvent::Requested), ClaimAction::Transfer { amount: 50 });
    assert_eq!(accts.progress, Progress::Disbursing { tier: 0, amount: 50 });
    assert_eq!(
        handler(&mut accts, ClaimEvent::TransferFailed),
        ClaimAction::Abort(ClaimError::InsufficientPoolBalance)
    );
    assert_eq!(accts.entry, LedgerEntry { metric: 1200, claimed: false });
    assert_eq!(accts.progress, Progress::Idle);
    assert_eq!(run(&mut accts, &mut h), Err(ClaimError::InsufficientPoolBalance));
    assert_eq!((h.pool, h.receiving, h.minted), (49, 0, 0));
}

#[test]
fn bonus_is_asked_for_the_top_tier_only() {
    for (metric, tier, amount) in [(1000u64, 0usize, 50u64), (999, 1, 20), (500, 1, 20), (100, 2, 5)] {
        let mut accts = claim_of(metric, false, true);
        assert_eq!(handler(&mut accts, ClaimEvent::Requested), ClaimAction::Transfer { amount });
        let next = handler(&mut accts, ClaimEvent::TransferCompleted);
        if tier == 0 {
            assert_eq!(next, ClaimAction::MintBonus);
            assert_eq!(accts.progress, Progress::Issuing { amount });
            assert!(!accts.entry.claimed);
            assert_eq!(handler(&mut accts, ClaimEvent::BonusIssued), ClaimAction::Commit { tier, amount });
        } else {
            assert_eq!(next, ClaimAction::Commit { tier, amount });
        }
        assert!(accts.entry.claimed);
        assert_eq!(accts.progress, Progress::Idle);
    }
}

#[test]
fn failed_bonus_undoes_the_claim() {
    let mut accts = claim_of(1200, false, true);
    let mut h = host(1_000);
    h.issuer_ok = false;
    assert_eq!(run(&mut accts, &mut h), Err(ClaimError::BonusIssuanceFailure));
    assert_eq!(accts.entry, LedgerEntry { metric: 1200, claimed: false });
    assert_eq!(accts.progress, Progress::Idle);
    assert_eq!((h.pool, h.receiving, h.minted), (1_000, 0, 0));
}

#[test]
fn top_tier_without_issuer_handles_fails_after_the_transfer() {
    let mut accts = claim_of(1200, false, false);
    assert_eq!(handler(&mut accts, ClaimEvent::Requested), ClaimAction::Transfer { amount: 50 });
    assert_eq!(
        handler(&mut accts, ClaimEvent::TransferCompleted),
        ClaimAction::Abort(ClaimError::BonusIssuanceFailure)
    );
    assert!(!accts.entry.claimed);
    assert_eq!(accts.progress, Progress::Idle);
}

#[test]
fn lower_tier_needs_no_issuer_handles() {
    let mut accts = claim_of(300, false, false);
    let mut h = host(5);
    assert_eq!(run(&mut accts, &mut h), Ok((2, 5)));
    assert_eq!((h.pool, h.receiving, h.minted), (0, 5, 0));
}

#[test]
fn event_out_of_turn_ends_the_attempt() {
    let unexpected = [
        (Progress::Idle, ClaimEvent::TransferCompleted),
        (Progress::Idle, ClaimEvent::TransferFailed),
        (Progress::Idle, ClaimEvent::BonusIssued),
        (Progress::Idle, ClaimEvent::BonusFailed),
        (Progress::Disbursing { tier: 1, amount: 20 }, ClaimEvent::Requested),
        (Progress::Disbursing { tier: 1, amount: 20 }, ClaimEvent::BonusIssued),
        (Progress::Disbursing { tier: 0, amount: 50 }, ClaimEvent::BonusFailed),
        (Progress::Issuing { amount: 50 }, ClaimEvent::Requested),
        (Progress::Issuing { amount: 50 }, ClaimEvent::TransferCompleted),
        (Progress::Issuing { amount: 50 }, ClaimEvent::TransferFailed),
    ];
    for (progress, event) in unexpected {
        let mut accts = claim_of(700, false, true);
        accts.progress = progress;
        assert_eq!(handler(&mut accts, event), ClaimAction::Abort(ClaimError::InternalConsistencyError));
        assert_eq!(accts.entry, LedgerEntry { metric: 700, claimed: false });
        assert_eq!(accts.progress, Progress::Idle);
    }
}

#[test]
fn handler_touches_nothing_but_entry_and_progress() {
    let mut accts = claim_of(1200, false, true);
    let mut h = host(1_000);
    assert_eq!(run(&mut accts, &mut h), Ok((0, 50)));
    let fresh = claim_of(1200, false, true);
    assert_eq!(accts.day, 19);
    assert_eq!(accts.participant, fresh.participant);
    assert_eq!(accts.pool_authority, fresh.pool_authority);
    assert_eq!(accts.reward_pool, fresh.reward_pool);
    assert_eq!(accts.receiving_account, fresh.receiving_account);
    assert_eq!(accts.transfer_program, fresh.transfer_program);
    assert_eq!(accts.schedule, fresh.schedule);
    assert_eq!(accts.bonus, fresh.bonus);
}

#[test]
fn transfer_goes_from_the_pool_to_the_participant() {
    let accts = claim_of(300, false, false);
    let ctx = accts.claim_reward_context();
    assert_eq!(*ctx.program, "asset program");
    assert_eq!(*ctx.from, "pool");
    assert_eq!(*ctx.to, "receiving");
    assert_eq!(*ctx.authority, "authority");
}

#[test]
fn bonus_request_names_recipient_authority_and_category() {
    let accts = claim_of(1200, false, true);
    let req = accts.bonus_request().unwrap();
    assert_eq!(req.context.mint, "bonus mint");
    assert_eq!(req.context.receiving_account, "bonus holding");
    assert_eq!(req.context.metadata_target, "bonus metadata");
    assert_eq!(req.context.minting_authority, "bonus minter");
    assert_eq!(*req.recipient, "participant");
    assert_eq!(*req.authority, "authority");
    assert_eq!(req.category, 8);
    assert_eq!(req.units, 1);
    assert_eq!(TOP_TIER_DAILY_BONUS, 8);
    assert_eq!(BONUS_UNITS, 1);
}

#[test]
fn bonus_request_is_absent_without_handles() {
    assert!(claim_of(1200, false, false).bonus_request().is_none());
}

#[test]
fn signer_seeds_are_domain_then_bump() {
    assert_eq!(signer_seeds(b"pool", 254), vec![b"pool".to_vec(), vec![254u8]]);
    assert_eq!(signer_seeds(&[], 0), vec![Vec::<u8>::new(), vec![0u8]]);
}

#[test]
fn issuer_handles_are_read_in_the_order_given() {
    let context = BonusContext::from_remaining(vec!["minter", "mint", "holding", "metadata"]).unwrap();
    assert_eq!(context.minting_authority, "minter");
    assert_eq!(context.mint, "mint");
    assert_eq!(context.receiving_account, "holding");
    assert_eq!(context.metadata_target, "metadata");
}

#[test]
fn issuer_handles_beyond_the_fourth_are_ignored() {
    let context = BonusContext::from_remaining(vec![1u8, 2, 3, 4, 5, 6]).unwrap();
    assert_eq!(
        context,
        BonusContext { minting_authority: 1, mint: 2, receiving_account: 3, metadata_target: 4 }
    );
}

#[test]
fn fewer_than_four_issuer_handles_make_no_bundle() {
    assert!(BonusContext::<u8>::from_remaining(vec![]).is_none());
    assert!(BonusContext::from_remaining(vec![1u8, 2, 3]).is_none());
}
