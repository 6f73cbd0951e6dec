use mirai::config::PaymentCategory;
use mirai::error::MiraiError;
use mirai::ids::AccountId;
use mirai::ops::{claim_vesting, create_vesting, init_dao, TransferAuthority};
use mirai::vesting::{Vesting, VestingStatus, VestingType};

fn acct(value: u128) -> AccountId {
    AccountId { value }
}

fn plain_vesting(kind: VestingType, total: u64, start: i64, cliff: i64, end: i64) -> Vesting {
    Vesting {
        authority: acct(1),
        recipient: acct(21),
        dao_config: acct(100),
        treasury_mint: acct(9),
        vesting_ata: acct(41),
        vesting_type: kind,
        total_amount: total,
        claimed_amount: 0,
        start_time: start,
        end_time: end,
        cliff_time: cliff,
        status: VestingStatus::Active,
        category: PaymentCategory::Contributors,
        description: String::from("vesting"),
        created_at: start,
    }
}

#[test]
fn cliff_vesting_unlocks_nothing_before_the_cliff() {
    // Total 1200 over times 0..90 with a cliff at 30: nothing at 20, and at
    // 60 (30 elapsed of the 60 from cliff to end) exactly half: 600.
    let v = plain_vesting(VestingType::Cliff, 1200, 0, 30, 90);
    assert_eq!(v.get_claimable_amount(20), 0);
    assert_eq!(v.get_claimable_amount(29), 0);
    assert_eq!(v.get_claimable_amount(30), 0);
    assert_eq!(v.get_claimable_amount(60), 600);
    assert_eq!(v.get_claimable_amount(90), 1200);
}

#[test]
fn linear_vesting_matches_the_stream_formula() {
    let v = plain_vesting(VestingType::Linear, 1000, 0, 0, 100);
    assert_eq!(v.get_claimable_amount(-1), 0);
    assert_eq!(v.get_claimable_amount(0), 0);
    assert_eq!(v.get_claimable_amount(50), 500);
    assert_eq!(v.get_claimable_amount(99), 990);
    assert_eq!(v.get_claimable_amount(100), 1000);
    assert_eq!(v.get_claimable_amount(1_000_000), 1000);
}

#[test]
fn linear_vesting_uses_integer_truncation() {
    let v = plain_vesting(VestingType::Linear, 10, 0, 0, 3);
    assert_eq!(v.get_claimable_amount(1), 3);
    assert_eq!(v.get_claimable_amount(2), 6);
}

#[test]
fn claimable_subtracts_claims_and_is_zero_when_not_active() {
    let mut v = plain_vesting(VestingType::Linear, 1000, 0, 0, 100);
    v.claimed_amount = 400;
    assert_eq!(v.get_claimable_amount(50), 100);
    assert_eq!(v.get_claimable_amount(30), 0);
    v.status = VestingStatus::Paused;
    assert_eq!(v.get_claimable_amount(50), 0);
    v.status = VestingStatus::Cancelled;
    assert_eq!(v.get_claimable_amount(50), 0);
    v.status = VestingStatus::Completed;
    assert_eq!(v.get_claimable_amount(50), 0);
}

#[test]
fn claimable_never_decreases_over_time() {
    let mut v = plain_vesting(VestingType::Cliff, 977, -10, 35, 203);
    v.claimed_amount = 41;
    let mut last: u64 = 0;
    let mut t: i64 = -30;
    while t <= 220 {
        let c = v.get_claimable_amount(t);
        assert!(c >= last, "claimable dropped at {}", t);
        last = c;
        t += 1;
    }
}

#[test]
fn claim_flow_reaches_completed_exactly_at_the_total() {
    let mut dao = init_dao(acct(1), acct(9), 0);
    let (mut v, funding) = create_vesting(
        &mut dao,
        acct(100),
        acct(1),
        acct(21),
        acct(41),
        VestingType::Cliff,
        1200,
        0,
        90,
        30,
        PaymentCategory::Development,
        String::from("founder"),
        0,
    )
    .unwrap();
    assert_eq!(dao.total_allocated, 1200);
    assert_eq!(funding.amount, 1200);
    assert_eq!(funding.to, acct(41));
    assert_eq!(funding.authority, TransferAuthority::Creator(acct(1)));

    let t = claim_vesting(&mut dao, &mut v, acct(21), 600, 60).unwrap();
    assert_eq!(t.amount, 600);
    assert_eq!(t.from, acct(41));
    assert_eq!(t.to, acct(21));
    match t.authority {
        TransferAuthority::GrantCustody(id) => {
            assert_eq!(id.treasury, acct(100));
            assert_eq!(id.recipient, acct(21));
        }
        TransferAuthority::Creator(_) => panic!("release must not run under the creator"),
    }
    assert_eq!(v.claimed_amount, 600);
    assert_eq!(v.status, VestingStatus::Active);
    assert_eq!(dao.total_paid, 600);

    claim_vesting(&mut dao, &mut v, acct(21), 600, 90).unwrap();
    assert_eq!(v.claimed_amount, 1200);
    assert_eq!(v.status, VestingStatus::Completed);
    assert_eq!(dao.total_paid, 1200);

    // Nothing further can be claimed from a completed grant.
    let e = claim_vesting(&mut dao, &mut v, acct(21), 1, 95).unwrap_err();
    assert_eq!(e, MiraiError::VestingNotActive);
}

#[test]
fn create_vesting_rejects_each_bad_input() {
    let mut dao = init_dao(acct(1), acct(9), 0);
    let attempt = |dao: &mut mirai::config::DaoConfig,
                   caller: AccountId,
                   kind: VestingType,
                   amount: u64,
                   start: i64,
                   end: i64,
                   cliff: i64,
                   description: String| {
        create_vesting(
            dao,
            acct(100),
            caller,
            acct(21),
            acct(41),
            kind,
            amount,
            start,
            end,
            cliff,
            PaymentCategory::Other,
            description,
            0,
        )
    };

    let e = attempt(&mut dao, acct(2), VestingType::Linear, 10, 0, 100, 0, String::from("x"))
        .unwrap_err();
    assert_eq!(e, MiraiError::UnauthorizedVestingCreation);

    let e = attempt(&mut dao, acct(1), VestingType::Linear, 0, 0, 100, 0, String::from("x"))
        .unwrap_err();
    assert_eq!(e, MiraiError::InvalidTotalAmount);

    let e = attempt(&mut dao, acct(1), VestingType::Linear, 10, 100, 100, 0, String::from("x"))
        .unwrap_err();
    assert_eq!(e, MiraiError::InvalidVestingTiming);

    let e = attempt(&mut dao, acct(1), VestingType::Cliff, 10, 10, 100, 5, String::from("x"))
        .unwrap_err();
    assert_eq!(e, MiraiError::InvalidCliffTiming);

    let e = attempt(&mut dao, acct(1), VestingType::Cliff, 10, 10, 100, 101, String::from("x"))
        .unwrap_err();
    assert_eq!(e, MiraiError::InvalidCliffTiming);

    // A linear grant ignores the cliff entirely.
    assert!(attempt(&mut dao, acct(1), VestingType::Linear, 10, 10, 100, 5, String::from("x"))
        .is_ok());

    let e = attempt(&mut dao, acct(1), VestingType::Linear, 10, 0, 100, 0, "d".repeat(65))
        .unwrap_err();
    assert_eq!(e, MiraiError::DescriptionTooLong);

    dao.set_governance(acct(1), false, 50, u64::MAX, 0).unwrap();
    let e = attempt(&mut dao, acct(1), VestingType::Linear, 51, 0, 100, 0, String::from("x"))
        .unwrap_err();
    assert_eq!(e, MiraiError::StreamAmountExceedsLimit);

    dao.set_governance(acct(1), false, u64::MAX, 15, 0).unwrap();
    let e = attempt(&mut dao, acct(1), VestingType::Linear, 6, 0, 100, 0, String::from("x"))
        .unwrap_err();
    assert_eq!(e, MiraiError::TotalAllocationExceedsLimit);

    dao.set_governance(acct(1), true, u64::MAX, u64::MAX, 0).unwrap();
    let e = attempt(&mut dao, acct(1), VestingType::Linear, 10, 0, 100, 0, String::from("x"))
        .unwrap_err();
    assert_eq!(e, MiraiError::TreasuryPaused);
}

#[test]
fn claim_rejects_each_bad_request() {
    let mut dao = init_dao(acct(1), acct(9), 0);
    let mut v = plain_vesting(VestingType::Linear, 1000, 10, 10, 110);

    let e = claim_vesting(&mut dao, &mut v, acct(99), 10, 60).unwrap_err();
    assert_eq!(e, MiraiError::UnauthorizedVestingClaim);

    let e = claim_vesting(&mut dao, &mut v, acct(21), 0, 60).unwrap_err();
    assert_eq!(e, MiraiError::InvalidClaimAmount);

    let e = claim_vesting(&mut dao, &mut v, acct(21), 10, 5).unwrap_err();
    assert_eq!(e, MiraiError::VestingNotStarted);

    let e = claim_vesting(&mut dao, &mut v, acct(21), 501, 60).unwrap_err();
    assert_eq!(e, MiraiError::InsufficientVestedTokens);

    v.status = VestingStatus::Paused;
    let e = claim_vesting(&mut dao, &mut v, acct(21), 10, 60).unwrap_err();
    assert_eq!(e, MiraiError::VestingNotActive);

    assert_eq!(v.claimed_amount, 0);
    assert_eq!(dao.total_paid, 0);
}

#[test]
fn status_machine_with_explicit_errors() {
    let mut v = plain_vesting(VestingType::Linear, 1000, 0, 0, 100);
    assert!(v.is_active());
    assert_eq!(v.pause(), Ok(()));
    assert_eq!(v.status, VestingStatus::Paused);
    assert!(!v.is_active());
    assert_eq!(v.pause(), Err(MiraiError::VestingNotActive));
    assert_eq!(v.resume(), Ok(()));
    assert_eq!(v.status, VestingStatus::Active);
    assert_eq!(v.resume(), Err(MiraiError::VestingNotPaused));
    assert_eq!(v.pause(), Ok(()));
    assert_eq!(v.cancel(), Ok(()));
    assert_eq!(v.status, VestingStatus::Cancelled);
    // Terminal: every further transition is refused.
    assert_eq!(v.cancel(), Err(MiraiError::VestingCannotCancel));
    assert_eq!(v.resume(), Err(MiraiError::VestingNotPaused));
    assert_eq!(v.pause(), Err(MiraiError::VestingNotActive));
    assert_eq!(v.status, VestingStatus::Cancelled);
}

#[test]
fn can_claim_needs_an_active_grant_with_something_unlocked() {
    let mut v = plain_vesting(VestingType::Cliff, 1200, 0, 30, 90);
    assert!(!v.can_claim(20));
    assert!(v.can_claim(60));
    v.status = VestingStatus::Paused;
    assert!(!v.can_claim(60));
}

#[test]
fn progress_percentage_counts_vested_over_total() {
    let mut v = plain_vesting(VestingType::Linear, 1000, 0, 0, 100);
    assert_eq!(v.get_progress_percentage(-5), 0);
    assert_eq!(v.get_progress_percentage(25), 25);
    assert_eq!(v.get_progress_percentage(100), 100);
    // Already-claimed amounts still count as vested.
    v.claimed_amount = 300;
    assert_eq!(v.get_progress_percentage(50), 50);
    // A paused grant shows only what was already claimed.
    v.status = VestingStatus::Paused;
    assert_eq!(v.get_progress_percentage(50), 30);
}
