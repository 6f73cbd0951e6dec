//! The operation surface: each call validates, then either applies every
//! state change and returns the fund movement for the transfer gateway to
//! perform, or fails with the first applicable error and changes nothing.
//! There is no partial application: a failed call leaves the treasury and the
//! grant exactly as they were.

use vstd::prelude::*;

use vstd::string::StrSliceExecFns;

use crate::config::{spec_add_payment, spec_add_stream, DaoConfig, GovernanceSettings, PaymentCategory};
use crate::error::MiraiError;
use crate::ids::{derive_id, AccountId, GrantId, GrantKind};
use crate::stream::{lemma_withdrawable_le_remaining, Stream, StreamStatus};
use crate::vesting::{lemma_claimable_le_remaining, Vesting, VestingStatus, VestingType};

verus! {

/// Which party authorizes a fund movement. Releases from a grant always run
/// under the grant's own custody authorization, never the end user's;
/// only the initial funding of a grant runs under its creator's.
#[derive(Clone, Copy, Debug, PartialEq, Eq, Structural)]
pub enum TransferAuthority {
    /// The creator funds the grant from their own balance.
    Creator(AccountId),
    /// The grant itself releases funds it holds in custody.
    GrantCustody(GrantId),
}

/// One fund movement for the transfer gateway to perform. The engine never
/// moves balances itself; it hands one of these out together with the state
/// changes it has already applied, and the host commits both as one atomic
/// unit.
#[derive(Clone, Copy, Debug, PartialEq, Eq, Structural)]
pub struct TransferRequest {
    /// The account the funds leave.
    pub from: AccountId,
    /// The account the funds arrive at.
    pub to: AccountId,
    /// Who authorizes the movement.
    pub authority: TransferAuthority,
    /// How much moves.
    pub amount: u64,
}

/// Creates a treasury with default governance: unpaused, every limit at its
/// maximum (meaning no limit), counters at zero.
pub fn init_dao(authority: AccountId, treasury_mint: AccountId, now: i64) -> (dao: DaoConfig)
    ensures
        dao == (DaoConfig {
            authority,
            treasury_mint,
            total_streams: 0,
            total_allocated: 0,
            total_paid: 0,
            governance_settings: GovernanceSettings {
                is_paused: false,
                max_stream_amount: u64::MAX,
                max_total_allocation: u64::MAX,
                last_updated: now,
            },
            created_at: now,
        }),
{
    DaoConfig {
        authority,
        treasury_mint,
        total_streams: 0,
        total_allocated: 0,
        total_paid: 0,
        governance_settings: GovernanceSettings {
            is_paused: false,
            max_stream_amount: u64::MAX,
            max_total_allocation: u64::MAX,
            last_updated: now,
        },
        created_at: now,
    }
}

/// The first reason a stream creation request is refused, or `None` when
/// every gate passes and the creation is owed.
pub open spec fn create_stream_error(
    dao: DaoConfig,
    caller: AccountId,
    start_time: i64,
    end_time: i64,
    total_amount: u64,
    description: Seq<char>,
) -> Option<MiraiError> {
    if caller != dao.authority {
        Some(MiraiError::UnauthorizedStreamCreation)
    } else if total_amount == 0 {
        Some(MiraiError::InvalidTotalAmount)
    } else if start_time >= end_time {
        Some(MiraiError::InvalidStreamTiming)
    } else if dao.governance_settings.is_paused {
        Some(MiraiError::TreasuryPaused)
    } else if total_amount > dao.governance_settings.max_stream_amount {
        Some(MiraiError::StreamAmountExceedsLimit)
    } else if dao.total_allocated.saturating_add(total_amount)
        > dao.governance_settings.max_total_allocation {
        Some(MiraiError::TotalAllocationExceedsLimit)
    } else if description.len() > 64 {
        Some(MiraiError::DescriptionTooLong)
    } else {
        None
    }
}

/// Creates a stream under `dao`, stored at `dao_key`, releasing
/// `total_amount` linearly from `start_time` to `end_time` to `recipient`.
///
/// On success the treasury records the allocation, the returned stream is
/// well formed and active with nothing withdrawn, and the returned transfer
/// moves the full amount from the creator into the stream's custody. On any
/// failure the treasury is unchanged and nothing is created.
pub fn create_stream(
    dao: &mut DaoConfig,
    dao_key: AccountId,
    caller: AccountId,
    recipient: AccountId,
    stream_ata: AccountId,
    start_time: i64,
    end_time: i64,
    total_amount: u64,
    category: PaymentCategory,
    description: String,
    now: i64,
) -> (result: Result<(Stream, TransferRequest), MiraiError>)
    ensures
        match result {
            Ok(created) => {
                &&& create_stream_error(
                    *old(dao),
                    caller,
                    start_time,
                    end_time,
                    total_amount,
                    description@,
                ) is None
                &&& *final(dao) == spec_add_stream(*old(dao), total_amount)
                &&& created.0 == (Stream {
                    dao_config: dao_key,
                    recipient,
                    authority: caller,
                    mint: old(dao).treasury_mint,
                    category,
                    description,
                    total_amount,
                    withdrawn_amount: 0,
                    start_time,
                    end_time,
                    stream_ata,
                    status: StreamStatus::Active,
                    created_at: now,
                })
                &&& created.0.wf()
                &&& created.1 == (TransferRequest {
                    from: caller,
                    to: stream_ata,
                    authority: TransferAuthority::Creator(caller),
                    amount: total_amount,
                })
            },
            Err(e) => {
                &&& create_stream_error(
                    *old(dao),
                    caller,
                    start_time,
                    end_time,
                    total_amount,
                    description@,
                ) == Some(e)
                &&& *final(dao) == *old(dao)
            },
        },
{
    if caller != dao.authority {
        return Err(MiraiError::UnauthorizedStreamCreation);
    }
    if total_amount == 0 {
        return Err(MiraiError::InvalidTotalAmount);
    }
    if start_time >= end_time {
        return Err(MiraiError::InvalidStreamTiming);
    }
    if !dao.is_treasury_active() {
        return Err(MiraiError::TreasuryPaused);
    }
    if !dao.validate_stream_amount(total_amount) {
        return Err(MiraiError::StreamAmountExceedsLimit);
    }
    if !dao.validate_total_allocation(total_amount) {
        return Err(MiraiError::TotalAllocationExceedsLimit);
    }
    if description.as_str().unicode_len() > 64 {
        return Err(MiraiError::DescriptionTooLong);
    }
    let stream = Stream {
        dao_config: dao_key,
        recipient,
        authority: caller,
        mint: dao.treasury_mint,
        category,
        description,
        total_amount,
        withdrawn_amount: 0,
        start_time,
        end_time,
        stream_ata,
        status: StreamStatus::Active,
        created_at: now,
    };
    dao.add_stream(total_amount);
    let transfer = TransferRequest {
        from: caller,
        to: stream_ata,
        authority: TransferAuthority::Creator(caller),
        amount: total_amount,
    };
    Ok((stream, transfer))
}

/// The first reason a withdrawal request is refused, or `None` when the
/// withdrawal is owed.
pub open spec fn redeem_stream_error(
    stream: Stream,
    caller: AccountId,
    amount: u64,
    now: i64,
) -> Option<MiraiError> {
    if caller != stream.recipient {
        Some(MiraiError::UnauthorizedWithdrawal)
    } else if amount == 0 {
        Some(MiraiError::InvalidWithdrawalAmount)
    } else if now < stream.start_time {
        Some(MiraiError::StreamNotStarted)
    } else if !(stream.status is Active) {
        Some(MiraiError::StreamNotActive)
    } else if amount > stream.spec_withdrawable(now) {
        Some(MiraiError::InsufficientUnlockedTokens)
    } else {
        None
    }
}

/// Withdraws `amount` from an active stream at `now`.
///
/// On success the stream's withdrawn amount grows by exactly `amount`, the
/// stream completes exactly when the total is reached, the treasury records
/// the payment, and the returned transfer moves `amount` from the stream's
/// custody to the recipient under the grant's own authorization. On any
/// failure both records are unchanged.
pub fn redeem_stream(
    dao: &mut DaoConfig,
    stream: &mut Stream,
    caller: AccountId,
    amount: u64,
    now: i64,
) -> (result: Result<TransferRequest, MiraiError>)
    requires
        old(stream).wf(),
    ensures
        match result {
            Ok(transfer) => {
                &&& redeem_stream_error(*old(stream), caller, amount, now) is None
                &&& *final(stream) == old(stream).spec_release(amount)
                &&& final(stream).wf()
                &&& *final(dao) == spec_add_payment(*old(dao), amount)
                &&& transfer == (TransferRequest {
                    from: old(stream).stream_ata,
                    to: old(stream).recipient,
                    authority: TransferAuthority::GrantCustody(GrantId {
                        kind: GrantKind::Stream,
                        treasury: old(stream).dao_config,
                        recipient: old(stream).recipient,
                    }),
                    amount,
                })
            },
            Err(e) => {
                &&& redeem_stream_error(*old(stream), caller, amount, now) == Some(e)
                &&& *final(stream) == *old(stream)
                &&& *final(dao) == *old(dao)
            },
        },
{
    if caller != stream.recipient {
        return Err(MiraiError::UnauthorizedWithdrawal);
    }
    if amount == 0 {
        return Err(MiraiError::InvalidWithdrawalAmount);
    }
    if now < stream.start_time {
        return Err(MiraiError::StreamNotStarted);
    }
    if stream.status != StreamStatus::Active {
        return Err(MiraiError::StreamNotActive);
    }
    let available = stream.get_withdrawable_amount(now);
    if amount > available {
        return Err(MiraiError::InsufficientUnlockedTokens);
    }
    proof {
        lemma_withdrawable_le_remaining(*stream, now);
    }
    stream.withdrawn_amount = stream.withdrawn_amount + amount;
    if stream.withdrawn_amount >= stream.total_amount {
        stream.status = StreamStatus::Completed;
    }
    dao.add_payment(amount);
    let custody = derive_id(GrantKind::Stream, stream.dao_config, stream.recipient);
    Ok(TransferRequest {
        from: stream.stream_ata,
        to: stream.recipient,
        authority: TransferAuthority::GrantCustody(custody),
        amount,
    })
}

/// The first reason a vesting creation request is refused, or `None` when
/// every gate passes and the creation is owed.
pub open spec fn create_vesting_error(
    dao: DaoConfig,
    caller: AccountId,
    vesting_type: VestingType,
    total_amount: u64,
    start_time: i64,
    end_time: i64,
    cliff_time: i64,
    description: Seq<char>,
) -> Option<MiraiError> {
    if caller != dao.authority {
        Some(MiraiError::UnauthorizedVestingCreation)
    } else if total_amount == 0 {
        Some(MiraiError::InvalidTotalAmount)
    } else if start_time >= end_time {
        Some(MiraiError::InvalidVestingTiming)
    } else if vesting_type is Cliff && !(start_time <= cliff_time <= end_time) {
        Some(MiraiError::InvalidCliffTiming)
    } else if description.len() > 64 {
        Some(MiraiError::DescriptionTooLong)
    } else if dao.governance_settings.is_paused {
        Some(MiraiError::TreasuryPaused)
    } else if total_amount > dao.governance_settings.max_stream_amount {
        Some(MiraiError::StreamAmountExceedsLimit)
    } else if dao.total_allocated.saturating_add(total_amount)
        > dao.governance_settings.max_total_allocation {
        Some(MiraiError::TotalAllocationExceedsLimit)
    } else {
        None
    }
}

/// Creates a vesting grant under `dao`, stored at `dao_key`, releasing
/// `total_amount` to `recipient` on the chosen schedule. For the cliff
/// schedule the cliff must lie between the start and end times; for the
/// linear schedule `cliff_time` is recorded but plays no role.
///
/// On success the treasury records the allocation, the returned grant is
/// well formed and active with nothing claimed, and the returned transfer
/// moves the full amount from the creator into the grant's custody. On any
/// failure the treasury is unchanged and nothing is created.
pub fn create_vesting(
    dao: &mut DaoConfig,
    dao_key: AccountId,
    caller: AccountId,
    recipient: AccountId,
    vesting_ata: AccountId,
    vesting_type: VestingType,
    total_amount: u64,
    start_time: i64,
    end_time: i64,
    cliff_time: i64,
    category: PaymentCategory,
    description: String,
    now: i64,
) -> (result: Result<(Vesting, TransferRequest), MiraiError>)
    ensures
        match result {
            Ok(created) => {
                &&& create_vesting_error(
                    *old(dao),
                    caller,
                    vesting_type,
                    total_amount,
                    start_time,
                    end_time,
                    cliff_time,
                    description@,
                ) is None
                &&& *final(dao) == spec_add_stream(*old(dao), total_amount)
                &&& created.0 == (Vesting {
                    authority: caller,
                    recipient,
                    dao_config: dao_key,
                    treasury_mint: old(dao).treasury_mint,
                    vesting_ata,
                    vesting_type,
                    total_amount,
                    claimed_amount: 0,
                    start_time,
                    end_time,
                    cliff_time,
                    status: VestingStatus::Active,
                    category,
                    description,
                    created_at: now,
                })
                &&& created.0.wf()
                &&& created.1 == (TransferRequest {
                    from: caller,
                    to: vesting_ata,
                    authority: TransferAuthority::Creator(caller),
                    amount: total_amount,
                })
            },
            Err(e) => {
                &&& create_vesting_error(
                    *old(dao),
                    caller,
                    vesting_type,
                    total_amount,
                    start_time,
                    end_time,
                    cliff_time,
                    description@,
                ) == Some(e)
                &&& *final(dao) == *old(dao)
            },
        },
{
    if caller != dao.authority {
        return Err(MiraiError::UnauthorizedVestingCreation);
    }
    if total_amount == 0 {
        return Err(MiraiError::InvalidTotalAmount);
    }
    if start_time >= end_time {
        return Err(MiraiError::InvalidVestingTiming);
    }
    if vesting_type == VestingType::Cliff && !(start_time <= cliff_time && cliff_time <= end_time) {
        return Err(MiraiError::InvalidCliffTiming);
    }
    if description.as_str().unicode_len() > 64 {
        return Err(MiraiError::DescriptionTooLong);
    }
    if !dao.is_treasury_active() {
        return Err(MiraiError::TreasuryPaused);
    }
    if !dao.validate_stream_amount(total_amount) {
        return Err(MiraiError::StreamAmountExceedsLimit);
    }
    if !dao.validate_total_allocation(total_amount) {
        return Err(MiraiError::TotalAllocationExceedsLimit);
    }
    let vesting = Vesting {
        authority: caller,
        recipient,
        dao_config: dao_key,
        treasury_mint: dao.treasury_mint,
        vesting_ata,
        vesting_type,
        total_amount,
        claimed_amount: 0,
        start_time,
        end_time,
        cliff_time,
        status: VestingStatus::Active,
        category,
        description,
        created_at: now,
    };
    dao.add_stream(total_amount);
    let transfer = TransferRequest {
        from: caller,
        to: vesting_ata,
        authority: TransferAuthority::Creator(caller),
        amount: total_amount,
    };
    Ok((vesting, transfer))
}

/// The first reason a claim request is refused, or `None` when the claim is
/// owed.
pub open spec fn claim_vesting_error(
    vesting: Vesting,
    caller: AccountId,
    amount: u64,
    now: i64,
) -> Option<MiraiError> {
    if caller != vesting.recipient {
        Some(MiraiError::UnauthorizedVestingClaim)
    } else if amount == 0 {
        Some(MiraiError::InvalidClaimAmount)
    } else if !(vesting.status is Active) {
        Some(MiraiError::VestingNotActive)
    } else if now < vesting.start_time {
        Some(MiraiError::VestingNotStarted)
    } else if amount > vesting.spec_claimable(now) {
        Some(MiraiError::InsufficientVestedTokens)
    } else {
        None
    }
}

/// Claims `amount` from an active vesting grant at `now`.
///
/// On success the grant's claimed amount grows by exactly `amount`, the grant
/// completes exactly when the total is reached, the treasury records the
/// payment, and the returned transfer moves `amount` from the grant's custody
/// to the recipient under the grant's own authorization. On any failure both
/// records are unchanged.
pub fn claim_vesting(
    dao: &mut DaoConfig,
    vesting: &mut Vesting,
    caller: AccountId,
    amount: u64,
    now: i64,
) -> (result: Result<TransferRequest, MiraiError>)
    requires
        old(vesting).wf(),
    ensures
        match result {
            Ok(transfer) => {
                &&& claim_vesting_error(*old(vesting), caller, amount, now) is None
                &&& *final(vesting) == old(vesting).spec_claim(amount)
                &&& final(vesting).wf()
                &&& *final(dao) == spec_add_payment(*old(dao), amount)
                &&& transfer == (TransferRequest {
                    from: old(vesting).vesting_ata,
                    to: old(vesting).recipient,
                    authority: TransferAuthority::GrantCustody(GrantId {
                        kind: GrantKind::Vesting,
                        treasury: old(vesting).dao_config,
                        recipient: old(vesting).recipient,
                    }),
                    amount,
                })
            },
            Err(e) => {
                &&& claim_vesting_error(*old(vesting), caller, amount, now) == Some(e)
                &&& *final(vesting) == *old(vesting)
                &&& *final(dao) == *old(dao)
            },
        },
{
    if caller != vesting.recipient {
        return Err(MiraiError::UnauthorizedVestingClaim);
    }
    if amount == 0 {
        return Err(MiraiError::InvalidClaimAmount);
    }
    if vesting.status != VestingStatus::Active {
        return Err(MiraiError::VestingNotActive);
    }
    if now < vesting.start_time {
        return Err(MiraiError::VestingNotStarted);
    }
    let claimable = vesting.get_claimable_amount(now);
    if amount > claimable {
        return Err(MiraiError::InsufficientVestedTokens);
    }
    proof {
        lemma_claimable_le_remaining(*vesting, now);
    }
    vesting.claimed_amount = vesting.claimed_amount + amount;
    if vesting.claimed_amount >= vesting.total_amount {
        vesting.status = VestingStatus::Completed;
    }
    dao.add_payment(amount);
    let custody = derive_id(GrantKind::Vesting, vesting.dao_config, vesting.recipient);
    Ok(TransferRequest {
        from: vesting.vesting_ata,
        to: vesting.recipient,
        authority: TransferAuthority::GrantCustody(custody),
        amount,
    })
}

} // verus!
