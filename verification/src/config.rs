//! The treasury: governance limits, aggregate counters, and the checks that
//! gate grant creation.
//!
//! Aggregate counters only ever grow, and they grow with saturating
//! arithmetic: a counter clamps at the largest representable value instead of
//! wrapping. `total_allocated` in particular is never decremented, not even
//! when a grant is later cancelled.

use vstd::prelude::*;

use crate::error::MiraiError;
use crate::ids::AccountId;

verus! {

/// The purpose a grant serves, recorded on each grant for bookkeeping.
#[derive(Clone, Copy, Debug, PartialEq, Eq, Structural)]
pub enum PaymentCategory {
    Contributors,
    Grants,
    Operations,
    Marketing,
    Development,
    Other,
}

/// Governance limits for one treasury. Every limit defaults to the maximum
/// representable value, meaning "no limit", until the authority tightens it.
#[derive(Clone, Copy, Debug, PartialEq, Eq, Structural)]
pub struct GovernanceSettings {
    /// Whether treasury operations are paused.
    pub is_paused: bool,
    /// The largest amount a single grant may hold.
    pub max_stream_amount: u64,
    /// The largest total ever allocated across all grants.
    pub max_total_allocation: u64,
    /// When the settings were last changed.
    pub last_updated: i64,
}

/// One treasury: the authority and asset it is bound to, its lifetime
/// counters, and its governance settings.
#[derive(Clone, Copy, Debug, PartialEq, Eq, Structural)]
pub struct DaoConfig {
    /// The identity permitted to create grants and change governance.
    pub authority: AccountId,
    /// The asset every grant under this treasury must use.
    pub treasury_mint: AccountId,
    /// How many grants were ever created (monotone, saturating).
    pub total_streams: u32,
    /// The sum of `total_amount` over all grants ever created (monotone,
    /// saturating, never decremented).
    pub total_allocated: u64,
    /// The sum of all amounts actually released to recipients (monotone,
    /// saturating).
    pub total_paid: u64,
    /// The governance limits currently in force.
    pub governance_settings: GovernanceSettings,
    /// When the treasury was created.
    pub created_at: i64,
}

/// The treasury after recording that a grant of `amount` was created.
pub open spec fn spec_add_stream(d: DaoConfig, amount: u64) -> DaoConfig {
    DaoConfig {
        total_streams: d.total_streams.saturating_add(1),
        total_allocated: d.total_allocated.saturating_add(amount),
        ..d
    }
}

/// The treasury after recording that `amount` was released to a recipient.
pub open spec fn spec_add_payment(d: DaoConfig, amount: u64) -> DaoConfig {
    DaoConfig { total_paid: d.total_paid.saturating_add(amount), ..d }
}

/// The treasury after its governance settings were replaced.
pub open spec fn spec_set_governance(d: DaoConfig, settings: GovernanceSettings) -> DaoConfig {
    DaoConfig { governance_settings: settings, ..d }
}

impl DaoConfig {
    /// Governance settings as a fresh treasury starts with: unpaused, with
    /// every limit at its maximum, meaning no limit at all.
    pub fn init_governance_settings() -> (g: GovernanceSettings)
        ensures
            g == (GovernanceSettings {
                is_paused: false,
                max_stream_amount: u64::MAX,
                max_total_allocation: u64::MAX,
                last_updated: 0,
            }),
    {
        GovernanceSettings {
            is_paused: false,
            max_stream_amount: u64::MAX,
            max_total_allocation: u64::MAX,
            last_updated: 0,
        }
    }

    /// Whether treasury operations are allowed: true exactly when governance
    /// has not paused the treasury.
    pub fn is_treasury_active(&self) -> (r: bool)
        ensures
            r == !self.governance_settings.is_paused,
    {
        !self.governance_settings.is_paused
    }

    /// Whether one grant of `amount` is within the per-grant cap.
    pub fn validate_stream_amount(&self, amount: u64) -> (r: bool)
        ensures
            r == (amount <= self.governance_settings.max_stream_amount),
    {
        amount <= self.governance_settings.max_stream_amount
    }

    /// Whether allocating `new_allocation` more would keep the running total
    /// within the treasury-wide cap. The sum saturates, so an amount too
    /// large to represent never wraps around the check.
    pub fn validate_total_allocation(&self, new_allocation: u64) -> (r: bool)
        ensures
            r == (self.total_allocated.saturating_add(new_allocation)
                <= self.governance_settings.max_total_allocation),
    {
        self.total_allocated.saturating_add(new_allocation)
            <= self.governance_settings.max_total_allocation
    }

    /// Records a newly created grant of `amount`: one more grant, `amount`
    /// more allocated, both saturating. Never fails and touches nothing else.
    pub fn add_stream(&mut self, amount: u64)
        ensures
            *final(self) == spec_add_stream(*old(self), amount),
    {
        self.total_streams = self.total_streams.saturating_add(1);
        self.total_allocated = self.total_allocated.saturating_add(amount);
    }

    /// Records that `amount` was released to a recipient, saturating. Never
    /// fails and touches nothing else.
    pub fn add_payment(&mut self, amount: u64)
        ensures
            *final(self) == spec_add_payment(*old(self), amount),
    {
        self.total_paid = self.total_paid.saturating_add(amount);
    }

    /// Replaces the governance settings and stamps them with `now`. Only the
    /// treasury authority may do so; any other caller is refused and nothing
    /// changes.
    pub fn set_governance(
        &mut self,
        caller: AccountId,
        is_paused: bool,
        max_stream_amount: u64,
        max_total_allocation: u64,
        now: i64,
    ) -> (r: Result<(), MiraiError>)
        ensures
            match r {
                Ok(()) => {
                    &&& caller == old(self).authority
                    &&& *final(self) == spec_set_governance(*old(self), (GovernanceSettings {
                        is_paused,
                        max_stream_amount,
                        max_total_allocation,
                        last_updated: now,
                    }))
                },
                Err(e) => {
                    &&& caller != old(self).authority
                    &&& e == MiraiError::UnauthorizedTreasuryModification
                    &&& *final(self) == *old(self)
                },
            },
    {
        if caller != self.authority {
            return Err(MiraiError::UnauthorizedTreasuryModification);
        }
        self.governance_settings = GovernanceSettings {
            is_paused,
            max_stream_amount,
            max_total_allocation,
            last_updated: now,
        };
        Ok(())
    }
}

/// Everything a single call may do to a treasury's own record. Cancelling a
/// grant is listed even though it leaves the treasury untouched, so that
/// sequences over this type cover cancellations too.
#[derive(Clone, Copy, Debug, PartialEq, Eq, Structural)]
pub enum TreasuryOp {
    /// A grant of this amount was created.
    Allocate { amount: u64 },
    /// This amount was released to a recipient.
    Pay { amount: u64 },
    /// The authority replaced the governance settings.
    SetGovernance { settings: GovernanceSettings },
    /// A grant was cancelled: the treasury record does not change.
    CancelGrant,
}

/// The treasury after one operation.
pub open spec fn dao_step(d: DaoConfig, op: TreasuryOp) -> DaoConfig {
    match op {
        TreasuryOp::Allocate { amount } => spec_add_stream(d, amount),
        TreasuryOp::Pay { amount } => spec_add_payment(d, amount),
        TreasuryOp::SetGovernance { settings } => spec_set_governance(d, settings),
        TreasuryOp::CancelGrant => d,
    }
}

/// The treasury after a whole sequence of operations, applied in order.
pub open spec fn dao_run(d: DaoConfig, ops: Seq<TreasuryOp>) -> DaoConfig
    decreases ops.len(),
{
    if ops.len() == 0 {
        d
    } else {
        dao_run(dao_step(d, ops[0]), ops.skip(1))
    }
}

/// `total_allocated` never decreases across any sequence of treasury
/// operations, cancellations included.
pub proof fn lemma_total_allocated_monotonic(d: DaoConfig, ops: Seq<TreasuryOp>)
    ensures
        dao_run(d, ops).total_allocated >= d.total_allocated,
    decreases ops.len(),
{
    if ops.len() > 0 {
        lemma_total_allocated_monotonic(dao_step(d, ops[0]), ops.skip(1));
    }
}

} // verus!
