//! A vesting grant: a grant whose amount unlocks either linearly over the
//! whole schedule, or linearly between a cliff and the end with nothing
//! claimable before the cliff. The recipient claims explicitly.
//!
//! Status machine: `Active -> Completed` happens automatically when the
//! claimed amount first reaches the total; `Active <-> Paused` and
//! `{Active, Paused} -> Cancelled` are manual. `Completed` and `Cancelled`
//! are terminal. All unlock arithmetic is integer arithmetic over a wide
//! intermediate — never floating point, whose rounding would differ across
//! numeric environments.

use vstd::prelude::*;

use crate::config::PaymentCategory;
use crate::error::MiraiError;
use crate::ids::AccountId;
use crate::math::{
    compute_unlocked, lemma_unlocked_at_start, lemma_unlocked_bounds, lemma_unlocked_monotonic,
    monus, unlocked_amount,
};
use crate::stream::sum_amounts;
use vstd::arithmetic::div_mod::{lemma_div_is_ordered, lemma_div_multiples_vanish};
use vstd::arithmetic::mul::{lemma_mul_inequality, lemma_mul_is_commutative};

verus! {

/// Which unlock schedule the grant follows, chosen at creation and immutable
/// thereafter.
#[derive(Clone, Copy, Debug, PartialEq, Eq, Structural)]
pub enum VestingType {
    Linear,
    Cliff,
}

/// Where a vesting grant stands in its lifecycle.
#[derive(Clone, Copy, Debug, PartialEq, Eq, Structural)]
pub enum VestingStatus {
    Active,
    Paused,
    Completed,
    Cancelled,
}

/// One vesting grant.
#[derive(Clone, Debug)]
pub struct Vesting {
    /// Who created the grant.
    pub authority: AccountId,
    /// Who may claim the vested funds.
    pub recipient: AccountId,
    /// The treasury this grant belongs to.
    pub dao_config: AccountId,
    /// The asset being vested; always the treasury's asset.
    pub treasury_mint: AccountId,
    /// The custody account holding the grant's funds.
    pub vesting_ata: AccountId,
    /// Which unlock schedule the grant follows.
    pub vesting_type: VestingType,
    /// The full amount the grant will release.
    pub total_amount: u64,
    /// How much has already been claimed.
    pub claimed_amount: u64,
    /// When the schedule begins.
    pub start_time: i64,
    /// When the schedule ends and the full amount is unlocked.
    pub end_time: i64,
    /// Before this moment nothing is claimable; meaningful only for the
    /// cliff schedule, where it lies between the start and end times.
    pub cliff_time: i64,
    /// Where the grant stands in its lifecycle.
    pub status: VestingStatus,
    /// The purpose this grant serves.
    pub category: PaymentCategory,
    /// A free-form note of at most 64 characters.
    pub description: String,
    /// When the grant was created.
    pub created_at: i64,
}

impl Vesting {
    /// What creation-time validation guarantees and every operation
    /// preserves.
    pub open spec fn wf(self) -> bool {
        &&& self.total_amount > 0
        &&& self.start_time < self.end_time
        &&& self.claimed_amount <= self.total_amount
        &&& self.description@.len() <= 64
        &&& self.vesting_type is Cliff ==> self.start_time <= self.cliff_time <= self.end_time
    }

    /// The linearly claimable amount at `now`, ignoring status: the whole
    /// remainder from the end onward, otherwise the unlocked share less what
    /// was already claimed, never below zero.
    pub open spec fn spec_linear_claimable(self, now: i64) -> int
        recommends
            now >= self.start_time,
    {
        if now >= self.end_time {
            monus(self.total_amount as int, self.claimed_amount as int)
        } else {
            monus(
                unlocked_amount(self.total_amount, self.start_time, self.end_time, now),
                self.claimed_amount as int,
            )
        }
    }

    /// The cliff-gated claimable amount at `now`, ignoring status: nothing
    /// before the cliff, the whole remainder from the end onward, and in
    /// between the share unlocked linearly from the cliff to the end, less
    /// what was already claimed, never below zero.
    pub open spec fn spec_cliff_claimable(self, now: i64) -> int {
        if now < self.cliff_time {
            0
        } else if now >= self.end_time {
            monus(self.total_amount as int, self.claimed_amount as int)
        } else {
            monus(
                unlocked_amount(self.total_amount, self.cliff_time, self.end_time, now),
                self.claimed_amount as int,
            )
        }
    }

    /// The amount claimable at `now`: zero whenever the grant is not active
    /// or the schedule has not started, otherwise whatever the grant's
    /// schedule kind has unlocked and not yet been claimed.
    pub open spec fn spec_claimable(self, now: i64) -> int {
        if !(self.status is Active) {
            0
        } else if now < self.start_time {
            0
        } else if self.vesting_type is Linear {
            self.spec_linear_claimable(now)
        } else {
            self.spec_cliff_claimable(now)
        }
    }

    /// Computes the claimable amount at `current_time`.
    pub fn get_claimable_amount(&self, current_time: i64) -> (r: u64)
        requires
            self.wf(),
        ensures
            r == self.spec_claimable(current_time),
    {
        if self.status != VestingStatus::Active {
            return 0;
        }
        if current_time < self.start_time {
            return 0;
        }
        match self.vesting_type {
            VestingType::Linear => self.get_linear_claimable(current_time),
            VestingType::Cliff => self.get_cliff_claimable(current_time),
        }
    }

    /// The linear schedule's claimable amount, once the schedule has started.
    fn get_linear_claimable(&self, current_time: i64) -> (r: u64)
        requires
            self.wf(),
            current_time >= self.start_time,
        ensures
            r == self.spec_linear_claimable(current_time),
    {
        if current_time >= self.end_time {
            return self.total_amount - self.claimed_amount;
        }
        let vested = compute_unlocked(
            self.total_amount,
            self.start_time,
            self.end_time,
            current_time,
        );
        if vested > self.claimed_amount {
            vested - self.claimed_amount
        } else {
            0
        }
    }

    /// The cliff schedule's claimable amount, once the schedule has started.
    fn get_cliff_claimable(&self, current_time: i64) -> (r: u64)
        requires
            self.wf(),
            self.vesting_type is Cliff,
            current_time >= self.start_time,
        ensures
            r == self.spec_cliff_claimable(current_time),
    {
        if current_time < self.cliff_time {
            return 0;
        }
        if current_time >= self.end_time {
            return self.total_amount - self.claimed_amount;
        }
        let vested = compute_unlocked(
            self.total_amount,
            self.cliff_time,
            self.end_time,
            current_time,
        );
        if vested > self.claimed_amount {
            vested - self.claimed_amount
        } else {
            0
        }
    }

    /// Whether the grant is in the active status.
    pub fn is_active(&self) -> (r: bool)
        ensures
            r == (self.status is Active),
    {
        self.status == VestingStatus::Active
    }

    /// Whether a claim is possible at all at `current_time`: the grant is
    /// active and something is claimable.
    pub fn can_claim(&self, current_time: i64) -> (r: bool)
        requires
            self.wf(),
        ensures
            r == (self.status is Active && self.spec_claimable(current_time) > 0),
    {
        self.is_active() && self.get_claimable_amount(current_time) > 0
    }

    /// How far along the grant is at `now`, in whole percent of the total:
    /// what has vested (claimable plus already claimed) over the total.
    pub open spec fn spec_progress(self, now: i64) -> int
        recommends
            self.total_amount > 0,
    {
        100 * (self.spec_claimable(now) + self.claimed_amount) / (self.total_amount as int)
    }

    /// Computes the grant's progress at `current_time` in whole percent,
    /// with the same integer-only discipline as the unlock arithmetic.
    pub fn get_progress_percentage(&self, current_time: i64) -> (r: u8)
        requires
            self.wf(),
        ensures
            r == self.spec_progress(current_time),
            r <= 100,
    {
        let claimable = self.get_claimable_amount(current_time);
        proof {
            lemma_claimable_le_remaining(*self, current_time);
            lemma_claimable_nonnegative(*self, current_time);
        }
        let vested: u64 = claimable + self.claimed_amount;
        let wide: u128 = 100 * (vested as u128) / (self.total_amount as u128);
        proof {
            lemma_mul_inequality(vested as int, self.total_amount as int, 100int);
            lemma_mul_is_commutative(100int, vested as int);
            lemma_mul_is_commutative(100int, self.total_amount as int);
            lemma_div_is_ordered(
                100 * (vested as int),
                100 * (self.total_amount as int),
                self.total_amount as int,
            );
            lemma_div_multiples_vanish(100int, self.total_amount as int);
        }
        wide as u8
    }

    /// Pauses an active grant; from any other status the call is refused and
    /// nothing changes.
    pub fn pause(&mut self) -> (r: Result<(), MiraiError>)
        ensures
            match r {
                Ok(()) => {
                    &&& old(self).status is Active
                    &&& *final(self) == (Vesting { status: VestingStatus::Paused, ..*old(self) })
                },
                Err(e) => {
                    &&& !(old(self).status is Active)
                    &&& e == MiraiError::VestingNotActive
                    &&& *final(self) == *old(self)
                },
            },
    {
        if self.status != VestingStatus::Active {
            return Err(MiraiError::VestingNotActive);
        }
        self.status = VestingStatus::Paused;
        Ok(())
    }

    /// Resumes a paused grant; from any other status the call is refused and
    /// nothing changes.
    pub fn resume(&mut self) -> (r: Result<(), MiraiError>)
        ensures
            match r {
                Ok(()) => {
                    &&& old(self).status is Paused
                    &&& *final(self) == (Vesting { status: VestingStatus::Active, ..*old(self) })
                },
                Err(e) => {
                    &&& !(old(self).status is Paused)
                    &&& e == MiraiError::VestingNotPaused
                    &&& *final(self) == *old(self)
                },
            },
    {
        if self.status != VestingStatus::Paused {
            return Err(MiraiError::VestingNotPaused);
        }
        self.status = VestingStatus::Active;
        Ok(())
    }

    /// Cancels an active or paused grant; the terminal statuses are
    /// permanent, so from either of them the call is refused and nothing
    /// changes.
    pub fn cancel(&mut self) -> (r: Result<(), MiraiError>)
        ensures
            match r {
                Ok(()) => {
                    &&& old(self).status is Active || old(self).status is Paused
                    &&& *final(self) == (Vesting { status: VestingStatus::Cancelled, ..*old(self) })
                },
                Err(e) => {
                    &&& !(old(self).status is Active || old(self).status is Paused)
                    &&& e == MiraiError::VestingCannotCancel
                    &&& *final(self) == *old(self)
                },
            },
    {
        if self.status == VestingStatus::Active || self.status == VestingStatus::Paused {
            self.status = VestingStatus::Cancelled;
            Ok(())
        } else {
            Err(MiraiError::VestingCannotCancel)
        }
    }

    /// Whether a claim of `amount` at `now` passes every gate: a positive
    /// amount, an active status, a schedule that has started, and no more
    /// than what is claimable.
    pub open spec fn spec_claim_allowed(self, amount: u64, now: i64) -> bool {
        &&& amount > 0
        &&& self.status is Active
        &&& now >= self.start_time
        &&& amount <= self.spec_claimable(now)
    }

    /// The grant after a successful claim of `amount`: the claimed amount
    /// grows by exactly `amount`, and the grant completes exactly when the
    /// total is reached.
    pub open spec fn spec_claim(self, amount: u64) -> Vesting {
        Vesting {
            claimed_amount: (self.claimed_amount + amount) as u64,
            status: if self.claimed_amount + amount >= self.total_amount {
                VestingStatus::Completed
            } else {
                self.status
            },
            ..self
        }
    }
}

/// The claimable amount is never negative.
pub proof fn lemma_claimable_nonnegative(v: Vesting, now: i64)
    ensures
        v.spec_claimable(now) >= 0,
{
}

/// The claimable amount never exceeds what is left of the total.
pub proof fn lemma_claimable_le_remaining(v: Vesting, now: i64)
    requires
        v.wf(),
    ensures
        v.spec_claimable(now) <= v.total_amount - v.claimed_amount,
{
    if v.status is Active && now >= v.start_time {
        if v.vesting_type is Linear {
            if now < v.end_time {
                lemma_unlocked_bounds(v.total_amount, v.start_time, v.end_time, now);
            }
        } else {
            if v.cliff_time <= now < v.end_time {
                lemma_unlocked_bounds(v.total_amount, v.cliff_time, v.end_time, now);
            }
        }
    }
}

/// The claimable amount is non-decreasing as time advances, holding the
/// claimed amount and status fixed — in particular it never jumps downward,
/// not even at the cliff or at the end of the schedule.
pub proof fn lemma_claimable_monotonic(v: Vesting, t1: i64, t2: i64)
    requires
        v.wf(),
        t1 <= t2,
    ensures
        v.spec_claimable(t1) <= v.spec_claimable(t2),
{
    if !(v.status is Active) {
    } else if t1 < v.start_time {
        lemma_claimable_nonnegative(v, t2);
    } else if v.vesting_type is Linear {
        if t2 >= v.end_time {
            if t1 < v.end_time {
                lemma_unlocked_bounds(v.total_amount, v.start_time, v.end_time, t1);
            }
        } else {
            lemma_unlocked_monotonic(v.total_amount, v.start_time, v.end_time, t1, t2);
        }
    } else {
        if t1 < v.cliff_time {
            lemma_claimable_nonnegative(v, t2);
        } else if t2 >= v.end_time {
            if t1 < v.end_time {
                lemma_unlocked_bounds(v.total_amount, v.cliff_time, v.end_time, t1);
            }
        } else {
            lemma_unlocked_monotonic(v.total_amount, v.cliff_time, v.end_time, t1, t2);
        }
    }
}

/// Before the cliff of a cliff-vesting grant nothing is claimable, whatever
/// the elapsed time, the claimed amount, or the status.
pub proof fn lemma_cliff_claimable_before_cliff(v: Vesting, t: i64)
    requires
        v.vesting_type is Cliff,
        t < v.cliff_time,
    ensures
        v.spec_claimable(t) == 0,
{
}

/// For an active grant, nothing is claimable at the start time, and at the
/// end time exactly the remainder is.
pub proof fn lemma_claimable_at_boundaries(v: Vesting)
    requires
        v.wf(),
        v.status is Active,
    ensures
        v.spec_claimable(v.start_time) == 0,
        v.spec_claimable(v.end_time) == v.total_amount - v.claimed_amount,
{
    if v.vesting_type is Linear {
        lemma_unlocked_at_start(v.total_amount, v.start_time, v.end_time);
    } else {
        if v.cliff_time == v.start_time {
            lemma_unlocked_at_start(v.total_amount, v.cliff_time, v.end_time);
        }
    }
}

/// One successful claim keeps the grant well formed, adds exactly its amount
/// to the claimed total, and completes the grant exactly when the claimed
/// amount first equals the total.
pub proof fn lemma_claim_step(v: Vesting, amount: u64, now: i64)
    requires
        v.wf(),
        v.spec_claim_allowed(amount, now),
    ensures
        v.spec_claim(amount).wf(),
        v.spec_claim(amount).claimed_amount == v.claimed_amount + amount,
        v.spec_claim(amount).total_amount == v.total_amount,
        v.spec_claim(amount).status is Completed <==> v.claimed_amount + amount == v.total_amount,
{
    lemma_claimable_le_remaining(v, now);
}

/// Whether every claim in `steps`, applied in order, passes every gate.
pub open spec fn claims_allowed(v: Vesting, steps: Seq<(u64, i64)>) -> bool
    decreases steps.len(),
{
    steps.len() == 0 || (v.spec_claim_allowed(steps[0].0, steps[0].1) && claims_allowed(
        v.spec_claim(steps[0].0),
        steps.skip(1),
    ))
}

/// The grant after the claims in `steps`, applied in order.
pub open spec fn apply_claims(v: Vesting, steps: Seq<(u64, i64)>) -> Vesting
    decreases steps.len(),
{
    if steps.len() == 0 {
        v
    } else {
        apply_claims(v.spec_claim(steps[0].0), steps.skip(1))
    }
}

/// Across any sequence of successful claims, the claimed amounts sum to no
/// more than the total; the grant stays well formed; and it ends up completed
/// exactly when the claimed amount has reached the total.
pub proof fn lemma_claim_sequence(v: Vesting, steps: Seq<(u64, i64)>)
    requires
        v.wf(),
        claims_allowed(v, steps),
    ensures
        apply_claims(v, steps).wf(),
        apply_claims(v, steps).total_amount == v.total_amount,
        apply_claims(v, steps).claimed_amount == v.claimed_amount + sum_amounts(steps),
        sum_amounts(steps) <= v.total_amount - v.claimed_amount,
        sum_amounts(steps) <= v.total_amount,
        steps.len() > 0 ==> (apply_claims(v, steps).status is Completed <==> v.claimed_amount
            + sum_amounts(steps) == v.total_amount),
    decreases steps.len(),
{
    if steps.len() > 0 {
        lemma_claim_step(v, steps[0].0, steps[0].1);
        lemma_claim_sequence(v.spec_claim(steps[0].0), steps.skip(1));
    }
}

} // verus!
