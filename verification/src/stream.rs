//! A stream: a grant whose amount unlocks linearly between a start and an end
//! time, withdrawn directly by its recipient.
//!
//! Status machine: `Active -> Completed` happens automatically when the
//! withdrawn amount first reaches the total; `Active <-> Paused` and
//! `{Active, Paused} -> Cancelled` are manual. `Completed` and `Cancelled`
//! are terminal: nothing moves a stream out of them and nothing more can be
//! withdrawn.

use vstd::prelude::*;

use crate::config::PaymentCategory;
use crate::ids::AccountId;
use crate::math::{
    compute_unlocked, lemma_unlocked_at_start, lemma_unlocked_bounds, lemma_unlocked_monotonic,
    monus, unlocked_amount,
};

verus! {

/// Where a stream stands in its lifecycle.
#[derive(Clone, Copy, Debug, PartialEq, Eq, Structural)]
pub enum StreamStatus {
    Active,
    Paused,
    Completed,
    Cancelled,
}

/// One linear stream grant.
#[derive(Clone, Debug)]
pub struct Stream {
    /// The treasury this stream belongs to.
    pub dao_config: AccountId,
    /// Who may withdraw the streamed funds.
    pub recipient: AccountId,
    /// Who created the stream.
    pub authority: AccountId,
    /// The asset being streamed; always the treasury's asset.
    pub mint: AccountId,
    /// The purpose this stream serves.
    pub category: PaymentCategory,
    /// A free-form note of at most 64 characters.
    pub description: String,
    /// The full amount the stream will release.
    pub total_amount: u64,
    /// How much has already been withdrawn.
    pub withdrawn_amount: u64,
    /// When the schedule begins.
    pub start_time: i64,
    /// When the schedule ends and the full amount is unlocked.
    pub end_time: i64,
    /// The custody account holding the stream's funds.
    pub stream_ata: AccountId,
    /// Where the stream stands in its lifecycle.
    pub status: StreamStatus,
    /// When the stream was created.
    pub created_at: i64,
}

impl Stream {
    /// What creation-time validation guarantees and every operation
    /// preserves.
    pub open spec fn wf(self) -> bool {
        &&& self.total_amount > 0
        &&& self.start_time < self.end_time
        &&& self.withdrawn_amount <= self.total_amount
        &&& self.description@.len() <= 64
    }

    /// The amount withdrawable at `now`: nothing while paused or cancelled or
    /// before the start, the whole remainder from the end onward, and in
    /// between the linearly unlocked share less what was already withdrawn,
    /// never below zero.
    pub open spec fn spec_withdrawable(self, now: i64) -> int {
        if self.status is Paused || self.status is Cancelled {
            0
        } else if now < self.start_time {
            0
        } else if now >= self.end_time {
            monus(self.total_amount as int, self.withdrawn_amount as int)
        } else {
            monus(
                unlocked_amount(self.total_amount, self.start_time, self.end_time, now),
                self.withdrawn_amount as int,
            )
        }
    }

    /// Computes the withdrawable amount at `current_time`.
    pub fn get_withdrawable_amount(&self, current_time: i64) -> (r: u64)
        ensures
            r == self.spec_withdrawable(current_time),
    {
        if self.status == StreamStatus::Paused || self.status == StreamStatus::Cancelled {
            return 0;
        }
        if current_time < self.start_time {
            return 0;
        }
        if current_time >= self.end_time {
            return self.total_amount.saturating_sub(self.withdrawn_amount);
        }
        let unlocked = compute_unlocked(
            self.total_amount,
            self.start_time,
            self.end_time,
            current_time,
        );
        unlocked.saturating_sub(self.withdrawn_amount)
    }

    /// Whether the stream is live at `current_time`: active in status and
    /// inside its schedule window.
    pub fn is_active(&self, current_time: i64) -> (r: bool)
        ensures
            r == (self.status is Active && self.start_time <= current_time < self.end_time),
    {
        self.status == StreamStatus::Active && current_time >= self.start_time && current_time
            < self.end_time
    }

    /// Whether the schedule window is over.
    pub fn has_ended(&self, current_time: i64) -> (r: bool)
        ensures
            r == (current_time >= self.end_time),
    {
        current_time >= self.end_time
    }

    /// Whether manual status changes are possible from the current status.
    pub fn can_modify(&self) -> (r: bool)
        ensures
            r == (self.status is Active),
    {
        self.status == StreamStatus::Active
    }

    /// Pauses an active stream; from any other status nothing changes.
    pub fn pause(&mut self)
        ensures
            old(self).status is Active ==> *final(self) == (Stream {
                status: StreamStatus::Paused,
                ..*old(self)
            }),
            !(old(self).status is Active) ==> *final(self) == *old(self),
    {
        if self.status == StreamStatus::Active {
            self.status = StreamStatus::Paused;
        }
    }

    /// Resumes a paused stream; from any other status nothing changes.
    pub fn resume(&mut self)
        ensures
            old(self).status is Paused ==> *final(self) == (Stream {
                status: StreamStatus::Active,
                ..*old(self)
            }),
            !(old(self).status is Paused) ==> *final(self) == *old(self),
    {
        if self.status == StreamStatus::Paused {
            self.status = StreamStatus::Active;
        }
    }

    /// Marks an active stream completed; the terminal statuses are permanent,
    /// so from any other status nothing changes.
    pub fn complete(&mut self)
        ensures
            old(self).status is Active ==> *final(self) == (Stream {
                status: StreamStatus::Completed,
                ..*old(self)
            }),
            !(old(self).status is Active) ==> *final(self) == *old(self),
    {
        if self.status == StreamStatus::Active {
            self.status = StreamStatus::Completed;
        }
    }

    /// Cancels an active or paused stream; the terminal statuses are
    /// permanent, so from any other status nothing changes.
    pub fn cancel(&mut self)
        ensures
            (old(self).status is Active || old(self).status is Paused) ==> *final(self)
                == (Stream { status: StreamStatus::Cancelled, ..*old(self) }),
            !(old(self).status is Active || old(self).status is Paused) ==> *final(self) == *old(
                self,
            ),
    {
        if self.status == StreamStatus::Active || self.status == StreamStatus::Paused {
            self.status = StreamStatus::Cancelled;
        }
    }

    /// The amount not yet withdrawn, never below zero.
    pub fn get_remaining_amount(&self) -> (r: u64)
        ensures
            r == monus(self.total_amount as int, self.withdrawn_amount as int),
    {
        self.total_amount.saturating_sub(self.withdrawn_amount)
    }

    /// How far along the schedule is at `now`, in whole percent, by time
    /// alone: 0 before the start, 100 from the end onward, the elapsed share
    /// of the window in between.
    pub open spec fn spec_progress(self, now: i64) -> int {
        if now < self.start_time {
            0
        } else if now >= self.end_time {
            100
        } else {
            100 * (now - self.start_time) / (self.end_time - self.start_time)
        }
    }

    /// Computes the schedule progress at `current_time` in whole percent.
    pub fn get_progress_percentage(&self, current_time: i64) -> (r: u8)
        ensures
            r == self.spec_progress(current_time),
            r <= 100,
    {
        if current_time < self.start_time {
            return 0;
        }
        if current_time >= self.end_time {
            return 100;
        }
        let elapsed: u128 = (current_time as i128 - self.start_time as i128) as u128;
        let duration: u128 = (self.end_time as i128 - self.start_time as i128) as u128;
        let progress: u128 = elapsed * 100 / duration;
        proof {
            lemma_unlocked_bounds(100, self.start_time, self.end_time, current_time);
            vstd::arithmetic::mul::lemma_mul_is_commutative(100int, current_time - self.start_time);
        }
        if progress > 100 {
            100
        } else {
            progress as u8
        }
    }

    /// Whether a release of `amount` at `now` passes every gate: a positive
    /// amount, a schedule that has started, an active status, and no more
    /// than what is withdrawable.
    pub open spec fn spec_release_allowed(self, amount: u64, now: i64) -> bool {
        &&& amount > 0
        &&& now >= self.start_time
        &&& self.status is Active
        &&& amount <= self.spec_withdrawable(now)
    }

    /// The stream after a successful release of `amount`: the withdrawn
    /// amount grows by exactly `amount`, and the stream completes exactly
    /// when the total is reached.
    pub open spec fn spec_release(self, amount: u64) -> Stream {
        Stream {
            withdrawn_amount: (self.withdrawn_amount + amount) as u64,
            status: if self.withdrawn_amount + amount >= self.total_amount {
                StreamStatus::Completed
            } else {
                self.status
            },
            ..self
        }
    }
}

/// The withdrawable amount never exceeds what is left of the total.
pub proof fn lemma_withdrawable_le_remaining(s: Stream, now: i64)
    requires
        s.wf(),
    ensures
        s.spec_withdrawable(now) <= s.total_amount - s.withdrawn_amount,
{
    if !(s.status is Paused || s.status is Cancelled) && now >= s.start_time && now < s.end_time {
        lemma_unlocked_bounds(s.total_amount, s.start_time, s.end_time, now);
    }
}

/// The withdrawable amount is non-decreasing as time advances, holding the
/// withdrawn amount and status fixed.
pub proof fn lemma_withdrawable_monotonic(s: Stream, t1: i64, t2: i64)
    requires
        s.wf(),
        t1 <= t2,
    ensures
        s.spec_withdrawable(t1) <= s.spec_withdrawable(t2),
{
    if s.status is Paused || s.status is Cancelled {
    } else if t1 < s.start_time {
        lemma_withdrawable_nonnegative(s, t2);
    } else if t2 >= s.end_time {
        if t1 < s.end_time {
            lemma_unlocked_bounds(s.total_amount, s.start_time, s.end_time, t1);
        }
    } else {
        lemma_unlocked_monotonic(s.total_amount, s.start_time, s.end_time, t1, t2);
    }
}

/// The withdrawable amount is never negative.
pub proof fn lemma_withdrawable_nonnegative(s: Stream, now: i64)
    ensures
        s.spec_withdrawable(now) >= 0,
{
}

/// For a stream that is neither paused nor cancelled, nothing is withdrawable
/// at the start time, and at the end time exactly the remainder is.
pub proof fn lemma_withdrawable_at_boundaries(s: Stream)
    requires
        s.wf(),
        !(s.status is Paused),
        !(s.status is Cancelled),
    ensures
        s.spec_withdrawable(s.start_time) == 0,
        s.spec_withdrawable(s.end_time) == s.total_amount - s.withdrawn_amount,
{
    lemma_unlocked_at_start(s.total_amount, s.start_time, s.end_time);
}

/// One successful release keeps the stream well formed, adds exactly its
/// amount to the withdrawn total, and completes the stream exactly when the
/// withdrawn amount first equals the total.
pub proof fn lemma_release_step(s: Stream, amount: u64, now: i64)
    requires
        s.wf(),
        s.spec_release_allowed(amount, now),
    ensures
        s.spec_release(amount).wf(),
        s.spec_release(amount).withdrawn_amount == s.withdrawn_amount + amount,
        s.spec_release(amount).total_amount == s.total_amount,
        s.spec_release(amount).status is Completed <==> s.withdrawn_amount + amount
            == s.total_amount,
{
    lemma_withdrawable_le_remaining(s, now);
}

/// Whether every release in `steps`, applied in order, passes every gate.
pub open spec fn releases_allowed(s: Stream, steps: Seq<(u64, i64)>) -> bool
    decreases steps.len(),
{
    steps.len() == 0 || (s.spec_release_allowed(steps[0].0, steps[0].1) && releases_allowed(
        s.spec_release(steps[0].0),
        steps.skip(1),
    ))
}

/// The stream after the releases in `steps`, applied in order.
pub open spec fn apply_releases(s: Stream, steps: Seq<(u64, i64)>) -> Stream
    decreases steps.len(),
{
    if steps.len() == 0 {
        s
    } else {
        apply_releases(s.spec_release(steps[0].0), steps.skip(1))
    }
}

/// The sum of the amounts in `steps`.
pub open spec fn sum_amounts(steps: Seq<(u64, i64)>) -> int
    decreases steps.len(),
{
    if steps.len() == 0 {
        0
    } else {
        steps[0].0 + sum_amounts(steps.skip(1))
    }
}

/// Across any sequence of successful releases, the released amounts sum to no
/// more than the total; the stream stays well formed; and it ends up
/// completed exactly when the withdrawn amount has reached the total.
pub proof fn lemma_release_sequence(s: Stream, steps: Seq<(u64, i64)>)
    requires
        s.wf(),
        releases_allowed(s, steps),
    ensures
        apply_releases(s, steps).wf(),
        apply_releases(s, steps).total_amount == s.total_amount,
        apply_releases(s, steps).withdrawn_amount == s.withdrawn_amount + sum_amounts(steps),
        sum_amounts(steps) <= s.total_amount - s.withdrawn_amount,
        sum_amounts(steps) <= s.total_amount,
        steps.len() > 0 ==> (apply_releases(s, steps).status is Completed <==> s.withdrawn_amount
            + sum_amounts(steps) == s.total_amount),
    decreases steps.len(),
{
    if steps.len() > 0 {
        lemma_release_step(s, steps[0].0, steps[0].1);
        lemma_release_sequence(s.spec_release(steps[0].0), steps.skip(1));
    }
}

} // verus!
