//! Failure taxonomy shared by every operation.
//!
//! Validation failures (bad timing, non-positive amounts, an over-long
//! description), state failures (a grant or treasury in an incompatible
//! status), authorization failures (the caller is not the expected party) and
//! limit failures (governance caps) are all rejected before any mutation.

use vstd::prelude::*;

verus! {

/// Every way an operation can be refused. No variant is ever produced after a
/// partial state change: an operation that returns one of these has changed
/// nothing.
#[derive(Clone, Copy, Debug, PartialEq, Eq, Structural)]
pub enum MiraiError {
    /// Stream start time is not before its end time.
    InvalidStreamTiming,
    /// A withdrawal was attempted before the stream's start time.
    StreamNotStarted,
    /// The stream's schedule is already over.
    StreamEnded,
    /// The requested withdrawal exceeds what the schedule has unlocked.
    InsufficientUnlockedTokens,
    /// A withdrawal amount must be greater than zero.
    InvalidWithdrawalAmount,
    /// A stream must run for at least one unit of time.
    InvalidStreamDuration,
    /// A grant's total amount must be greater than zero.
    InvalidTotalAmount,
    /// Only the recipient may withdraw from a stream.
    UnauthorizedWithdrawal,
    /// Only the treasury authority may create streams.
    UnauthorizedStreamCreation,
    /// The grant's asset must match the treasury's asset.
    InvalidMint,
    /// The grant does not belong to this treasury.
    InvalidDaoConfig,
    /// A stream for this recipient already exists under this treasury.
    StreamAlreadyExists,
    /// The named custody account does not belong to the grant.
    InvalidTokenAccount,
    /// Treasury operations are currently paused.
    TreasuryPaused,
    /// The grant amount exceeds the per-grant governance cap.
    StreamAmountExceedsLimit,
    /// The grant amount would push the total allocation past its cap.
    TotalAllocationExceedsLimit,
    /// The payment category is not recognized.
    InvalidPaymentCategory,
    /// A description may hold at most 64 characters.
    DescriptionTooLong,
    /// The stream is not in the active status.
    StreamNotActive,
    /// The stream is paused and cannot be modified.
    StreamPaused,
    /// The stream is completed and cannot be modified.
    StreamCompleted,
    /// The stream is cancelled and cannot be modified.
    StreamCancelled,
    /// Only the treasury authority may change governance settings.
    UnauthorizedTreasuryModification,
    /// The proposed governance settings are not acceptable.
    InvalidGovernanceSettings,
    /// The stream's status does not allow the requested modification.
    StreamModificationNotAllowed,
    /// The treasury does not hold enough funds for the operation.
    InsufficientTreasuryBalance,
    /// The requested status transition is not part of the state machine.
    InvalidStatusTransition,
    /// The vesting grant is not in the active status.
    VestingNotActive,
    /// The vesting grant is not paused.
    VestingNotPaused,
    /// The vesting grant is in a terminal status and cannot be cancelled.
    VestingCannotCancel,
    /// Vesting start time is not before its end time.
    InvalidVestingTiming,
    /// A cliff must lie between the vesting start and end times.
    InvalidCliffTiming,
    /// A claim was attempted before the vesting start time.
    VestingNotStarted,
    /// The vesting schedule is already over.
    VestingEnded,
    /// The requested claim exceeds what the schedule has vested.
    InsufficientVestedTokens,
    /// A claim amount must be greater than zero.
    InvalidClaimAmount,
    /// Only the recipient may claim from a vesting grant.
    UnauthorizedVestingClaim,
    /// Only the treasury authority may create vesting grants.
    UnauthorizedVestingCreation,
    /// A vesting grant for this recipient already exists under this treasury.
    VestingAlreadyExists,
    /// The vesting kind is not recognized.
    InvalidVestingType,
}

} // verus!
