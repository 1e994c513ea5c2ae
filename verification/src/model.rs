//! The records the claim core reads and writes, and its error taxonomy.

use vstd::prelude::*;

verus! {

/// The deposit backing a stake position. Only the total deposited amount
/// matters to the share calculation; the deposit's lockup enters the core
/// as the externally computed seconds since its expiry.
#[derive(Clone, Copy, Debug, PartialEq, Eq, Structural)]
pub struct Deposit {
    pub amount_deposited_native: u64,
}

/// Per-staker, per-deposit claim record. `last_claimed_epoch` is the claim
/// cursor: the sequencer alone mutates it, once per successful claim.
#[derive(Clone, Copy, Debug, PartialEq, Eq, Structural)]
pub struct StakePosition {
    /// Amount of the deposit attributed to this position.
    pub hnt_amount: u64,
    /// Linear decay of this position's weight per second before lockup expiry.
    pub fall_rate: u64,
    /// The last epoch this position successfully claimed.
    pub last_claimed_epoch: u64,
}

/// Per-epoch totals, finalized by an external close process before any claim
/// for the epoch is admitted, and immutable thereafter.
#[derive(Clone, Copy, Debug, PartialEq, Eq, Structural)]
pub struct EpochInfo {
    pub epoch: u64,
    /// Sum of all positions' weights at the epoch's close.
    pub total_vehnt: u64,
    /// Total reward units allocated to the epoch.
    pub staking_rewards_issued: u64,
}

/// A claim request: which deposit of the caller, and which epoch.
#[derive(Clone, Copy, Debug, PartialEq, Eq, Structural)]
pub struct ClaimRewardsArgsV0 {
    pub deposit_entry_idx: u8,
    pub epoch: u64,
}

/// Why a claim was refused. Every failure aborts the whole claim; no state
/// is left half-updated.
#[derive(Clone, Copy, Debug, PartialEq, Eq, Structural)]
pub enum ClaimError {
    /// The requested epoch has not fully elapsed yet.
    EpochNotOver,
    /// The requested epoch is not exactly the cursor's successor.
    InvalidClaimEpoch,
    /// Overflow or division by zero in the reward computation.
    ArithmeticFailure,
    /// The payout gateway refused the transfer.
    RateLimitExceeded,
}

/// What the external rate-limited payout gateway reported for a transfer.
#[derive(Clone, Copy, Debug, PartialEq, Eq, Structural)]
pub enum TransferOutcome {
    Transferred,
    RateLimitExceeded,
}

/// Which value the claim cursor is advanced to on success.
///
/// `ClaimedEpoch` advances to the epoch just claimed, keeping claims strictly
/// sequential. `CurrentEpoch` advances to the epoch that is open at claim
/// time; when a staker claims late this skips the epochs in between, so the
/// two modes genuinely diverge. Both are offered, gated by configuration.
#[derive(Clone, Copy, Debug, PartialEq, Eq, Structural)]
pub enum CursorUpdate {
    ClaimedEpoch,
    CurrentEpoch,
}

/// Runtime configuration of the sequencer. `testing` disables the epoch
/// guards and substitutes the current time for the epoch boundary, so that
/// a harness can exercise the arithmetic without waiting out an epoch.
#[derive(Clone, Copy, Debug, PartialEq, Eq, Structural)]
pub struct ClaimConfig {
    pub testing: bool,
    pub cursor_update: CursorUpdate,
}

} // verus!
