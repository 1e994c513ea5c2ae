//! The claim sequencer: epoch-finality and strict-order guards, the full
//! claim computation, and the atomic cursor commit.

use vstd::prelude::*;

use crate::allocator::{allocation, allocation_defined, epoch_reward};
use crate::epoch::{current_epoch, spec_current_epoch};
use crate::model::{
    ClaimConfig, ClaimError, ClaimRewardsArgsV0, CursorUpdate, Deposit, EpochInfo, StakePosition,
    TransferOutcome,
};
use crate::share::{position_weight, weight_share, weight_share_defined};

verus! {

/// What the transition guards say of a request for `epoch` at time `now`,
/// against a cursor standing at `last_claimed_epoch`. An epoch may be
/// claimed only once it has fully elapsed (its totals are not final
/// before), and only as the cursor's immediate successor — no gaps, no
/// repeats. The testing configuration waives both guards.
pub open spec fn guard_result(
    last_claimed_epoch: int,
    epoch: int,
    now: int,
    testing: bool,
) -> Result<(), ClaimError> {
    if testing {
        Ok(())
    } else if epoch >= spec_current_epoch(now) {
        Err(ClaimError::EpochNotOver)
    } else if epoch != last_claimed_epoch + 1 {
        Err(ClaimError::InvalidClaimEpoch)
    } else {
        Ok(())
    }
}

/// Where the cursor stands after a successful claim: at the epoch just
/// claimed, or at the epoch open at claim time, per configuration.
pub open spec fn next_cursor(epoch: int, now: int, mode: CursorUpdate) -> int {
    match mode {
        CursorUpdate::ClaimedEpoch => epoch,
        CursorUpdate::CurrentEpoch => spec_current_epoch(now),
    }
}

/// The outcome of the whole claim computation, before the payout: the
/// share calculation's failure comes first, then the guards in order,
/// then the allocation.
pub open spec fn claim_outcome(
    position: StakePosition,
    deposit: Deposit,
    epoch_info: EpochInfo,
    available_weight: int,
    since_expiry: int,
    epoch: int,
    now: int,
    testing: bool,
) -> Result<u64, ClaimError> {
    if !weight_share_defined(
        available_weight,
        position.hnt_amount as int,
        deposit.amount_deposited_native as int,
    ) {
        Err(ClaimError::ArithmeticFailure)
    } else {
        let w = weight_share(
            available_weight,
            position.hnt_amount as int,
            deposit.amount_deposited_native as int,
        );
        match guard_result(position.last_claimed_epoch as int, epoch, now, testing) {
            Err(e) => Err(e),
            Ok(()) => if !allocation_defined(
                w,
                position.fall_rate as int,
                epoch,
                now,
                since_expiry,
                epoch_info.staking_rewards_issued as int,
                epoch_info.total_vehnt as int,
                testing,
            ) {
                Err(ClaimError::ArithmeticFailure)
            } else {
                Ok(
                    allocation(
                        w,
                        position.fall_rate as int,
                        epoch,
                        now,
                        since_expiry,
                        epoch_info.staking_rewards_issued as int,
                        epoch_info.total_vehnt as int,
                        testing,
                    ) as u64,
                )
            },
        }
    }
}

/// Checks the two transition guards for a request, in the order the
/// errors are reported: epoch finality first, then strict sequence.
pub fn check_claim(position: &StakePosition, epoch: u64, now: i64, testing: bool) -> (r: Result<
    (),
    ClaimError,
>)
    requires
        0 <= now,
    ensures
        r == guard_result(position.last_claimed_epoch as int, epoch as int, now as int, testing),
{
    if testing {
        return Ok(());
    }
    let open_epoch = current_epoch(now);
    if epoch >= open_epoch {
        return Err(ClaimError::EpochNotOver);
    }
    if position.last_claimed_epoch == u64::MAX || epoch != position.last_claimed_epoch + 1 {
        return Err(ClaimError::InvalidClaimEpoch);
    }
    Ok(())
}

/// Validates the request and computes the reward owed, mutating nothing:
/// the position's share of the deposit's weight, the guards, then the
/// back-projected allocation.
pub fn compute_claim(
    position: &StakePosition,
    deposit: &Deposit,
    epoch_info: &EpochInfo,
    available_weight: u64,
    since_expiry: u64,
    epoch: u64,
    now: i64,
    testing: bool,
) -> (r: Result<u64, ClaimError>)
    requires
        0 <= now,
        epoch_info.epoch == epoch,
    ensures
        r == claim_outcome(
            *position,
            *deposit,
            *epoch_info,
            available_weight as int,
            since_expiry as int,
            epoch as int,
            now as int,
            testing,
        ),
{
    let curr_position_vehnt = match position_weight(
        available_weight,
        position.hnt_amount,
        deposit.amount_deposited_native,
    ) {
        Err(e) => {
            return Err(e);
        },
        Ok(w) => w,
    };
    match check_claim(position, epoch, now, testing) {
        Err(e) => {
            return Err(e);
        },
        Ok(()) => {},
    }
    epoch_reward(
        curr_position_vehnt,
        position.fall_rate,
        epoch,
        now,
        since_expiry,
        epoch_info,
        testing,
    )
}

/// Commits or abandons a claim once the payout gateway has spoken: on a
/// transfer, the cursor advances per configuration; on a refusal the
/// position is left exactly as it was.
pub fn finalize_claim(
    position: &mut StakePosition,
    epoch: u64,
    now: i64,
    config: &ClaimConfig,
    outcome: TransferOutcome,
) -> (r: Result<(), ClaimError>)
    requires
        0 <= now,
    ensures
        outcome == TransferOutcome::RateLimitExceeded ==> r == Err::<(), ClaimError>(
            ClaimError::RateLimitExceeded,
        ) && *final(position) == *old(position),
        outcome == TransferOutcome::Transferred ==> {
            &&& r == Ok::<(), ClaimError>(())
            &&& final(position).last_claimed_epoch == next_cursor(
                epoch as int,
                now as int,
                config.cursor_update,
            )
            &&& final(position).hnt_amount == old(position).hnt_amount
            &&& final(position).fall_rate == old(position).fall_rate
        },
{
    match outcome {
        TransferOutcome::RateLimitExceeded => Err(ClaimError::RateLimitExceeded),
        TransferOutcome::Transferred => {
            let cursor = match config.cursor_update {
                CursorUpdate::ClaimedEpoch => epoch,
                CursorUpdate::CurrentEpoch => current_epoch(now),
            };
            position.last_claimed_epoch = cursor;
            Ok(())
        },
    }
}

/// One whole claim as a single atomic unit of work, given the payout
/// gateway's response as an event: validate, compute the reward, and
/// advance the cursor only if the transfer went through. On any error the
/// position is returned untouched.
pub fn claim_rewards(
    position: &mut StakePosition,
    deposit: &Deposit,
    epoch_info: &EpochInfo,
    available_weight: u64,
    since_expiry: u64,
    args: &ClaimRewardsArgsV0,
    now: i64,
    config: &ClaimConfig,
    outcome: TransferOutcome,
) -> (r: Result<u64, ClaimError>)
    requires
        0 <= now,
        epoch_info.epoch == args.epoch,
    ensures
        ({
            let c = claim_outcome(
                *old(position),
                *deposit,
                *epoch_info,
                available_weight as int,
                since_expiry as int,
                args.epoch as int,
                now as int,
                config.testing,
            );
            &&& c is Err ==> r == c && *final(position) == *old(position)
            &&& (c is Ok && outcome == TransferOutcome::RateLimitExceeded) ==> r == Err::<
                u64,
                ClaimError,
            >(ClaimError::RateLimitExceeded) && *final(position) == *old(position)
            &&& (c is Ok && outcome == TransferOutcome::Transferred) ==> {
                &&& r == c
                &&& final(position).last_claimed_epoch == next_cursor(
                    args.epoch as int,
                    now as int,
                    config.cursor_update,
                )
                &&& final(position).hnt_amount == old(position).hnt_amount
                &&& final(position).fall_rate == old(position).fall_rate
            }
        }),
        r is Err ==> *final(position) == *old(position),
        (r is Ok && !config.testing)
            ==> old(position).last_claimed_epoch < final(position).last_claimed_epoch,
        (r is Ok && !config.testing && config.cursor_update == CursorUpdate::ClaimedEpoch)
            ==> final(position).last_claimed_epoch == old(position).last_claimed_epoch + 1,
{
    let amount = match compute_claim(
        position,
        deposit,
        epoch_info,
        available_weight,
        since_expiry,
        args.epoch,
        now,
        config.testing,
    ) {
        Err(e) => {
            return Err(e);
        },
        Ok(a) => a,
    };
    match finalize_claim(position, args.epoch, now, config, outcome) {
        Err(e) => Err(e),
        Ok(()) => Ok(amount),
    }
}

} // verus!
