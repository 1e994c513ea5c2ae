//! The reward allocator: back-projects a position's weight to the close of
//! a target epoch and computes its proportional share of that epoch's pool.

use vstd::prelude::*;

use crate::epoch::EPOCH_LENGTH;
use crate::model::{ClaimError, EpochInfo};

verus! {

/// The close time of the target epoch. Under the testing configuration the
/// current time stands in for the boundary, so no decay interval elapses.
pub open spec fn epoch_close_ts(epoch: int, now: int, testing: bool) -> int {
    if testing {
        now
    } else {
        epoch * (EPOCH_LENGTH as int)
    }
}

/// The stretch of time over which the position's weight actually decayed
/// since the epoch closed: the elapsed interval, minus the part after the
/// deposit's lockup had already expired (decay stops at expiry).
pub open spec fn decay_interval(epoch: int, now: int, since_expiry: int, testing: bool) -> int {
    now - epoch_close_ts(epoch, now, testing) - since_expiry
}

/// A weight's floor share of the epoch's issued rewards.
pub open spec fn epoch_share(weight: int, rewards_issued: int, total_vehnt: int) -> int {
    (weight * rewards_issued) / total_vehnt
}

/// The position's weight back at the epoch's close, obtained by reversing
/// the linear decay that has happened since.
pub open spec fn weight_at_epoch(
    position_weight: int,
    fall_rate: int,
    epoch: int,
    now: int,
    since_expiry: int,
    testing: bool,
) -> int {
    position_weight + fall_rate * decay_interval(epoch, now, since_expiry, testing)
}

/// The allocation succeeds exactly when every intermediate value stays
/// inside its machine width, the decay interval is not negative, and the
/// epoch's total weight is not zero.
pub open spec fn allocation_defined(
    position_weight: int,
    fall_rate: int,
    epoch: int,
    now: int,
    since_expiry: int,
    rewards_issued: int,
    total_vehnt: int,
    testing: bool,
) -> bool {
    let w = weight_at_epoch(position_weight, fall_rate, epoch, now, since_expiry, testing);
    &&& epoch_close_ts(epoch, now, testing) <= i64::MAX
    &&& since_expiry <= i64::MAX
    &&& 0 <= decay_interval(epoch, now, since_expiry, testing)
    &&& w <= u64::MAX
    &&& w * rewards_issued <= u64::MAX
    &&& total_vehnt != 0
}

/// The reward owed: the back-projected weight's floor share of the pool.
pub open spec fn allocation(
    position_weight: int,
    fall_rate: int,
    epoch: int,
    now: int,
    since_expiry: int,
    rewards_issued: int,
    total_vehnt: int,
    testing: bool,
) -> int {
    epoch_share(
        weight_at_epoch(position_weight, fall_rate, epoch, now, since_expiry, testing),
        rewards_issued,
        total_vehnt,
    )
}

/// Computes the position's reward for the target epoch. Every
/// multiplication is checked against the 64-bit width and a zero epoch
/// total is refused; any such failure aborts the claim rather than wrap.
pub fn epoch_reward(
    position_weight: u64,
    fall_rate: u64,
    epoch: u64,
    now: i64,
    since_expiry: u64,
    epoch_info: &EpochInfo,
    testing: bool,
) -> (r: Result<u64, ClaimError>)
    requires
        0 <= now,
    ensures
        allocation_defined(
            position_weight as int,
            fall_rate as int,
            epoch as int,
            now as int,
            since_expiry as int,
            epoch_info.staking_rewards_issued as int,
            epoch_info.total_vehnt as int,
            testing,
        ) ==> (r matches Ok(v) && v == allocation(
            position_weight as int,
            fall_rate as int,
            epoch as int,
            now as int,
            since_expiry as int,
            epoch_info.staking_rewards_issued as int,
            epoch_info.total_vehnt as int,
            testing,
        )),
        !allocation_defined(
            position_weight as int,
            fall_rate as int,
            epoch as int,
            now as int,
            since_expiry as int,
            epoch_info.staking_rewards_issued as int,
            epoch_info.total_vehnt as int,
            testing,
        ) ==> r == Err::<u64, ClaimError>(ClaimError::ArithmeticFailure),
{
    let epoch_end_ts: i64 = if testing {
        now
    } else {
        if epoch > i64::MAX as u64 {
            proof {
                vstd::arithmetic::mul::lemma_mul_inequality(
                    i64::MAX + 1,
                    epoch as int,
                    EPOCH_LENGTH as int,
                );
            }
            return Err(ClaimError::ArithmeticFailure);
        }
        match (epoch as i64).checked_mul(EPOCH_LENGTH) {
            None => {
                return Err(ClaimError::ArithmeticFailure);
            },
            Some(ts) => ts,
        }
    };
    let elapsed: i64 = now - epoch_end_ts;
    if since_expiry > i64::MAX as u64 {
        return Err(ClaimError::ArithmeticFailure);
    }
    let expired_for: i64 = since_expiry as i64;
    if expired_for > elapsed {
        return Err(ClaimError::ArithmeticFailure);
    }
    let ts_diff: u64 = (elapsed - expired_for) as u64;
    let decay = match fall_rate.checked_mul(ts_diff) {
        None => {
            return Err(ClaimError::ArithmeticFailure);
        },
        Some(d) => d,
    };
    let staked_vehnt_at_epoch = match position_weight.checked_add(decay) {
        None => {
            return Err(ClaimError::ArithmeticFailure);
        },
        Some(w) => w,
    };
    let scaled = match staked_vehnt_at_epoch.checked_mul(epoch_info.staking_rewards_issued) {
        None => {
            return Err(ClaimError::ArithmeticFailure);
        },
        Some(s) => s,
    };
    match scaled.checked_div(epoch_info.total_vehnt) {
        None => Err(ClaimError::ArithmeticFailure),
        Some(reward) => Ok(reward),
    }
}

} // verus!
