//! The guarantees the claim core gives, stated and proved on their own:
//! claims cannot repeat or skip an epoch, cannot reach into an open epoch,
//! only ever move the cursor forward, and can never hand out more than an
//! epoch's issued rewards in total.

use vstd::prelude::*;

use vstd::arithmetic::div_mod::{
    lemma_div_is_ordered, lemma_div_multiples_vanish, lemma_div_pos_is_pos,
    lemma_fundamental_div_mod, lemma_mod_division_less_than_divisor,
};
use vstd::arithmetic::mul::{
    lemma_mul_inequality, lemma_mul_is_distributive_add, lemma_mul_is_distributive_add_other_way,
    lemma_mul_nonnegative,
};

use crate::allocator::epoch_share;
use crate::epoch::spec_current_epoch;
use crate::model::{ClaimError, CursorUpdate};
use crate::sequencer::{guard_result, next_cursor};

verus! {

/// No double-claim: once a successful claim has advanced the cursor to the
/// epoch just claimed, requesting that epoch again — or skipping past its
/// successor — is refused as out of order; the only epoch the guards still
/// admit is the immediate successor. (The bounds on the open epoch keep the
/// finality guard from reporting first.)
pub proof fn lemma_no_double_claim(epoch: int, now: int)
    ensures
        epoch < spec_current_epoch(now) ==> guard_result(epoch, epoch, now, false) == Err::<
            (),
            ClaimError,
        >(ClaimError::InvalidClaimEpoch),
        epoch + 2 < spec_current_epoch(now) ==> guard_result(epoch, epoch + 2, now, false)
            == Err::<(), ClaimError>(ClaimError::InvalidClaimEpoch),
        forall|requested: int|
            guard_result(epoch, requested, now, false) is Ok ==> requested == epoch + 1,
{
}

/// No early claim: an epoch that has not fully elapsed — the one still
/// open at `now`, or any later one — is refused as not over, whatever the
/// cursor says.
pub proof fn lemma_no_early_claim(last_claimed_epoch: int, epoch: int, now: int)
    requires
        spec_current_epoch(now) <= epoch,
    ensures
        guard_result(last_claimed_epoch, epoch, now, false) == Err::<(), ClaimError>(
            ClaimError::EpochNotOver,
        ),
{
}

/// Monotonic cursor: whenever the guards admit a claim, the committed
/// cursor lies strictly above the old one, and in the strictly sequential
/// cursor mode it advances by exactly one.
pub proof fn lemma_cursor_monotonic(last_claimed_epoch: int, epoch: int, now: int, mode: CursorUpdate)
    requires
        guard_result(last_claimed_epoch, epoch, now, false) is Ok,
    ensures
        last_claimed_epoch < next_cursor(epoch, now, mode),
        mode == CursorUpdate::ClaimedEpoch ==> next_cursor(epoch, now, mode) == last_claimed_epoch
            + 1,
{
}

/// Sum of a batch of weights.
pub open spec fn sum_weights(weights: Seq<int>) -> int
    decreases weights.len(),
{
    if weights.len() == 0 {
        0
    } else {
        weights[0] + sum_weights(weights.drop_first())
    }
}

/// Sum of the floor shares those weights are allocated from one epoch's pool.
pub open spec fn sum_rewards(weights: Seq<int>, rewards_issued: int, total_vehnt: int) -> int
    decreases weights.len(),
{
    if weights.len() == 0 {
        0
    } else {
        epoch_share(weights[0], rewards_issued, total_vehnt) + sum_rewards(
            weights.drop_first(),
            rewards_issued,
            total_vehnt,
        )
    }
}

/// Floor division gives away at most what one division of the sum would:
/// `a/d + b/d <= (a+b)/d` for non-negative numerators.
proof fn lemma_div_superadditive(a: int, b: int, d: int)
    requires
        0 <= a,
        0 <= b,
        0 < d,
    ensures
        a / d + b / d <= (a + b) / d,
{
    lemma_fundamental_div_mod(a, d);
    lemma_fundamental_div_mod(b, d);
    lemma_mod_division_less_than_divisor(a, d);
    lemma_mod_division_less_than_divisor(b, d);
    lemma_mul_is_distributive_add(d, a / d, b / d);
    lemma_div_is_ordered(d * (a / d + b / d), a + b, d);
    lemma_div_multiples_vanish(a / d + b / d, d);
}

/// Summing each weight's floor share stays below the share one combined
/// weight would get, and both sums are non-negative.
proof fn lemma_shares_below_combined(weights: Seq<int>, rewards_issued: int, total_vehnt: int)
    requires
        0 < total_vehnt,
        0 <= rewards_issued,
        forall|i: int| 0 <= i < weights.len() ==> 0 <= weights[i],
    ensures
        0 <= sum_weights(weights),
        0 <= sum_rewards(weights, rewards_issued, total_vehnt),
        sum_rewards(weights, rewards_issued, total_vehnt) <= epoch_share(
            sum_weights(weights),
            rewards_issued,
            total_vehnt,
        ),
    decreases weights.len(),
{
    if weights.len() == 0 {
        lemma_mul_nonnegative(0, rewards_issued);
        lemma_div_pos_is_pos(0 * rewards_issued, total_vehnt);
        lemma_div_is_ordered(0, 0 * rewards_issued, total_vehnt);
    } else {
        let rest = weights.drop_first();
        assert(forall|i: int| 0 <= i < rest.len() ==> rest[i] == weights[i + 1]);
        lemma_shares_below_combined(rest, rewards_issued, total_vehnt);
        let head = weights[0];
        let tail_sum = sum_weights(rest);
        lemma_mul_nonnegative(head, rewards_issued);
        lemma_mul_nonnegative(tail_sum, rewards_issued);
        lemma_div_pos_is_pos(head * rewards_issued, total_vehnt);
        lemma_div_superadditive(head * rewards_issued, tail_sum * rewards_issued, total_vehnt);
        lemma_mul_is_distributive_add_other_way(rewards_issued, head, tail_sum);
    }
}

/// Proportionality: for one epoch, however many positions claim it, the
/// floor shares handed out sum to at most the epoch's issued rewards —
/// the pool can lose dust to rounding, never pay out more than it holds.
/// `weights` are the positions' back-projected weights at the epoch's
/// close, whose overall sum the epoch's recorded total bounds.
pub proof fn lemma_rewards_proportional(weights: Seq<int>, rewards_issued: int, total_vehnt: int)
    requires
        0 < total_vehnt,
        0 <= rewards_issued,
        forall|i: int| 0 <= i < weights.len() ==> 0 <= weights[i],
        sum_weights(weights) <= total_vehnt,
    ensures
        0 <= sum_rewards(weights, rewards_issued, total_vehnt),
        sum_rewards(weights, rewards_issued, total_vehnt) <= rewards_issued,
{
    lemma_shares_below_combined(weights, rewards_issued, total_vehnt);
    let combined = sum_weights(weights);
    lemma_mul_inequality(combined, total_vehnt, rewards_issued);
    lemma_div_is_ordered(combined * rewards_issued, total_vehnt * rewards_issued, total_vehnt);
    lemma_div_multiples_vanish(rewards_issued, total_vehnt);
}

} // verus!
