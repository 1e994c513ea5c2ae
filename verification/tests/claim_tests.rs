use epoch_rewards::allocator::epoch_reward;
use epoch_rewards::epoch::{current_epoch, EPOCH_LENGTH};
use epoch_rewards::model::{
    ClaimConfig, ClaimError, ClaimRewardsArgsV0, CursorUpdate, Deposit, EpochInfo, StakePosition,
    TransferOutcome,
};
use epoch_rewards::sequencer::{check_claim, claim_rewards, compute_claim, finalize_claim};
use epoch_rewards::share::position_weight;

const DAY: i64 = EPOCH_LENGTH;

fn fresh_position() -> StakePosition {
    StakePosition { hnt_amount: 500, fall_rate: 0, last_claimed_epoch: 0 }
}

fn deposit() -> Deposit {
    Deposit { amount_deposited_native: 1000 }
}

fn info_for(epoch: u64) -> EpochInfo {
    EpochInfo { epoch, total_vehnt: 1000, staking_rewards_issued: 10000 }
}

fn sequential_config() -> ClaimConfig {
    ClaimConfig { testing: false, cursor_update: CursorUpdate::ClaimedEpoch }
}

fn args_for(epoch: u64) -> ClaimRewardsArgsV0 {
    ClaimRewardsArgsV0 { deposit_entry_idx: 0, epoch }
}

#[test]
fn epoch_numbering_floors() {
    assert_eq!(current_epoch(0), 0);
    assert_eq!(current_epoch(DAY - 1), 0);
    assert_eq!(current_epoch(DAY), 1);
    assert_eq!(current_epoch(3 * DAY + 17), 3);
}

#[test]
fn share_of_deposit_weight() {
    // 200 * 500 / 1000 = 100
    assert_eq!(position_weight(200, 500, 1000), Ok(100));
    // floor division
    assert_eq!(position_weight(201, 500, 1000), Ok(100));
}

#[test]
fn share_overflow_is_reported_not_wrapped() {
    assert_eq!(position_weight(u64::MAX, 2, 1), Err(ClaimError::ArithmeticFailure));
    assert_eq!(position_weight(u64::MAX, u64::MAX, 1), Err(ClaimError::ArithmeticFailure));
}

#[test]
fn share_of_empty_deposit_is_reported() {
    assert_eq!(position_weight(200, 500, 0), Err(ClaimError::ArithmeticFailure));
}

#[test]
fn allocation_back_projects_and_divides() {
    // weight 100, fall rate 2, 50 s of decay since the close of epoch 1:
    // weight at close was 100 + 2*50 = 200; 200 * 10000 / 1000 = 2000.
    let info = info_for(1);
    assert_eq!(epoch_reward(100, 2, 1, DAY + 50, 0, &info, false), Ok(2000));
}

#[test]
fn allocation_excludes_time_after_expiry() {
    // of the 50 s elapsed, 30 came after lockup expiry: only 20 decayed.
    let info = info_for(1);
    assert_eq!(epoch_reward(100, 2, 1, DAY + 50, 30, &info, false), Ok(1400));
}

#[test]
fn allocation_with_zero_epoch_total_is_reported() {
    let info = EpochInfo { epoch: 1, total_vehnt: 0, staking_rewards_issued: 10000 };
    assert_eq!(epoch_reward(100, 2, 1, DAY + 50, 0, &info, false), Err(ClaimError::ArithmeticFailure));
}

#[test]
fn allocation_with_negative_decay_interval_is_reported() {
    // expiry time exceeds the elapsed interval: the back-projection is undefined.
    let info = info_for(1);
    assert_eq!(epoch_reward(100, 2, 1, DAY + 50, 51, &info, false), Err(ClaimError::ArithmeticFailure));
}

#[test]
fn allocation_overflow_is_reported_not_wrapped() {
    // the weight times the issued rewards exceeds 64 bits
    let info = EpochInfo { epoch: 1, total_vehnt: 1000, staking_rewards_issued: u64::MAX };
    assert_eq!(epoch_reward(2, 0, 1, 2 * DAY, 0, &info, false), Err(ClaimError::ArithmeticFailure));
    // the epoch boundary itself exceeds 64-bit time
    let info = info_for(u64::MAX);
    assert_eq!(epoch_reward(100, 2, u64::MAX, 2 * DAY, 0, &info, false), Err(ClaimError::ArithmeticFailure));
}

#[test]
fn claim_success_pays_and_advances_cursor() {
    let mut position = fresh_position();
    let r = claim_rewards(
        &mut position,
        &deposit(),
        &info_for(1),
        200,
        0,
        &args_for(1),
        2 * DAY,
        &sequential_config(),
        TransferOutcome::Transferred,
    );
    // share 100, no decay to reverse: 100 * 10000 / 1000 = 1000
    assert_eq!(r, Ok(1000));
    assert_eq!(position.last_claimed_epoch, 1);
    assert_eq!(position.hnt_amount, 500);
    assert_eq!(position.fall_rate, 0);
}

#[test]
fn claim_repeat_is_refused() {
    let mut position = fresh_position();
    let cfg = sequential_config();
    let now = 3 * DAY;
    assert!(claim_rewards(
        &mut position,
        &deposit(),
        &info_for(1),
        200,
        0,
        &args_for(1),
        now,
        &cfg,
        TransferOutcome::Transferred,
    )
    .is_ok());
    let again = claim_rewards(
        &mut position,
        &deposit(),
        &info_for(1),
        200,
        0,
        &args_for(1),
        now,
        &cfg,
        TransferOutcome::Transferred,
    );
    assert_eq!(again, Err(ClaimError::InvalidClaimEpoch));
    assert_eq!(position.last_claimed_epoch, 1);
}

#[test]
fn claim_skip_is_refused() {
    let mut position = fresh_position();
    // cursor at 0; epoch 2 requested though epoch 1 was never claimed
    let r = claim_rewards(
        &mut position,
        &deposit(),
        &info_for(2),
        200,
        0,
        &args_for(2),
        4 * DAY,
        &sequential_config(),
        TransferOutcome::Transferred,
    );
    assert_eq!(r, Err(ClaimError::InvalidClaimEpoch));
    assert_eq!(position.last_claimed_epoch, 0);
}

#[test]
fn claims_succeed_one_epoch_at_a_time() {
    let mut position = fresh_position();
    let cfg = sequential_config();
    let now = 4 * DAY;
    for epoch in 1..=3u64 {
        let r = claim_rewards(
            &mut position,
            &deposit(),
            &info_for(epoch),
            200,
            0,
            &args_for(epoch),
            now,
            &cfg,
            TransferOutcome::Transferred,
        );
        assert!(r.is_ok());
        assert_eq!(position.last_claimed_epoch, epoch);
    }
}

#[test]
fn claim_of_open_epoch_is_refused() {
    let mut position = fresh_position();
    // at time 2*DAY the open epoch is 2: epoch 2 itself is not claimable
    position.last_claimed_epoch = 1;
    let r = claim_rewards(
        &mut position,
        &deposit(),
        &info_for(2),
        200,
        0,
        &args_for(2),
        2 * DAY,
        &sequential_config(),
        TransferOutcome::Transferred,
    );
    assert_eq!(r, Err(ClaimError::EpochNotOver));
    assert_eq!(position.last_claimed_epoch, 1);
}

#[test]
fn claim_of_future_epoch_is_refused() {
    let mut position = fresh_position();
    let r = claim_rewards(
        &mut position,
        &deposit(),
        &info_for(7),
        200,
        0,
        &args_for(7),
        2 * DAY,
        &sequential_config(),
        TransferOutcome::Transferred,
    );
    assert_eq!(r, Err(ClaimError::EpochNotOver));
    assert_eq!(position.last_claimed_epoch, 0);
}

#[test]
fn rate_limited_transfer_leaves_position_untouched() {
    let mut position = fresh_position();
    let before = position;
    let r = claim_rewards(
        &mut position,
        &deposit(),
        &info_for(1),
        200,
        0,
        &args_for(1),
        2 * DAY,
        &sequential_config(),
        TransferOutcome::RateLimitExceeded,
    );
    assert_eq!(r, Err(ClaimError::RateLimitExceeded));
    assert_eq!(position, before);
}

#[test]
fn finalize_commits_only_on_transfer() {
    let mut position = fresh_position();
    let cfg = sequential_config();
    assert_eq!(
        finalize_claim(&mut position, 1, 2 * DAY, &cfg, TransferOutcome::RateLimitExceeded),
        Err(ClaimError::RateLimitExceeded)
    );
    assert_eq!(position.last_claimed_epoch, 0);
    assert_eq!(finalize_claim(&mut position, 1, 2 * DAY, &cfg, TransferOutcome::Transferred), Ok(()));
    assert_eq!(position.last_claimed_epoch, 1);
}

#[test]
fn claim_arithmetic_failure_leaves_position_untouched() {
    let mut position = fresh_position();
    let before = position;
    let r = claim_rewards(
        &mut position,
        &deposit(),
        &EpochInfo { epoch: 1, total_vehnt: 0, staking_rewards_issued: 10000 },
        200,
        0,
        &args_for(1),
        2 * DAY,
        &sequential_config(),
        TransferOutcome::Transferred,
    );
    assert_eq!(r, Err(ClaimError::ArithmeticFailure));
    assert_eq!(position, before);
}

#[test]
fn claim_share_overflow_is_reported_before_the_guards() {
    // the share product overflows; the stale epoch would also be refused,
    // but the arithmetic fault is detected first, as a data-invariant breach
    let mut position = StakePosition { hnt_amount: u64::MAX, fall_rate: 0, last_claimed_epoch: 0 };
    let r = claim_rewards(
        &mut position,
        &Deposit { amount_deposited_native: 1 },
        &info_for(9),
        u64::MAX,
        0,
        &args_for(9),
        2 * DAY,
        &sequential_config(),
        TransferOutcome::Transferred,
    );
    assert_eq!(r, Err(ClaimError::ArithmeticFailure));
    assert_eq!(position.last_claimed_epoch, 0);
}

#[test]
fn rewards_claimed_for_one_epoch_never_exceed_its_pool() {
    // three positions of one epoch, weights 301 + 333 + 366 = 1000 = total;
    // each floor share loses dust, the sum stays below the issued 9999
    let info = EpochInfo { epoch: 1, total_vehnt: 1000, staking_rewards_issued: 9999 };
    let now = 2 * DAY;
    let mut paid: u64 = 0;
    for w in [301u64, 333, 366] {
        paid += epoch_reward(w, 0, 1, now, 0, &info, false).unwrap();
    }
    assert_eq!(paid, 3009 + 3329 + 3659);
    assert!(paid <= info.staking_rewards_issued);
}

#[test]
fn cursor_mode_claimed_epoch_stays_sequential_on_late_claims() {
    // a staker claiming long after the fact still advances one epoch at a time
    let mut position = fresh_position();
    let now = 6 * DAY;
    let r = claim_rewards(
        &mut position,
        &deposit(),
        &info_for(1),
        200,
        0,
        &args_for(1),
        now,
        &sequential_config(),
        TransferOutcome::Transferred,
    );
    assert!(r.is_ok());
    assert_eq!(position.last_claimed_epoch, 1);
    // epoch 2 is still claimable next
    assert!(check_claim(&position, 2, now, false).is_ok());
}

#[test]
fn cursor_mode_current_epoch_skips_intermediate_epochs() {
    // the alternative cursor mode jumps to the epoch open at claim time:
    // after a late claim of epoch 1 at day 6 the cursor stands at 6, and
    // epochs 2 through 5 can never satisfy the order check again
    let mut position = fresh_position();
    let now = 6 * DAY;
    let cfg = ClaimConfig { testing: false, cursor_update: CursorUpdate::CurrentEpoch };
    let r = claim_rewards(
        &mut position,
        &deposit(),
        &info_for(1),
        200,
        0,
        &args_for(1),
        now,
        &cfg,
        TransferOutcome::Transferred,
    );
    assert!(r.is_ok());
    assert_eq!(position.last_claimed_epoch, 6);
    for skipped in 2..=6u64 {
        assert_eq!(
            check_claim(&position, skipped, 8 * DAY, false),
            Err(ClaimError::InvalidClaimEpoch)
        );
    }
}

#[test]
fn testing_config_bypasses_guards_and_boundary() {
    // guards waived and the current time stands in for the epoch boundary,
    // so no decay is reversed: the reward is the current share's slice
    let mut position = fresh_position();
    let cfg = ClaimConfig { testing: true, cursor_update: CursorUpdate::ClaimedEpoch };
    let r = claim_rewards(
        &mut position,
        &deposit(),
        &info_for(9),
        200,
        0,
        &args_for(9),
        40,
        &cfg,
        TransferOutcome::Transferred,
    );
    assert_eq!(r, Ok(1000));
    assert_eq!(position.last_claimed_epoch, 9);
}

#[test]
fn compute_claim_alone_mutates_nothing() {
    let position = fresh_position();
    let r = compute_claim(&position, &deposit(), &info_for(1), 200, 0, 1, 2 * DAY, false);
    assert_eq!(r, Ok(1000));
    assert_eq!(position, fresh_position());
}
