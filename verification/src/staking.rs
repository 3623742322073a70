//! ALPHA staking: lock tiers, the USDC reward index and stake / unstake / claim.
//!
//! Rewards follow the "accumulated reward per weight" scheme: the pool keeps an
//! index `acc_usdc_per_weight` (scaled by `REWARD_INDEX_SCALE`) that grows by
//! `released_income * SCALE / total_weight` whenever new USDC is observed in the
//! staking vault; a user's entitlement is `weight * index / SCALE` minus the
//! `reward_debt` recorded at their last settlement.
use vstd::prelude::*;
use crate::constants::{
    BPS_DENOMINATOR, DEFAULT_MIN_CLAIM_USDC, STAKING_PHASE1_REWARD_RELEASE_BPS, FLEXIBLE_MULTIPLIER_BPS, LOCK_180_DAYS_MULTIPLIER_BPS, LOCK_180_DAYS_SECONDS, LOCK_30_DAYS_MULTIPLIER_BPS, LOCK_30_DAYS_SECONDS, LOCK_365_DAYS_MULTIPLIER_BPS, LOCK_365_DAYS_SECONDS, LOCK_90_DAYS_MULTIPLIER_BPS, LOCK_90_DAYS_SECONDS, LOCK_TIER_180_DAYS, LOCK_TIER_30_DAYS, LOCK_TIER_365_DAYS, LOCK_TIER_90_DAYS, LOCK_TIER_FLEXIBLE, REWARD_INDEX_SCALE,
};
use crate::error::{CustomError, ProgramResult};
use crate::keys::{Key32, Pubkey};
use crate::state::{StakingPoolV1, UserStakeAccount};

verus! {

/// Reward multiplier and lock duration of a lock tier.
#[derive(Clone, Copy, Debug, PartialEq, Eq, Structural)]
pub struct LockTierConfig {
    pub multiplier_bps: u16,
    pub duration_seconds: i64,
}

/// The configuration of `lock_tier`, or `None` for an unknown tier.
pub open spec fn spec_lock_tier(lock_tier: u8) -> Option<LockTierConfig> {
    if lock_tier == LOCK_TIER_FLEXIBLE {
        Some(LockTierConfig { multiplier_bps: FLEXIBLE_MULTIPLIER_BPS, duration_seconds: 0 })
    } else if lock_tier == LOCK_TIER_30_DAYS {
        Some(LockTierConfig { multiplier_bps: LOCK_30_DAYS_MULTIPLIER_BPS, duration_seconds: LOCK_30_DAYS_SECONDS })
    } else if lock_tier == LOCK_TIER_90_DAYS {
        Some(LockTierConfig { multiplier_bps: LOCK_90_DAYS_MULTIPLIER_BPS, duration_seconds: LOCK_90_DAYS_SECONDS })
    } else if lock_tier == LOCK_TIER_180_DAYS {
        Some(LockTierConfig { multiplier_bps: LOCK_180_DAYS_MULTIPLIER_BPS, duration_seconds: LOCK_180_DAYS_SECONDS })
    } else if lock_tier == LOCK_TIER_365_DAYS {
        Some(LockTierConfig { multiplier_bps: LOCK_365_DAYS_MULTIPLIER_BPS, duration_seconds: LOCK_365_DAYS_SECONDS })
    } else {
        None
    }
}

/// Staking weight of `amount` ALPHA at `multiplier_bps`: `amount * multiplier / 10_000`.
pub open spec fn spec_effective_weight(amount: u64, multiplier_bps: u16) -> u128 {
    ((amount as int * multiplier_bps as int) / BPS_DENOMINATOR as int) as u128
}

/// `weight * index / SCALE`, or `MathOverflow` when the product leaves `u128`.
pub open spec fn spec_reward_debt(weight: u128, acc_usdc_per_weight: u128) -> ProgramResult<u128> {
    if weight as int * acc_usdc_per_weight as int <= u128::MAX as int {
        Ok(((weight as int * acc_usdc_per_weight as int) / REWARD_INDEX_SCALE as int) as u128)
    } else {
        Err(CustomError::MathOverflow)
    }
}

/// Rewards earned by `user` since its last settlement.
pub open spec fn spec_accrued_rewards(pool: StakingPoolV1, user: UserStakeAccount) -> ProgramResult<u128> {
    match spec_reward_debt(user.effective_weight, pool.acc_usdc_per_weight) {
        Ok(accumulated) => if accumulated >= user.reward_debt {
            Ok((accumulated - user.reward_debt) as u128)
        } else {
            Err(CustomError::MathOverflow)
        },
        Err(e) => Err(e),
    }
}

/// USDC `user` can claim: pending plus accrued, when it fits in `u64`.
pub open spec fn spec_claim_amount(pool: StakingPoolV1, user: UserStakeAccount) -> ProgramResult<u64> {
    match spec_accrued_rewards(pool, user) {
        Ok(accrued) => if user.pending_usdc as int + accrued as int <= u64::MAX as int {
            Ok((user.pending_usdc as int + accrued as int) as u64)
        } else {
            Err(CustomError::MathOverflow)
        },
        Err(e) => Err(e),
    }
}

/// `user` after moving its accrued rewards into `pending_usdc`.
pub open spec fn spec_settle(pool: StakingPoolV1, user: UserStakeAccount) -> ProgramResult<UserStakeAccount> {
    match spec_accrued_rewards(pool, user) {
        Ok(accrued) => if user.pending_usdc as int + accrued as int <= u64::MAX as int {
            Ok(UserStakeAccount {
                pending_usdc: (user.pending_usdc as int + accrued as int) as u64,
                reward_debt: spec_reward_debt(user.effective_weight, pool.acc_usdc_per_weight)->Ok_0,
                ..user
            })
        } else {
            Err(CustomError::MathOverflow)
        },
        Err(e) => Err(e),
    }
}

/// The pool after observing a staking-vault balance of `current_balance` at `now_ts`.
pub open spec fn spec_update_pool(pool: StakingPoolV1, current_balance: u64, now_ts: i64) -> ProgramResult<StakingPoolV1> {
    if pool.total_effective_weight == 0 {
        Ok(StakingPoolV1 { last_observed_usdc_balance: current_balance, last_reward_update_ts: now_ts, ..pool })
    } else if current_balance < pool.last_observed_usdc_balance {
        Err(CustomError::VaultBalanceBelowObserved)
    } else if current_balance == pool.last_observed_usdc_balance {
        Ok(StakingPoolV1 { last_reward_update_ts: now_ts, ..pool })
    } else {
        let income = current_balance - pool.last_observed_usdc_balance;
        let distributable = (income * pool.reward_release_bps) / BPS_DENOMINATOR as int;
        let increment = (distributable * REWARD_INDEX_SCALE) / pool.total_effective_weight as int;
        let new_acc = if distributable > 0 { pool.acc_usdc_per_weight + increment } else { pool.acc_usdc_per_weight as int };
        if new_acc <= u128::MAX as int {
            Ok(StakingPoolV1 {
                acc_usdc_per_weight: new_acc as u128,
                last_observed_usdc_balance: current_balance,
                last_reward_update_ts: now_ts,
                ..pool
            })
        } else {
            Err(CustomError::MathOverflow)
        }
    }
}

/// Pool and user after staking `amount` ALPHA at `lock_tier` at `now_ts`.
pub open spec fn spec_stake(
    pool: StakingPoolV1,
    user: UserStakeAccount,
    owner: Pubkey,
    amount: u64,
    lock_tier: u8,
    now_ts: i64,
    user_bump: u8,
) -> ProgramResult<(StakingPoolV1, UserStakeAccount)> {
    if amount == 0 {
        Err(CustomError::InvalidAmount)
    } else if spec_lock_tier(lock_tier) is None {
        Err(CustomError::InvalidLockTier)
    } else if user.owner != Key32::zero() && user.owner != owner {
        Err(CustomError::InvalidStakeOwner)
    } else {
        let config = spec_lock_tier(lock_tier)->Some_0;
        let owned = if user.owner == Key32::zero() {
            UserStakeAccount { owner: owner, bump: user_bump, ..user }
        } else {
            user
        };
        match spec_settle(pool, owned) {
            Err(e) => Err(e),
            Ok(settled) => {
                let new_lock_end = now_ts + config.duration_seconds;
                if new_lock_end > i64::MAX {
                    Err(CustomError::MathOverflow)
                } else if settled.staked_amount != 0 && settled.lock_tier != lock_tier {
                    Err(CustomError::StakeLockTierMismatch)
                } else {
                    let locked = if settled.staked_amount == 0 {
                        UserStakeAccount {
                            lock_start_ts: now_ts,
                            lock_end_ts: new_lock_end as i64,
                            lock_tier: lock_tier,
                            multiplier_bps: config.multiplier_bps,
                            next_reward_eligible_ts: now_ts,
                            ..settled
                        }
                    } else {
                        UserStakeAccount {
                            lock_end_ts: if settled.lock_end_ts >= new_lock_end { settled.lock_end_ts } else { new_lock_end as i64 },
                            ..settled
                        }
                    };
                    let added = spec_effective_weight(amount, config.multiplier_bps);
                    let staked = locked.staked_amount + amount;
                    let weight = locked.effective_weight + added;
                    let total_staked = pool.total_staked_alpha + amount;
                    let total_weight = pool.total_effective_weight + added;
                    if staked > u64::MAX || weight > u128::MAX || total_staked > u64::MAX || total_weight > u128::MAX {
                        Err(CustomError::MathOverflow)
                    } else {
                        match spec_reward_debt(weight as u128, pool.acc_usdc_per_weight) {
                            Err(e) => Err(e),
                            Ok(debt) => Ok((
                                StakingPoolV1 {
                                    total_staked_alpha: total_staked as u64,
                                    total_effective_weight: total_weight as u128,
                                    ..pool
                                },
                                UserStakeAccount {
                                    staked_amount: staked as u64,
                                    effective_weight: weight as u128,
                                    reward_debt: debt,
                                    ..locked
                                },
                            )),
                        }
                    }
                }
            },
        }
    }
}

/// Weight released when unstaking `amount` of `staked` (all of it for a full unstake).
pub open spec fn spec_unstake_weight(weight: u128, staked: u64, amount: u64) -> ProgramResult<u128> {
    if amount == staked {
        Ok(weight)
    } else if weight as int * amount as int <= u128::MAX as int {
        Ok(((weight as int * amount as int) / staked as int) as u128)
    } else {
        Err(CustomError::MathOverflow)
    }
}

/// Pool and user after unstaking `amount` ALPHA at `now_ts`.
pub open spec fn spec_unstake(
    pool: StakingPoolV1,
    user: UserStakeAccount,
    owner: Pubkey,
    amount: u64,
    now_ts: i64,
) -> ProgramResult<(StakingPoolV1, UserStakeAccount)> {
    if amount == 0 {
        Err(CustomError::InvalidAmount)
    } else if user.owner != owner {
        Err(CustomError::InvalidStakeOwner)
    } else if now_ts < user.lock_end_ts {
        Err(CustomError::LockPeriodNotEnded)
    } else if amount > user.staked_amount {
        Err(CustomError::InvalidAmount)
    } else {
        match spec_settle(pool, user) {
            Err(e) => Err(e),
            Ok(settled) => match spec_unstake_weight(settled.effective_weight, settled.staked_amount, amount) {
                Err(e) => Err(e),
                Ok(w) => if w > settled.effective_weight || amount > pool.total_staked_alpha || w > pool.total_effective_weight {
                    Err(CustomError::MathOverflow)
                } else {
                    let new_pool = StakingPoolV1 {
                        total_staked_alpha: (pool.total_staked_alpha - amount) as u64,
                        total_effective_weight: (pool.total_effective_weight - w) as u128,
                        ..pool
                    };
                    let staked = (settled.staked_amount - amount) as u64;
                    let weight = (settled.effective_weight - w) as u128;
                    if staked == 0 {
                        Ok((new_pool, UserStakeAccount { staked_amount: 0, effective_weight: 0, reward_debt: 0, ..settled }))
                    } else {
                        match spec_reward_debt(weight, pool.acc_usdc_per_weight) {
                            Err(e) => Err(e),
                            Ok(debt) => Ok((new_pool, UserStakeAccount {
                                staked_amount: staked,
                                effective_weight: weight,
                                reward_debt: debt,
                                ..settled
                            })),
                        }
                    }
                },
            },
        }
    }
}

/// The configuration of `lock_tier`; `InvalidLockTier` for an unknown tier.
pub fn lock_tier_config(lock_tier: u8) -> (r: ProgramResult<LockTierConfig>)
    ensures
        match spec_lock_tier(lock_tier) {
            Some(c) => r == Ok::<LockTierConfig, CustomError>(c),
            None => r == Err::<LockTierConfig, CustomError>(CustomError::InvalidLockTier),
        },
{
    if lock_tier == LOCK_TIER_FLEXIBLE {
        Ok(LockTierConfig { multiplier_bps: FLEXIBLE_MULTIPLIER_BPS, duration_seconds: 0 })
    } else if lock_tier == LOCK_TIER_30_DAYS {
        Ok(LockTierConfig { multiplier_bps: LOCK_30_DAYS_MULTIPLIER_BPS, duration_seconds: LOCK_30_DAYS_SECONDS })
    } else if lock_tier == LOCK_TIER_90_DAYS {
        Ok(LockTierConfig { multiplier_bps: LOCK_90_DAYS_MULTIPLIER_BPS, duration_seconds: LOCK_90_DAYS_SECONDS })
    } else if lock_tier == LOCK_TIER_180_DAYS {
        Ok(LockTierConfig { multiplier_bps: LOCK_180_DAYS_MULTIPLIER_BPS, duration_seconds: LOCK_180_DAYS_SECONDS })
    } else if lock_tier == LOCK_TIER_365_DAYS {
        Ok(LockTierConfig { multiplier_bps: LOCK_365_DAYS_MULTIPLIER_BPS, duration_seconds: LOCK_365_DAYS_SECONDS })
    } else {
        Err(CustomError::InvalidLockTier)
    }
}

/// Staking weight of `amount` at `multiplier_bps`; never overflows.
pub fn calculate_effective_weight(amount: u64, multiplier_bps: u16) -> (r: ProgramResult<u128>)
    ensures
        r == Ok::<u128, CustomError>(spec_effective_weight(amount, multiplier_bps)),
{
    let a = amount as u128;
    let m = multiplier_bps as u128;
    assert(a * m <= u64::MAX as int * u16::MAX as int) by (nonlinear_arith)
        requires a <= u64::MAX, m <= u16::MAX;
    Ok((a * m) / (BPS_DENOMINATOR as u128))
}

/// `effective_weight * acc_usdc_per_weight / REWARD_INDEX_SCALE`.
pub fn calculate_reward_debt(pool: &StakingPoolV1, effective_weight: u128) -> (r: ProgramResult<u128>)
    ensures
        r == spec_reward_debt(effective_weight, pool.acc_usdc_per_weight),
{
    match effective_weight.checked_mul(pool.acc_usdc_per_weight) {
        Some(product) => Ok(product / REWARD_INDEX_SCALE),
        None => Err(CustomError::MathOverflow),
    }
}

/// Rewards earned by `user` since its last settlement.
pub fn calculate_accrued_rewards(pool: &StakingPoolV1, user: &UserStakeAccount) -> (r: ProgramResult<u128>)
    ensures
        r == spec_accrued_rewards(*pool, *user),
{
    let accumulated = calculate_reward_debt(pool, user.effective_weight)?;
    if accumulated >= user.reward_debt {
        Ok(accumulated - user.reward_debt)
    } else {
        Err(CustomError::MathOverflow)
    }
}

/// Narrows a `u128` to `u64`; `MathOverflow` when it does not fit.
pub fn u128_to_u64(value: u128) -> (r: ProgramResult<u64>)
    ensures
        value <= u64::MAX ==> r == Ok::<u64, CustomError>(value as u64),
        value > u64::MAX ==> r == Err::<u64, CustomError>(CustomError::MathOverflow),
{
    if value <= u64::MAX as u128 {
        Ok(value as u64)
    } else {
        Err(CustomError::MathOverflow)
    }
}

/// Moves the rewards `user` accrued into `pending_usdc` and resets its debt.
pub fn settle_user_rewards(pool: &StakingPoolV1, user: &mut UserStakeAccount) -> (r: ProgramResult<()>)
    ensures
        match spec_settle(*pool, *old(user)) {
            Ok(u) => r is Ok && *final(user) == u,
            Err(e) => r == Err::<(), CustomError>(e) && *final(user) == *old(user),
        },
{
    let accrued = calculate_accrued_rewards(pool, user)?;
    let accrued_u64 = u128_to_u64(accrued)?;
    let pending = match user.pending_usdc.checked_add(accrued_u64) {
        Some(p) => p,
        None => return Err(CustomError::MathOverflow),
    };
    let debt = calculate_reward_debt(pool, user.effective_weight)?;
    user.pending_usdc = pending;
    user.reward_debt = debt;
    Ok(())
}

/// Credits newly observed staking-vault income to the reward index.
pub fn update_pool_rewards_from_balance(pool: &mut StakingPoolV1, current_balance: u64, now_ts: i64) -> (r: ProgramResult<()>)
    ensures
        match spec_update_pool(*old(pool), current_balance, now_ts) {
            Ok(p) => r is Ok && *final(pool) == p,
            Err(e) => r == Err::<(), CustomError>(e) && *final(pool) == *old(pool),
        },
{
    if pool.total_effective_weight == 0 {
        pool.last_observed_usdc_balance = current_balance;
        pool.last_reward_update_ts = now_ts;
        return Ok(());
    }
    if current_balance < pool.last_observed_usdc_balance {
        return Err(CustomError::VaultBalanceBelowObserved);
    }
    if current_balance == pool.last_observed_usdc_balance {
        pool.last_reward_update_ts = now_ts;
        return Ok(());
    }
    let new_income = current_balance - pool.last_observed_usdc_balance;
    let income = new_income as u128;
    let bps = pool.reward_release_bps as u128;
    assert(income * bps <= u64::MAX as int * u16::MAX as int) by (nonlinear_arith)
        requires income <= u64::MAX, bps <= u16::MAX;
    let distributable = (income * bps) / (BPS_DENOMINATOR as u128);
    if distributable > 0 {
        assert(distributable <= u64::MAX as int * u16::MAX as int);
        assert(distributable * REWARD_INDEX_SCALE <= u128::MAX) by (nonlinear_arith)
            requires distributable <= u64::MAX as int * u16::MAX as int;
        let index_increment = (distributable * REWARD_INDEX_SCALE) / pool.total_effective_weight;
        match pool.acc_usdc_per_weight.checked_add(index_increment) {
            Some(acc) => {
                pool.acc_usdc_per_weight = acc;
            },
            None => return Err(CustomError::MathOverflow),
        }
    }
    pool.last_observed_usdc_balance = current_balance;
    pool.last_reward_update_ts = now_ts;
    Ok(())
}

/// Stakes `amount` ALPHA for `owner` at `lock_tier`: settles pending rewards,
/// sets or extends the lock, and adds the stake and its weight to user and pool.
pub fn apply_stake_state(
    pool: &mut StakingPoolV1,
    user: &mut UserStakeAccount,
    owner: Pubkey,
    amount: u64,
    lock_tier: u8,
    now_ts: i64,
    user_bump: u8,
) -> (r: ProgramResult<()>)
    ensures
        match spec_stake(*old(pool), *old(user), owner, amount, lock_tier, now_ts, user_bump) {
            Ok((p, u)) => r is Ok && *final(pool) == p && *final(user) == u,
            Err(e) => r == Err::<(), CustomError>(e) && *final(pool) == *old(pool),
        },
{
    if amount == 0 {
        return Err(CustomError::InvalidAmount);
    }
    let config = lock_tier_config(lock_tier)?;
    if user.owner == Key32::default() {
        user.owner = owner;
        user.bump = user_bump;
    } else if user.owner != owner {
        return Err(CustomError::InvalidStakeOwner);
    }
    settle_user_rewards(pool, user)?;
    let new_lock_end = match now_ts.checked_add(config.duration_seconds) {
        Some(t) => t,
        None => return Err(CustomError::MathOverflow),
    };
    if user.staked_amount == 0 {
        user.lock_start_ts = now_ts;
        user.lock_end_ts = new_lock_end;
        user.lock_tier = lock_tier;
        user.multiplier_bps = config.multiplier_bps;
        user.next_reward_eligible_ts = now_ts;
    } else {
        if user.lock_tier != lock_tier {
            return Err(CustomError::StakeLockTierMismatch);
        }
        if user.lock_end_ts < new_lock_end {
            user.lock_end_ts = new_lock_end;
        }
    }
    let added_weight = calculate_effective_weight(amount, config.multiplier_bps)?;
    let staked = match user.staked_amount.checked_add(amount) {
        Some(v) => v,
        None => return Err(CustomError::MathOverflow),
    };
    let weight = match user.effective_weight.checked_add(added_weight) {
        Some(v) => v,
        None => return Err(CustomError::MathOverflow),
    };
    let total_staked = match pool.total_staked_alpha.checked_add(amount) {
        Some(v) => v,
        None => return Err(CustomError::MathOverflow),
    };
    let total_weight = match pool.total_effective_weight.checked_add(added_weight) {
        Some(v) => v,
        None => return Err(CustomError::MathOverflow),
    };
    let debt = calculate_reward_debt(pool, weight)?;
    user.staked_amount = staked;
    user.effective_weight = weight;
    pool.total_staked_alpha = total_staked;
    pool.total_effective_weight = total_weight;
    user.reward_debt = debt;
    Ok(())
}

/// Unstakes `amount` ALPHA after the lock has ended: settles pending rewards and
/// removes the stake and a proportional share of the weight from user and pool.
pub fn apply_unstake_state(
    pool: &mut StakingPoolV1,
    user: &mut UserStakeAccount,
    owner: Pubkey,
    amount: u64,
    now_ts: i64,
) -> (r: ProgramResult<()>)
    ensures
        match spec_unstake(*old(pool), *old(user), owner, amount, now_ts) {
            Ok((p, u)) => r is Ok && *final(pool) == p && *final(user) == u,
            Err(e) => r == Err::<(), CustomError>(e),
        },
{
    if amount == 0 {
        return Err(CustomError::InvalidAmount);
    }
    if user.owner != owner {
        return Err(CustomError::InvalidStakeOwner);
    }
    if now_ts < user.lock_end_ts {
        return Err(CustomError::LockPeriodNotEnded);
    }
    if amount > user.staked_amount {
        return Err(CustomError::InvalidAmount);
    }
    settle_user_rewards(pool, user)?;
    let unstake_weight = if amount == user.staked_amount {
        user.effective_weight
    } else {
        match user.effective_weight.checked_mul(amount as u128) {
            Some(v) => v / (user.staked_amount as u128),
            None => return Err(CustomError::MathOverflow),
        }
    };
    if unstake_weight > user.effective_weight || amount > pool.total_staked_alpha
        || unstake_weight > pool.total_effective_weight {
        return Err(CustomError::MathOverflow);
    }
    user.staked_amount = user.staked_amount - amount;
    user.effective_weight = user.effective_weight - unstake_weight;
    pool.total_staked_alpha = pool.total_staked_alpha - amount;
    pool.total_effective_weight = pool.total_effective_weight - unstake_weight;
    if user.staked_amount == 0 {
        user.effective_weight = 0;
        user.reward_debt = 0;
    } else {
        user.reward_debt = calculate_reward_debt(pool, user.effective_weight)?;
    }
    Ok(())
}

/// USDC `user` can claim now: its pending rewards plus what it accrued.
pub fn calculate_claim_amount(pool: &StakingPoolV1, user: &UserStakeAccount) -> (r: ProgramResult<u64>)
    ensures
        r == spec_claim_amount(*pool, *user),
{
    let accrued = calculate_accrued_rewards(pool, user)?;
    match (user.pending_usdc as u128).checked_add(accrued) {
        Some(total) => u128_to_u64(total),
        None => Err(CustomError::MathOverflow),
    }
}

/// Records a paid claim: clears pending rewards, resets the debt and lowers the
/// observed vault balance by the amount paid out.
pub fn apply_claim_state(pool: &mut StakingPoolV1, user: &mut UserStakeAccount, claim_amount: u64) -> (r: ProgramResult<()>)
    ensures
        match spec_reward_debt(old(user).effective_weight, old(pool).acc_usdc_per_weight) {
            Err(e) => r == Err::<(), CustomError>(e),
            Ok(debt) => if claim_amount <= old(pool).last_observed_usdc_balance {
                &&& r is Ok
                &&& *final(user) == UserStakeAccount { pending_usdc: 0, reward_debt: debt, ..*old(user) }
                &&& *final(pool) == StakingPoolV1 {
                    last_observed_usdc_balance: (old(pool).last_observed_usdc_balance - claim_amount) as u64,
                    ..*old(pool)
                }
            } else {
                r == Err::<(), CustomError>(CustomError::MathOverflow)
            },
        },
        r is Err ==> *final(pool) == *old(pool) && *final(user) == *old(user),
{
    let debt = calculate_reward_debt(pool, user.effective_weight)?;
    if claim_amount > pool.last_observed_usdc_balance {
        return Err(CustomError::MathOverflow);
    }
    user.pending_usdc = 0;
    user.reward_debt = debt;
    pool.last_observed_usdc_balance = pool.last_observed_usdc_balance - claim_amount;
    Ok(())
}

/// The staking vault must hold at least the claimed amount.
pub fn validate_vault_balance_for_claim(vault_balance: u64, claim_amount: u64) -> (r: ProgramResult<()>)
    ensures
        r == (if vault_balance >= claim_amount { Ok::<(), CustomError>(()) } else { Err(CustomError::InsufficientVaultBalance) }),
{
    if vault_balance >= claim_amount {
        Ok(())
    } else {
        Err(CustomError::InsufficientVaultBalance)
    }
}

/// A token account must have the expected mint (`InvalidMint`) and owner (`InvalidVault`).
pub fn validate_token_account_mint_and_owner(
    actual_mint: Pubkey,
    expected_mint: Pubkey,
    actual_owner: Pubkey,
    expected_owner: Pubkey,
) -> (r: ProgramResult<()>)
    ensures
        r == (if actual_mint != expected_mint {
            Err::<(), CustomError>(CustomError::InvalidMint)
        } else if actual_owner != expected_owner {
            Err(CustomError::InvalidVault)
        } else {
            Ok(())
        }),
{
    if actual_mint != expected_mint {
        return Err(CustomError::InvalidMint);
    }
    if actual_owner != expected_owner {
        return Err(CustomError::InvalidVault);
    }
    Ok(())
}

/// The claim instruction's effect: pool and user after paying out `claim`.
pub open spec fn spec_after_claim(pool: StakingPoolV1, user: UserStakeAccount, claim: u64) -> ProgramResult<(StakingPoolV1, UserStakeAccount)> {
    match spec_reward_debt(user.effective_weight, pool.acc_usdc_per_weight) {
        Err(e) => Err(e),
        Ok(debt) => if claim <= pool.last_observed_usdc_balance {
            Ok((
                StakingPoolV1 { last_observed_usdc_balance: (pool.last_observed_usdc_balance - claim) as u64, ..pool },
                UserStakeAccount { pending_usdc: 0, reward_debt: debt, ..user },
            ))
        } else {
            Err(CustomError::MathOverflow)
        },
    }
}

/// Sets up a new staking pool; a `min_claim_usdc` of 0 selects the default minimum.
#[allow(clippy::too_many_arguments)]
pub fn initialize_staking_pool_state(
    staking_pool: &mut StakingPoolV1,
    authority: Pubkey,
    alpha_mint: Pubkey,
    usdc_mint: Pubkey,
    alpha_vault: Pubkey,
    alpha_vault_authority: Pubkey,
    staking_usdc_vault: Pubkey,
    vault_authority_v2: Pubkey,
    staking_usdc_vault_amount: u64,
    min_claim_usdc: u64,
    now_ts: i64,
    vault_authority_v2_bump: u8,
    alpha_vault_authority_bump: u8,
    bump: u8,
)
    ensures
        *final(staking_pool) == (StakingPoolV1 {
            authority,
            alpha_mint,
            usdc_mint,
            alpha_vault,
            alpha_vault_authority,
            staking_usdc_vault,
            vault_authority_v2,
            total_staked_alpha: 0,
            total_effective_weight: 0,
            acc_usdc_per_weight: 0,
            last_reward_update_ts: now_ts,
            last_observed_usdc_balance: staking_usdc_vault_amount,
            reward_release_bps: STAKING_PHASE1_REWARD_RELEASE_BPS,
            min_claim_usdc: if min_claim_usdc == 0 { DEFAULT_MIN_CLAIM_USDC } else { min_claim_usdc },
            vault_authority_v2_bump,
            alpha_vault_authority_bump,
            bump,
        }),
{
    let min_claim_usdc = if min_claim_usdc == 0 { DEFAULT_MIN_CLAIM_USDC } else { min_claim_usdc };
    staking_pool.authority = authority;
    staking_pool.alpha_mint = alpha_mint;
    staking_pool.usdc_mint = usdc_mint;
    staking_pool.alpha_vault = alpha_vault;
    staking_pool.alpha_vault_authority = alpha_vault_authority;
    staking_pool.staking_usdc_vault = staking_usdc_vault;
    staking_pool.vault_authority_v2 = vault_authority_v2;
    staking_pool.total_staked_alpha = 0;
    staking_pool.total_effective_weight = 0;
    staking_pool.acc_usdc_per_weight = 0;
    staking_pool.last_reward_update_ts = now_ts;
    staking_pool.last_observed_usdc_balance = staking_usdc_vault_amount;
    staking_pool.reward_release_bps = STAKING_PHASE1_REWARD_RELEASE_BPS;
    staking_pool.min_claim_usdc = min_claim_usdc;
    staking_pool.vault_authority_v2_bump = vault_authority_v2_bump;
    staking_pool.alpha_vault_authority_bump = alpha_vault_authority_bump;
    staking_pool.bump = bump;
}

/// The stake instruction: observes the staking vault, then stakes `amount`.
/// Returns the ALPHA amount the owner must transfer into the vault.
pub fn stake_alpha(
    pool: &mut StakingPoolV1,
    user: &mut UserStakeAccount,
    owner: Pubkey,
    amount: u64,
    lock_tier: u8,
    staking_usdc_vault_amount: u64,
    now_ts: i64,
    user_bump: u8,
) -> (r: ProgramResult<u64>)
    ensures
        match spec_update_pool(*old(pool), staking_usdc_vault_amount, now_ts) {
            Err(e) => r == Err::<u64, CustomError>(e) && *final(pool) == *old(pool) && *final(user) == *old(user),
            Ok(observed) => match spec_stake(observed, *old(user), owner, amount, lock_tier, now_ts, user_bump) {
                Ok((p, u)) => r == Ok::<u64, CustomError>(amount) && *final(pool) == p && *final(user) == u,
                Err(e) => r == Err::<u64, CustomError>(e) && *final(pool) == observed,
            },
        },
{
    update_pool_rewards_from_balance(pool, staking_usdc_vault_amount, now_ts)?;
    apply_stake_state(pool, user, owner, amount, lock_tier, now_ts, user_bump)?;
    Ok(amount)
}

/// The claim instruction: observes the staking vault, computes the claim, checks
/// it against the pool minimum and the vault balance, and records the payout.
/// Returns the USDC amount to transfer to the owner.
pub fn claim_usdc_rewards(
    pool: &mut StakingPoolV1,
    user: &mut UserStakeAccount,
    staking_usdc_vault_amount: u64,
    now_ts: i64,
) -> (r: ProgramResult<u64>)
    ensures
        match spec_update_pool(*old(pool), staking_usdc_vault_amount, now_ts) {
            Err(e) => r == Err::<u64, CustomError>(e) && *final(pool) == *old(pool) && *final(user) == *old(user),
            Ok(observed) => (match spec_claim_amount(observed, *old(user)) {
                Err(e) => r == Err::<u64, CustomError>(e),
                Ok(claim) => if claim < observed.min_claim_usdc {
                    r == Err::<u64, CustomError>(CustomError::ClaimAmountTooSmall)
                } else if staking_usdc_vault_amount < claim {
                    r == Err::<u64, CustomError>(CustomError::InsufficientVaultBalance)
                } else {
                    match spec_after_claim(observed, *old(user), claim) {
                        Ok((p, u)) => r == Ok::<u64, CustomError>(claim) && *final(pool) == p && *final(user) == u,
                        Err(e) => r == Err::<u64, CustomError>(e),
                    }
                },
            }) && (r is Err ==> *final(pool) == observed && *final(user) == *old(user)),
        },
{
    update_pool_rewards_from_balance(pool, staking_usdc_vault_amount, now_ts)?;
    let claim_amount = calculate_claim_amount(pool, user)?;
    if claim_amount < pool.min_claim_usdc {
        return Err(CustomError::ClaimAmountTooSmall);
    }
    validate_vault_balance_for_claim(staking_usdc_vault_amount, claim_amount)?;
    apply_claim_state(pool, user, claim_amount)?;
    Ok(claim_amount)
}

/// The unstake instruction: observes the staking vault, then unstakes `amount`.
/// Returns the ALPHA amount to transfer back to the owner.
pub fn unstake_alpha(
    pool: &mut StakingPoolV1,
    user: &mut UserStakeAccount,
    owner: Pubkey,
    amount: u64,
    staking_usdc_vault_amount: u64,
    now_ts: i64,
) -> (r: ProgramResult<u64>)
    ensures
        match spec_update_pool(*old(pool), staking_usdc_vault_amount, now_ts) {
            Err(e) => r == Err::<u64, CustomError>(e) && *final(pool) == *old(pool) && *final(user) == *old(user),
            Ok(observed) => match spec_unstake(observed, *old(user), owner, amount, now_ts) {
                Ok((p, u)) => r == Ok::<u64, CustomError>(amount) && *final(pool) == p && *final(user) == u,
                Err(e) => r == Err::<u64, CustomError>(e),
            },
        },
{
    update_pool_rewards_from_balance(pool, staking_usdc_vault_amount, now_ts)?;
    apply_unstake_state(pool, user, owner, amount, now_ts)?;
    Ok(amount)
}

/// Right after a claim is recorded, the user has nothing left to claim.
pub proof fn law_claim_leaves_nothing_to_claim(pool: StakingPoolV1, user: UserStakeAccount, claim: u64)
    requires
        spec_after_claim(pool, user, claim) is Ok,
    ensures
        spec_claim_amount(spec_after_claim(pool, user, claim)->Ok_0.0, spec_after_claim(pool, user, claim)->Ok_0.1)
            == Ok::<u64, CustomError>(0),
{
}

/// Staking adds exactly the staked amount to the user's and the pool's totals,
/// and the stake's weight to both weights.
pub proof fn law_stake_adds_amount_and_weight(
    pool: StakingPoolV1,
    user: UserStakeAccount,
    owner: Pubkey,
    amount: u64,
    lock_tier: u8,
    now_ts: i64,
    user_bump: u8,
)
    requires
        spec_stake(pool, user, owner, amount, lock_tier, now_ts, user_bump) is Ok,
    ensures
        ({
            let (p, u) = spec_stake(pool, user, owner, amount, lock_tier, now_ts, user_bump)->Ok_0;
            let added = spec_effective_weight(amount, spec_lock_tier(lock_tier)->Some_0.multiplier_bps);
            &&& p.total_staked_alpha == pool.total_staked_alpha + amount
            &&& u.staked_amount == user.staked_amount + amount
            &&& p.total_effective_weight == pool.total_effective_weight + added
            &&& u.effective_weight == user.effective_weight + added
            &&& u.owner == owner
            &&& u.lock_tier == lock_tier
        }),
{
}

/// Unstaking everything after the lock ends undoes a first stake: the pool's
/// staked total and weight return to their values before the stake, and the
/// user keeps no stake, weight or debt.
pub proof fn law_full_unstake_undoes_first_stake(
    pool: StakingPoolV1,
    user: UserStakeAccount,
    owner: Pubkey,
    amount: u64,
    lock_tier: u8,
    stake_ts: i64,
    unstake_ts: i64,
    user_bump: u8,
)
    requires
        user.staked_amount == 0,
        user.effective_weight == 0,
        spec_stake(pool, user, owner, amount, lock_tier, stake_ts, user_bump) is Ok,
        spec_unstake(
            spec_stake(pool, user, owner, amount, lock_tier, stake_ts, user_bump)->Ok_0.0,
            spec_stake(pool, user, owner, amount, lock_tier, stake_ts, user_bump)->Ok_0.1,
            owner,
            amount,
            unstake_ts,
        ) is Ok,
    ensures
        ({
            let (p1, u1) = spec_stake(pool, user, owner, amount, lock_tier, stake_ts, user_bump)->Ok_0;
            let (p2, u2) = spec_unstake(p1, u1, owner, amount, unstake_ts)->Ok_0;
            &&& p2.total_staked_alpha == pool.total_staked_alpha
            &&& p2.total_effective_weight == pool.total_effective_weight
            &&& u2.staked_amount == 0
            &&& u2.effective_weight == 0
            &&& u2.reward_debt == 0
        }),
{
}

/// Observing the staking vault never lowers the reward index.
pub proof fn law_reward_index_never_decreases(pool: StakingPoolV1, current_balance: u64, now_ts: i64)
    requires
        spec_update_pool(pool, current_balance, now_ts) is Ok,
    ensures
        spec_update_pool(pool, current_balance, now_ts)->Ok_0.acc_usdc_per_weight >= pool.acc_usdc_per_weight,
        spec_update_pool(pool, current_balance, now_ts)->Ok_0.last_observed_usdc_balance == current_balance,
{
}

/// Staking more never changes what the user can claim: the rewards earned
/// before a stake are settled into the user's pending USDC, so the claim
/// amount on the pool and user after a successful stake equals the claim
/// amount before it.
pub proof fn law_stake_keeps_claimable_rewards(
    pool: StakingPoolV1,
    user: UserStakeAccount,
    owner: Pubkey,
    amount: u64,
    lock_tier: u8,
    now_ts: i64,
    user_bump: u8,
)
    requires
        spec_stake(pool, user, owner, amount, lock_tier, now_ts, user_bump) is Ok,
    ensures
        spec_claim_amount(
            spec_stake(pool, user, owner, amount, lock_tier, now_ts, user_bump)->Ok_0.0,
            spec_stake(pool, user, owner, amount, lock_tier, now_ts, user_bump)->Ok_0.1,
        ) == spec_claim_amount(pool, user),
{
}

/// Unstaking, in part or in full, never changes what the user can claim:
/// the rewards earned before it are settled into the user's pending USDC, so
/// the claim amount on the pool and user after a successful unstake equals
/// the claim amount before it.
pub proof fn law_unstake_keeps_claimable_rewards(
    pool: StakingPoolV1,
    user: UserStakeAccount,
    owner: Pubkey,
    amount: u64,
    now_ts: i64,
)
    requires
        spec_unstake(pool, user, owner, amount, now_ts) is Ok,
    ensures
        spec_claim_amount(
            spec_unstake(pool, user, owner, amount, now_ts)->Ok_0.0,
            spec_unstake(pool, user, owner, amount, now_ts)->Ok_0.1,
        ) == spec_claim_amount(pool, user),
{
}

} // verus!
