//! Protocol-wide numeric constants.
use vstd::prelude::*;

verus! {

/// Basis-point denominator (100%).
pub const BPS_DENOMINATOR: u64 = 10_000;
/// Largest basis-point value (100%).
pub const MAX_BPS: u16 = 10_000;

/// Minimum USDC claim when a staking pool is initialized with `0`.
pub const DEFAULT_MIN_CLAIM_USDC: u64 = 1_000_000;
/// Share of newly observed staking income released to stakers (phase 1: all of it).
pub const STAKING_PHASE1_REWARD_RELEASE_BPS: u16 = 10_000;
/// Fixed-point scale of the staking reward index.
pub const REWARD_INDEX_SCALE: u128 = 1_000_000_000_000;

pub const LOCK_TIER_FLEXIBLE: u8 = 0;
pub const LOCK_TIER_30_DAYS: u8 = 1;
pub const LOCK_TIER_90_DAYS: u8 = 2;
pub const LOCK_TIER_180_DAYS: u8 = 3;
pub const LOCK_TIER_365_DAYS: u8 = 4;

pub const FLEXIBLE_MULTIPLIER_BPS: u16 = 6_000;
pub const LOCK_30_DAYS_MULTIPLIER_BPS: u16 = 10_000;
pub const LOCK_90_DAYS_MULTIPLIER_BPS: u16 = 13_500;
pub const LOCK_180_DAYS_MULTIPLIER_BPS: u16 = 18_000;
pub const LOCK_365_DAYS_MULTIPLIER_BPS: u16 = 25_000;

pub const SECONDS_PER_DAY: i64 = 86_400;
pub const LOCK_30_DAYS_SECONDS: i64 = 30 * 86_400;
pub const LOCK_90_DAYS_SECONDS: i64 = 90 * 86_400;
pub const LOCK_180_DAYS_SECONDS: i64 = 180 * 86_400;
pub const LOCK_365_DAYS_SECONDS: i64 = 365 * 86_400;

/// Shortest allowed Security Layer execution delay.
pub const MIN_EXECUTION_DELAY_SECONDS: i64 = 60;
/// Longest allowed Security Layer execution delay.
pub const MAX_EXECUTION_DELAY_SECONDS: i64 = 30 * 86_400;

/// Green Label base bond floor, in USDC base units (299 USDC).
pub const MIN_GREEN_LABEL_BASE_BOND_USDC: u64 = 299_000_000;
/// Share of the base bond returned to the project on refund.
pub const BASE_BOND_REFUND_BPS: u16 = 8_000;
/// Share of the base bond kept by the treasury on refund.
pub const BASE_BOND_TREASURY_BPS: u16 = 2_000;
pub const GREEN_LABEL_BRONZE_TIER_THRESHOLD_USDC: u64 = 500_000_000;
pub const GREEN_LABEL_SILVER_TIER_THRESHOLD_USDC: u64 = 1_000_000_000;
pub const GREEN_LABEL_GOLD_TIER_THRESHOLD_USDC: u64 = 3_000_000_000;
pub const GREEN_LABEL_PLATINUM_TIER_THRESHOLD_USDC: u64 = 10_000_000_000;
/// Decimals of the USDC mint.
pub const GREEN_LABEL_USDC_DECIMALS: u8 = 6;

pub const DEFAULT_OBSERVATION_PERIOD_SECONDS: i64 = 7 * 86_400;
pub const DEFAULT_DISPUTE_WINDOW_SECONDS: i64 = 3 * 86_400;
pub const DEFAULT_RESPONSE_WINDOW_SECONDS: i64 = 2 * 86_400;
/// Longest configurable Green Label window.
pub const MAX_GREEN_LABEL_WINDOW_SECONDS: i64 = 30 * 24 * 60 * 60;

pub const ANCHOR_ACCOUNT_DISCRIMINATOR_BYTES: usize = 8;
pub const GREEN_LABEL_CONFIG_RESERVED_BYTES: usize = 128;
pub const GREEN_LABEL_PROJECT_RESERVED_BYTES: usize = 160;
pub const GREEN_LABEL_DISPUTE_RESERVED_BYTES: usize = 128;
/// Discriminator + fields + reserved bytes of a Green Label config account.
pub const GREEN_LABEL_CONFIG_SPACE: usize = 8 + 32 + 32 + 8 + 2 + 2 + 8 + 8 + 8 + 8 + 32 * 5 + 1 + 1 + 128;
/// Discriminator + fields + reserved bytes of a Green Label project account.
pub const GREEN_LABEL_PROJECT_SPACE: usize = 8 + 8 + 32 + 32 + 32 + 32 + 32 + 8 * 3 + 32 * 2 + 1 + 1 + 8 * 4 + 32 + 8 * 3 + 2 + 8 + 32 * 3 + 1 + 1 + 160;
/// Discriminator + fields + reserved bytes of a Green Label dispute account.
pub const GREEN_LABEL_DISPUTE_SPACE: usize = 8 + 8 + 8 + 32 + 32 + 1 + 32 + 1 + 8 * 4 + 8 + 32 * 3 + 1 + 1 + 128;

pub const GREEN_LABEL_CERTIFICATION_SCHEMA_VERSION: u16 = 1;
pub const GREEN_LABEL_CERTIFICATION_FEE_SCHEMA_VERSION: u16 = 1;
pub const GREEN_LABEL_CERTIFICATION_FEE_POLICY_VERSION: u64 = 1;
pub const GREEN_LABEL_REFUND_SCHEMA_VERSION: u16 = 1;
pub const GREEN_LABEL_FORFEIT_SCHEMA_VERSION: u16 = 1;
pub const PROTOCOL_MODULE_REGISTRY_V1_SCHEMA_VERSION: u16 = 1;
pub const PROTOCOL_AUTHORITY_SCHEMA_VERSION_V1: u16 = 1;

} // verus!
