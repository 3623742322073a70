//! Green Label bond arithmetic: the base/extra split, the bond tier, the
//! 80/20 base-bond refund split and the project status machine.
use vstd::prelude::*;
use crate::constants::{
    BASE_BOND_REFUND_BPS, BASE_BOND_TREASURY_BPS, GREEN_LABEL_BRONZE_TIER_THRESHOLD_USDC,
    GREEN_LABEL_GOLD_TIER_THRESHOLD_USDC, GREEN_LABEL_PLATINUM_TIER_THRESHOLD_USDC,
    GREEN_LABEL_SILVER_TIER_THRESHOLD_USDC, MAX_BPS, MIN_GREEN_LABEL_BASE_BOND_USDC,
};
use crate::error::{CustomError, ProgramResult};
use crate::state::{BondTier, GreenLabelStatus};

verus! {

/// A total bond split into the configured base bond and the extra above it.
#[derive(Clone, Copy, Debug, PartialEq, Eq, Structural)]
pub struct GreenLabelBondSplit {
    pub base_bond_amount: u64,
    pub extra_bond_amount: u64,
    pub total_bond_amount: u64,
}

/// Who receives what when a bond is refunded.
#[derive(Clone, Copy, Debug, PartialEq, Eq, Structural)]
pub struct GreenLabelRefundAmounts {
    pub project_refund_amount: u64,
    pub treasury_amount: u64,
    pub base_refund_amount: u64,
    pub base_treasury_amount: u64,
    pub extra_refund_amount: u64,
}

/// The outcome of checking that the refund and treasury shares make 100%.
pub open spec fn spec_bps_config(base_refund_bps: u16, base_treasury_bps: u16) -> ProgramResult<()> {
    if base_refund_bps + base_treasury_bps > u16::MAX {
        Err(CustomError::GreenLabelMathOverflow)
    } else if base_refund_bps + base_treasury_bps != MAX_BPS {
        Err(CustomError::InvalidGreenLabelBpsConfig)
    } else {
        Ok(())
    }
}

/// The two shares must add up to exactly 10 000 basis points.
pub fn validate_green_label_bps_config(base_refund_bps: u16, base_treasury_bps: u16) -> (r: ProgramResult<()>)
    ensures
        r == spec_bps_config(base_refund_bps, base_treasury_bps),
{
    let configured_bps = match base_refund_bps.checked_add(base_treasury_bps) {
        Some(v) => v,
        None => return Err(CustomError::GreenLabelMathOverflow),
    };
    if configured_bps != MAX_BPS {
        return Err(CustomError::InvalidGreenLabelBpsConfig);
    }
    Ok(())
}

/// Whether a configured minimum base bond lies in `1 ..= 299 USDC`.
pub open spec fn spec_min_base_bond_in_range(min_base: u64) -> bool {
    0 < min_base && min_base <= MIN_GREEN_LABEL_BASE_BOND_USDC
}

/// The split of `total` against the configured minimum base bond.
pub open spec fn spec_split(total: u64, min_base: u64) -> ProgramResult<GreenLabelBondSplit> {
    if !spec_min_base_bond_in_range(min_base) || total < min_base {
        Err(CustomError::InvalidGreenLabelBondAmount)
    } else {
        Ok(GreenLabelBondSplit {
            base_bond_amount: min_base,
            extra_bond_amount: (total - min_base) as u64,
            total_bond_amount: total,
        })
    }
}

/// Splits a bond into the configured base and the extra above it.
pub fn split_green_label_bond(total_bond_amount: u64, configured_min_base_bond_usdc: u64) -> (r: ProgramResult<GreenLabelBondSplit>)
    ensures
        r == spec_split(total_bond_amount, configured_min_base_bond_usdc),
        r matches Ok(s) ==> s.base_bond_amount + s.extra_bond_amount == s.total_bond_amount,
{
    if !(configured_min_base_bond_usdc > 0 && configured_min_base_bond_usdc <= MIN_GREEN_LABEL_BASE_BOND_USDC) {
        return Err(CustomError::InvalidGreenLabelBondAmount);
    }
    if total_bond_amount < configured_min_base_bond_usdc {
        return Err(CustomError::InvalidGreenLabelBondAmount);
    }
    let extra_bond_amount = total_bond_amount - configured_min_base_bond_usdc;
    Ok(GreenLabelBondSplit {
        base_bond_amount: configured_min_base_bond_usdc,
        extra_bond_amount,
        total_bond_amount,
    })
}

/// The tier a bond of `total` earns.
pub open spec fn spec_tier_of(total: u64) -> BondTier {
    if total >= GREEN_LABEL_PLATINUM_TIER_THRESHOLD_USDC {
        BondTier::Platinum
    } else if total >= GREEN_LABEL_GOLD_TIER_THRESHOLD_USDC {
        BondTier::Gold
    } else if total >= GREEN_LABEL_SILVER_TIER_THRESHOLD_USDC {
        BondTier::Silver
    } else if total >= GREEN_LABEL_BRONZE_TIER_THRESHOLD_USDC {
        BondTier::Bronze
    } else {
        BondTier::Base
    }
}

/// The rank of a tier, lowest first.
pub open spec fn spec_tier_rank(tier: BondTier) -> int {
    match tier {
        BondTier::Base => 0,
        BondTier::Bronze => 1,
        BondTier::Silver => 2,
        BondTier::Gold => 3,
        BondTier::Platinum => 4,
    }
}

/// The tier of a bond, after the same checks as the split.
pub open spec fn spec_bond_tier(total: u64, min_base: u64) -> ProgramResult<BondTier> {
    if !spec_min_base_bond_in_range(min_base) || total < min_base {
        Err(CustomError::InvalidGreenLabelBondAmount)
    } else {
        Ok(spec_tier_of(total))
    }
}

/// The tier of a bond: Base below 500 USDC, then Bronze, Silver (1 000),
/// Gold (3 000) and Platinum (10 000 USDC and above).
pub fn calculate_bond_tier(total_bond_amount: u64, configured_min_base_bond_usdc: u64) -> (r: ProgramResult<BondTier>)
    ensures
        r == spec_bond_tier(total_bond_amount, configured_min_base_bond_usdc),
{
    if !(configured_min_base_bond_usdc > 0 && configured_min_base_bond_usdc <= MIN_GREEN_LABEL_BASE_BOND_USDC) {
        return Err(CustomError::InvalidGreenLabelBondAmount);
    }
    if total_bond_amount < configured_min_base_bond_usdc {
        return Err(CustomError::InvalidGreenLabelBondAmount);
    }
    if total_bond_amount >= GREEN_LABEL_PLATINUM_TIER_THRESHOLD_USDC {
        Ok(BondTier::Platinum)
    } else if total_bond_amount >= GREEN_LABEL_GOLD_TIER_THRESHOLD_USDC {
        Ok(BondTier::Gold)
    } else if total_bond_amount >= GREEN_LABEL_SILVER_TIER_THRESHOLD_USDC {
        Ok(BondTier::Silver)
    } else if total_bond_amount >= GREEN_LABEL_BRONZE_TIER_THRESHOLD_USDC {
        Ok(BondTier::Bronze)
    } else {
        Ok(BondTier::Base)
    }
}

/// The split and tier of a bond together.
pub open spec fn spec_split_and_tier(total: u64, min_base: u64) -> ProgramResult<(GreenLabelBondSplit, BondTier)> {
    match spec_split(total, min_base) {
        Ok(split) => Ok((split, spec_tier_of(total))),
        Err(e) => Err(e),
    }
}

/// Splits a bond and computes its tier.
pub fn derive_bond_split_and_tier(total_bond_amount: u64, configured_min_base_bond_usdc: u64) -> (r: ProgramResult<(GreenLabelBondSplit, BondTier)>)
    ensures
        r == spec_split_and_tier(total_bond_amount, configured_min_base_bond_usdc),
{
    let split = split_green_label_bond(total_bond_amount, configured_min_base_bond_usdc)?;
    let tier = calculate_bond_tier(total_bond_amount, configured_min_base_bond_usdc)?;
    Ok((split, tier))
}

/// `amount * bps / 10 000`, rounded down; an overflowing product fails.
pub open spec fn spec_bps_amount(amount: u64, bps: u16) -> ProgramResult<u64> {
    if amount * bps > u64::MAX {
        Err(CustomError::GreenLabelMathOverflow)
    } else {
        Ok(((amount * bps) / (MAX_BPS as int)) as u64)
    }
}

fn calculate_bps_amount(amount: u64, bps: u16) -> (r: ProgramResult<u64>)
    ensures
        r == spec_bps_amount(amount, bps),
{
    match amount.checked_mul(bps as u64) {
        Some(product) => Ok(product / (MAX_BPS as u64)),
        None => Err(CustomError::GreenLabelMathOverflow),
    }
}

/// The refund of a bond: 80% of the base goes back to the project with all
/// of the extra, 20% of the base stays with the treasury.
pub open spec fn spec_refund(base: u64, extra: u64) -> ProgramResult<GreenLabelRefundAmounts> {
    let base_refund = (base * BASE_BOND_REFUND_BPS) / (MAX_BPS as int);
    let base_treasury = (base * BASE_BOND_TREASURY_BPS) / (MAX_BPS as int);
    if base == 0 {
        Err(CustomError::InvalidGreenLabelBondAmount)
    } else if base * BASE_BOND_REFUND_BPS > u64::MAX {
        Err(CustomError::GreenLabelMathOverflow)
    } else if base_refund + base_treasury != base {
        Err(CustomError::InvalidGreenLabelBondSplit)
    } else if base_refund + extra > u64::MAX {
        Err(CustomError::GreenLabelMathOverflow)
    } else {
        Ok(GreenLabelRefundAmounts {
            project_refund_amount: (base_refund + extra) as u64,
            treasury_amount: base_treasury as u64,
            base_refund_amount: base_refund as u64,
            base_treasury_amount: base_treasury as u64,
            extra_refund_amount: extra,
        })
    }
}

/// Computes the refund split of a bond.
pub fn calculate_green_label_refund(base_bond_amount: u64, extra_bond_amount: u64) -> (r: ProgramResult<GreenLabelRefundAmounts>)
    ensures
        r == spec_refund(base_bond_amount, extra_bond_amount),
{
    validate_green_label_bps_config(BASE_BOND_REFUND_BPS, BASE_BOND_TREASURY_BPS)?;
    if base_bond_amount == 0 {
        return Err(CustomError::InvalidGreenLabelBondAmount);
    }
    let base_refund_amount = calculate_bps_amount(base_bond_amount, BASE_BOND_REFUND_BPS)?;
    let base_treasury_amount = calculate_bps_amount(base_bond_amount, BASE_BOND_TREASURY_BPS)?;
    let base_total = match base_refund_amount.checked_add(base_treasury_amount) {
        Some(v) => v,
        None => return Err(CustomError::GreenLabelMathOverflow),
    };
    if base_total != base_bond_amount {
        return Err(CustomError::InvalidGreenLabelBondSplit);
    }
    let project_refund_amount = match base_refund_amount.checked_add(extra_bond_amount) {
        Some(v) => v,
        None => return Err(CustomError::GreenLabelMathOverflow),
    };
    Ok(GreenLabelRefundAmounts {
        project_refund_amount,
        treasury_amount: base_treasury_amount,
        base_refund_amount,
        base_treasury_amount,
        extra_refund_amount: extra_bond_amount,
    })
}

/// The base bond is refunded without loss exactly when it is a multiple of
/// 5 base units: then the project's 80% and the treasury's 20% add up to the
/// base, and project and treasury together receive the whole bond.
pub proof fn law_refund_conserves_bond(base: u64, extra: u64)
    ensures
        spec_refund(base, extra) is Ok <==> (base > 0 && base * 8_000 <= u64::MAX && base % 5 == 0
            && base / 5 * 4 + extra <= u64::MAX),
        spec_refund(base, extra) matches Ok(a) ==> {
            &&& a.base_refund_amount + a.base_treasury_amount == base
            &&& a.project_refund_amount + a.treasury_amount == base + extra
            &&& a.base_refund_amount == base / 5 * 4
            &&& a.base_treasury_amount == base / 5
        },
{
    let k: int = base as int / 5;
    let m: int = base as int % 5;
    assert(base == 5 * k + m && 0 <= m < 5);
    assert((base * 2_000) / 10_000 == k);
    if m == 0 {
        assert((base * 8_000) / 10_000 == 4 * k);
    } else if m == 1 {
        assert((base * 8_000) / 10_000 == 4 * k);
    } else if m == 2 {
        assert((base * 8_000) / 10_000 == 4 * k + 1);
    } else if m == 3 {
        assert((base * 8_000) / 10_000 == 4 * k + 2);
    } else {
        assert((base * 8_000) / 10_000 == 4 * k + 3);
    }
}

/// A slash takes the whole bond; an empty bond cannot be slashed.
pub fn calculate_green_label_slash_amount(total_bond_amount: u64) -> (r: ProgramResult<u64>)
    ensures
        total_bond_amount == 0 ==> r == Err::<u64, CustomError>(CustomError::InvalidGreenLabelBondAmount),
        total_bond_amount > 0 ==> r == Ok::<u64, CustomError>(total_bond_amount),
{
    if total_bond_amount == 0 {
        return Err(CustomError::InvalidGreenLabelBondAmount);
    }
    Ok(total_bond_amount)
}

/// Proof that a larger bond never earns a lower tier.
pub proof fn law_bond_tier_is_monotone(smaller: u64, larger: u64, min_base: u64)
    requires
        smaller <= larger,
        spec_bond_tier(smaller, min_base) is Ok,
    ensures
        spec_bond_tier(larger, min_base) is Ok,
        spec_tier_rank(spec_tier_of(smaller)) <= spec_tier_rank(spec_tier_of(larger)),
{
}

/// Refunded, Slashed and Cancelled projects are final.
pub open spec fn spec_is_terminal_status(status: GreenLabelStatus) -> bool {
    status == GreenLabelStatus::Refunded || status == GreenLabelStatus::Slashed || status == GreenLabelStatus::Cancelled
}

/// The edges of the project status machine.
pub open spec fn spec_allowed_transition(from: GreenLabelStatus, to: GreenLabelStatus) -> bool {
    ||| from == GreenLabelStatus::PendingBondDeposit && to == GreenLabelStatus::PendingObservation
    ||| from == GreenLabelStatus::PendingBondDeposit && to == GreenLabelStatus::Cancelled
    ||| from == GreenLabelStatus::PendingObservation && to == GreenLabelStatus::ActiveGreenLabel
    ||| from == GreenLabelStatus::PendingObservation && to == GreenLabelStatus::Disputed
    ||| from == GreenLabelStatus::PendingObservation && to == GreenLabelStatus::RefundQueued
    ||| from == GreenLabelStatus::ActiveGreenLabel && to == GreenLabelStatus::Disputed
    ||| from == GreenLabelStatus::Disputed && to == GreenLabelStatus::SlashQueued
    ||| from == GreenLabelStatus::Disputed && to == GreenLabelStatus::RefundQueued
    ||| from == GreenLabelStatus::RefundQueued && to == GreenLabelStatus::Refunded
    ||| from == GreenLabelStatus::SlashQueued && to == GreenLabelStatus::Slashed
}

/// The outcome of checking a status change.
pub open spec fn spec_status_transition(from: GreenLabelStatus, to: GreenLabelStatus, has_linked_dispute: bool) -> ProgramResult<()> {
    if spec_is_terminal_status(from) {
        Err(CustomError::InvalidGreenLabelStatus)
    } else if from == GreenLabelStatus::Disputed && to == GreenLabelStatus::SlashQueued && !has_linked_dispute {
        Err(CustomError::InvalidGreenLabelSlashWithoutDispute)
    } else if !spec_allowed_transition(from, to) {
        Err(CustomError::InvalidGreenLabelStatus)
    } else {
        Ok(())
    }
}

/// Checks a project status change against the status machine; a slash may
/// only be queued for a dispute that is linked to a decision, and a terminal
/// status never changes again.
pub fn validate_green_label_status_transition(
    from: GreenLabelStatus,
    to: GreenLabelStatus,
    has_linked_dispute: bool,
) -> (r: ProgramResult<()>)
    ensures
        r == spec_status_transition(from, to, has_linked_dispute),
        spec_is_terminal_status(from) ==> r == Err::<(), CustomError>(CustomError::InvalidGreenLabelStatus),
{
    if from == GreenLabelStatus::Refunded || from == GreenLabelStatus::Slashed || from == GreenLabelStatus::Cancelled {
        return Err(CustomError::InvalidGreenLabelStatus);
    }
    if from == GreenLabelStatus::Disputed && to == GreenLabelStatus::SlashQueued && !has_linked_dispute {
        return Err(CustomError::InvalidGreenLabelSlashWithoutDispute);
    }
    let is_valid = (from == GreenLabelStatus::PendingBondDeposit && to == GreenLabelStatus::PendingObservation)
        || (from == GreenLabelStatus::PendingBondDeposit && to == GreenLabelStatus::Cancelled)
        || (from == GreenLabelStatus::PendingObservation && to == GreenLabelStatus::ActiveGreenLabel)
        || (from == GreenLabelStatus::PendingObservation && to == GreenLabelStatus::Disputed)
        || (from == GreenLabelStatus::PendingObservation && to == GreenLabelStatus::RefundQueued)
        || (from == GreenLabelStatus::ActiveGreenLabel && to == GreenLabelStatus::Disputed)
        || (from == GreenLabelStatus::Disputed && to == GreenLabelStatus::SlashQueued)
        || (from == GreenLabelStatus::Disputed && to == GreenLabelStatus::RefundQueued)
        || (from == GreenLabelStatus::RefundQueued && to == GreenLabelStatus::Refunded)
        || (from == GreenLabelStatus::SlashQueued && to == GreenLabelStatus::Slashed);
    if !is_valid {
        return Err(CustomError::InvalidGreenLabelStatus);
    }
    Ok(())
}

/// Proof that the status machine reaches no status from a terminal one, and
/// that every accepted change follows one of its edges.
pub proof fn law_terminal_status_is_final(from: GreenLabelStatus, to: GreenLabelStatus, has_linked_dispute: bool)
    ensures
        spec_is_terminal_status(from) ==> spec_status_transition(from, to, has_linked_dispute) is Err,
        spec_status_transition(from, to, has_linked_dispute) is Ok ==> spec_allowed_transition(from, to)
            && !spec_is_terminal_status(from),
        spec_status_transition(from, to, has_linked_dispute) is Ok && to == GreenLabelStatus::SlashQueued
            ==> has_linked_dispute,
{
}

} // verus!
