//! The refundable Green Label escrow: deposits, what is left to pay out,
//! refunds to the payer, forfeits to the treasury, and the treasury accounts
//! a forfeit is routed through.
use vstd::prelude::*;
use crate::codec::key_bytes;
use crate::constants::GREEN_LABEL_USDC_DECIMALS;
use crate::error::{CustomError, ProgramResult};
use crate::green_label_execution::{spec_linked_decision, validate_linked_decision, LinkedDecision};
use crate::keys::{Hash32, Key32, Pubkey};
use crate::pda::{is_derived_key, seed_and_key_address, single_seed_address, spec_address_is, spec_program_address, spec_seed, Seed};
use crate::state::{
    ActionType, DisputeStatus, ExecutionStatus, GreenLabelEscrowStatusV1, GreenLabelRefundableEscrowV1, GreenLabelStatus,
    ProposalDecision,
};

verus! {

/// The outcome of a request to open a refundable escrow.
pub open spec fn spec_escrow_init(
    config_is_paused: bool,
    project_owner: Pubkey,
    payer: Pubkey,
    expected_usdc_mint: Pubkey,
    provided_usdc_mint: Pubkey,
    now: i64,
    refund_available_after: i64,
) -> ProgramResult<()> {
    if config_is_paused {
        Err(CustomError::InvalidGreenLabelStatus)
    } else if project_owner != payer {
        Err(CustomError::InvalidGreenLabelProjectOwner)
    } else if provided_usdc_mint != expected_usdc_mint {
        Err(CustomError::InvalidGreenLabelMint)
    } else if refund_available_after < now {
        Err(CustomError::InvalidGreenLabelEscrowRefund)
    } else {
        Ok(())
    }
}

/// The project owner may open an escrow in USDC whose refund time is not in
/// the past, while the configuration is not paused.
pub fn validate_green_label_refundable_escrow_initialization(
    config_is_paused: bool,
    project_owner: Pubkey,
    payer: Pubkey,
    expected_usdc_mint: Pubkey,
    provided_usdc_mint: Pubkey,
    now: i64,
    refund_available_after: i64,
) -> (r: ProgramResult<()>)
    ensures
        r == spec_escrow_init(config_is_paused, project_owner, payer, expected_usdc_mint, provided_usdc_mint, now,
            refund_available_after),
{
    if config_is_paused {
        return Err(CustomError::InvalidGreenLabelStatus);
    }
    if project_owner != payer {
        return Err(CustomError::InvalidGreenLabelProjectOwner);
    }
    if provided_usdc_mint != expected_usdc_mint {
        return Err(CustomError::InvalidGreenLabelMint);
    }
    if refund_available_after < now {
        return Err(CustomError::InvalidGreenLabelEscrowRefund);
    }
    Ok(())
}

/// The outcome of a deposit request.
pub open spec fn spec_bond_deposit(
    escrow_status: GreenLabelEscrowStatusV1,
    expected_payer: Pubkey,
    payer: Pubkey,
    expected_usdc_mint: Pubkey,
    payer_usdc_account_mint: Pubkey,
    refundable_vault_mint: Pubkey,
    refundable_vault_owner: Pubkey,
    escrow_key: Pubkey,
    provided_usdc_mint: Pubkey,
    usdc_decimals: u8,
    amount: u64,
) -> ProgramResult<()> {
    if amount == 0 {
        Err(CustomError::InvalidGreenLabelEscrowAmount)
    } else if escrow_status != GreenLabelEscrowStatusV1::Locked {
        Err(CustomError::InvalidGreenLabelEscrowStatus)
    } else if expected_payer != payer {
        Err(CustomError::InvalidGreenLabelProjectOwner)
    } else if payer_usdc_account_mint != expected_usdc_mint || refundable_vault_mint != expected_usdc_mint {
        Err(CustomError::InvalidGreenLabelMint)
    } else if refundable_vault_owner != escrow_key {
        Err(CustomError::InvalidGreenLabelTokenAccount)
    } else if provided_usdc_mint != expected_usdc_mint || usdc_decimals != GREEN_LABEL_USDC_DECIMALS {
        Err(CustomError::InvalidGreenLabelMint)
    } else {
        Ok(())
    }
}

/// The escrow's payer may deposit a nonzero USDC amount into the escrow's
/// own vault while the escrow is locked.
pub fn validate_green_label_refundable_bond_deposit(
    escrow_status: GreenLabelEscrowStatusV1,
    expected_payer: Pubkey,
    payer: Pubkey,
    expected_usdc_mint: Pubkey,
    payer_usdc_account_mint: Pubkey,
    refundable_vault_mint: Pubkey,
    refundable_vault_owner: Pubkey,
    escrow_key: Pubkey,
    provided_usdc_mint: Pubkey,
    usdc_decimals: u8,
    amount: u64,
) -> (r: ProgramResult<()>)
    ensures
        r == spec_bond_deposit(escrow_status, expected_payer, payer, expected_usdc_mint, payer_usdc_account_mint,
            refundable_vault_mint, refundable_vault_owner, escrow_key, provided_usdc_mint, usdc_decimals, amount),
{
    if amount == 0 {
        return Err(CustomError::InvalidGreenLabelEscrowAmount);
    }
    if escrow_status != GreenLabelEscrowStatusV1::Locked {
        return Err(CustomError::InvalidGreenLabelEscrowStatus);
    }
    if expected_payer != payer {
        return Err(CustomError::InvalidGreenLabelProjectOwner);
    }
    if payer_usdc_account_mint != expected_usdc_mint {
        return Err(CustomError::InvalidGreenLabelMint);
    }
    if refundable_vault_mint != expected_usdc_mint {
        return Err(CustomError::InvalidGreenLabelMint);
    }
    if refundable_vault_owner != escrow_key {
        return Err(CustomError::InvalidGreenLabelTokenAccount);
    }
    if provided_usdc_mint != expected_usdc_mint {
        return Err(CustomError::InvalidGreenLabelMint);
    }
    if usdc_decimals != GREEN_LABEL_USDC_DECIMALS {
        return Err(CustomError::InvalidGreenLabelMint);
    }
    Ok(())
}

/// A deposit adds `amount` to the deposited and refundable totals and, on
/// the first deposit, records the deposit time. When the deposited total
/// would overflow nothing changes; when only the refundable total would, the
/// deposited total has already grown.
pub fn record_green_label_refundable_bond_deposit(escrow: &mut GreenLabelRefundableEscrowV1, amount: u64, now: i64) -> (r: ProgramResult<()>)
    ensures
        old(escrow).deposited_amount + amount > u64::MAX ==> {
            &&& r == Err::<(), CustomError>(CustomError::GreenLabelMathOverflow)
            &&& *final(escrow) == *old(escrow)
        },
        old(escrow).deposited_amount + amount <= u64::MAX && old(escrow).refundable_amount + amount > u64::MAX ==> {
            &&& r == Err::<(), CustomError>(CustomError::GreenLabelMathOverflow)
            &&& *final(escrow) == (GreenLabelRefundableEscrowV1 {
                deposited_amount: (old(escrow).deposited_amount + amount) as u64,
                ..*old(escrow)
            })
        },
        old(escrow).deposited_amount + amount <= u64::MAX && old(escrow).refundable_amount + amount <= u64::MAX ==> {
            &&& r == Ok::<(), CustomError>(())
            &&& *final(escrow) == (GreenLabelRefundableEscrowV1 {
                deposited_amount: (old(escrow).deposited_amount + amount) as u64,
                refundable_amount: (old(escrow).refundable_amount + amount) as u64,
                deposit_ts: if old(escrow).deposit_ts == 0 { now } else { old(escrow).deposit_ts },
                ..*old(escrow)
            })
        },
{
    escrow.deposited_amount = match escrow.deposited_amount.checked_add(amount) {
        Some(v) => v,
        None => return Err(CustomError::GreenLabelMathOverflow),
    };
    escrow.refundable_amount = match escrow.refundable_amount.checked_add(amount) {
        Some(v) => v,
        None => return Err(CustomError::GreenLabelMathOverflow),
    };
    if escrow.deposit_ts == 0 {
        escrow.deposit_ts = now;
    }
    Ok(())
}

/// What is left of the refundable amount once refunds and forfeits are
/// taken out.
pub open spec fn spec_remaining(refundable: u64, refunded: u64, forfeited: u64) -> ProgramResult<u64> {
    if refunded + forfeited > u64::MAX {
        Err(CustomError::GreenLabelMathOverflow)
    } else if refundable < refunded + forfeited {
        Err(CustomError::InvalidGreenLabelEscrowAmount)
    } else {
        Ok((refundable - (refunded + forfeited)) as u64)
    }
}

/// Computes what is left to pay out of an escrow.
pub fn calculate_green_label_escrow_remaining_amount(refundable_amount: u64, refunded_amount: u64, forfeited_amount: u64) -> (r: ProgramResult<u64>)
    ensures
        r == spec_remaining(refundable_amount, refunded_amount, forfeited_amount),
        r matches Ok(left) ==> left + refunded_amount + forfeited_amount == refundable_amount,
{
    let used_amount = match refunded_amount.checked_add(forfeited_amount) {
        Some(v) => v,
        None => return Err(CustomError::GreenLabelMathOverflow),
    };
    match refundable_amount.checked_sub(used_amount) {
        Some(v) => Ok(v),
        None => Err(CustomError::InvalidGreenLabelEscrowAmount),
    }
}

/// What an escrow can still pay out, refunded or forfeited: nothing once it
/// was refunded or forfeited, and never more than was deposited.
pub open spec fn spec_escrow_payable(
    escrow: GreenLabelRefundableEscrowV1,
    not_eligible: CustomError,
    nothing_left: CustomError,
) -> ProgramResult<u64> {
    if escrow.status == GreenLabelEscrowStatusV1::Refunded {
        Err(CustomError::GreenLabelEscrowAlreadyRefunded)
    } else if escrow.status == GreenLabelEscrowStatusV1::Forfeited {
        Err(CustomError::GreenLabelEscrowAlreadyForfeited)
    } else if escrow.status != GreenLabelEscrowStatusV1::Locked && escrow.status != GreenLabelEscrowStatusV1::Refundable {
        Err(not_eligible)
    } else if escrow.refundable_amount > escrow.deposited_amount {
        Err(CustomError::InvalidGreenLabelEscrowAmount)
    } else {
        match spec_remaining(escrow.refundable_amount, escrow.refunded_amount, escrow.forfeited_amount) {
            Err(e) => Err(e),
            Ok(left) => if left == 0 {
                Err(nothing_left)
            } else {
                Ok(left)
            },
        }
    }
}

/// The amount a governance refund pays back: the escrow's recorded
/// remaining liability, not the vault balance.
pub fn derive_green_label_refund_amount_v1(escrow: &GreenLabelRefundableEscrowV1) -> (r: ProgramResult<u64>)
    ensures
        r == spec_escrow_payable(*escrow, CustomError::GreenLabelRefundNotEligible, CustomError::GreenLabelRefundAmountMismatch),
{
    if escrow.status == GreenLabelEscrowStatusV1::Refunded {
        return Err(CustomError::GreenLabelEscrowAlreadyRefunded);
    }
    if escrow.status == GreenLabelEscrowStatusV1::Forfeited {
        return Err(CustomError::GreenLabelEscrowAlreadyForfeited);
    }
    if !(escrow.status == GreenLabelEscrowStatusV1::Locked || escrow.status == GreenLabelEscrowStatusV1::Refundable) {
        return Err(CustomError::GreenLabelRefundNotEligible);
    }
    if escrow.refundable_amount > escrow.deposited_amount {
        return Err(CustomError::InvalidGreenLabelEscrowAmount);
    }
    let refund_amount = calculate_green_label_escrow_remaining_amount(
        escrow.refundable_amount,
        escrow.refunded_amount,
        escrow.forfeited_amount,
    )?;
    if refund_amount == 0 {
        return Err(CustomError::GreenLabelRefundAmountMismatch);
    }
    Ok(refund_amount)
}

/// The amount a governance forfeit sends to the treasury: the escrow's
/// recorded remaining liability, not the vault balance.
pub fn derive_green_label_forfeitable_amount_v1(escrow: &GreenLabelRefundableEscrowV1) -> (r: ProgramResult<u64>)
    ensures
        r == spec_escrow_payable(*escrow, CustomError::GreenLabelForfeitNotEligible, CustomError::GreenLabelForfeitAmountMismatch),
{
    if escrow.status == GreenLabelEscrowStatusV1::Refunded {
        return Err(CustomError::GreenLabelEscrowAlreadyRefunded);
    }
    if escrow.status == GreenLabelEscrowStatusV1::Forfeited {
        return Err(CustomError::GreenLabelEscrowAlreadyForfeited);
    }
    if !(escrow.status == GreenLabelEscrowStatusV1::Locked || escrow.status == GreenLabelEscrowStatusV1::Refundable) {
        return Err(CustomError::GreenLabelForfeitNotEligible);
    }
    if escrow.refundable_amount > escrow.deposited_amount {
        return Err(CustomError::InvalidGreenLabelEscrowAmount);
    }
    let forfeit_amount = calculate_green_label_escrow_remaining_amount(
        escrow.refundable_amount,
        escrow.refunded_amount,
        escrow.forfeited_amount,
    )?;
    if forfeit_amount == 0 {
        return Err(CustomError::GreenLabelForfeitAmountMismatch);
    }
    Ok(forfeit_amount)
}

/// The vault must hold at least the refund.
pub fn validate_green_label_refund_vault_balance_v1(vault_balance: u64, refund_amount: u64) -> (r: ProgramResult<()>)
    ensures
        vault_balance >= refund_amount ==> r == Ok::<(), CustomError>(()),
        vault_balance < refund_amount ==> r == Err::<(), CustomError>(CustomError::GreenLabelRefundInsufficientFunds),
{
    if vault_balance < refund_amount {
        return Err(CustomError::GreenLabelRefundInsufficientFunds);
    }
    Ok(())
}

/// The vault must hold at least the forfeit.
pub fn validate_green_label_forfeit_vault_balance_v1(vault_balance: u64, forfeit_amount: u64) -> (r: ProgramResult<()>)
    ensures
        vault_balance >= forfeit_amount ==> r == Ok::<(), CustomError>(()),
        vault_balance < forfeit_amount ==> r == Err::<(), CustomError>(CustomError::GreenLabelForfeitInsufficientFunds),
{
    if vault_balance < forfeit_amount {
        return Err(CustomError::GreenLabelForfeitInsufficientFunds);
    }
    Ok(())
}

/// The outcome of checking the escrow's vault and mint for a forfeit.
pub open spec fn spec_forfeit_mint_accounts(
    escrow_usdc_mint: Pubkey,
    escrow_key: Pubkey,
    refundable_vault_mint: Pubkey,
    refundable_vault_owner: Pubkey,
    provided_usdc_mint: Pubkey,
    usdc_decimals: u8,
) -> ProgramResult<()> {
    if refundable_vault_mint != escrow_usdc_mint {
        Err(CustomError::GreenLabelForfeitMintMismatch)
    } else if refundable_vault_owner != escrow_key {
        Err(CustomError::GreenLabelForfeitVaultMismatch)
    } else if provided_usdc_mint != escrow_usdc_mint || usdc_decimals != GREEN_LABEL_USDC_DECIMALS {
        Err(CustomError::GreenLabelForfeitMintMismatch)
    } else {
        Ok(())
    }
}

/// A forfeit moves the escrow's own USDC vault, of the escrow's mint with 6
/// decimals.
pub fn validate_green_label_forfeit_mint_accounts_v1(
    escrow_usdc_mint: Pubkey,
    escrow_key: Pubkey,
    refundable_vault_mint: Pubkey,
    refundable_vault_owner: Pubkey,
    provided_usdc_mint: Pubkey,
    usdc_decimals: u8,
) -> (r: ProgramResult<()>)
    ensures
        r == spec_forfeit_mint_accounts(escrow_usdc_mint, escrow_key, refundable_vault_mint, refundable_vault_owner,
            provided_usdc_mint, usdc_decimals),
{
    if refundable_vault_mint != escrow_usdc_mint {
        return Err(CustomError::GreenLabelForfeitMintMismatch);
    }
    if refundable_vault_owner != escrow_key {
        return Err(CustomError::GreenLabelForfeitVaultMismatch);
    }
    if provided_usdc_mint != escrow_usdc_mint {
        return Err(CustomError::GreenLabelForfeitMintMismatch);
    }
    if usdc_decimals != GREEN_LABEL_USDC_DECIMALS {
        return Err(CustomError::GreenLabelForfeitMintMismatch);
    }
    Ok(())
}

/// A refund adds the amount to the refunded total and marks the escrow
/// Refunded; an overflowing total fails and changes nothing.
pub fn record_green_label_escrow_refunded(escrow: &mut GreenLabelRefundableEscrowV1, refund_amount: u64) -> (r: ProgramResult<()>)
    ensures
        old(escrow).refunded_amount + refund_amount > u64::MAX ==> {
            &&& r == Err::<(), CustomError>(CustomError::GreenLabelMathOverflow)
            &&& *final(escrow) == *old(escrow)
        },
        old(escrow).refunded_amount + refund_amount <= u64::MAX ==> {
            &&& r == Ok::<(), CustomError>(())
            &&& *final(escrow) == (GreenLabelRefundableEscrowV1 {
                refunded_amount: (old(escrow).refunded_amount + refund_amount) as u64,
                status: GreenLabelEscrowStatusV1::Refunded,
                ..*old(escrow)
            })
        },
{
    escrow.refunded_amount = match escrow.refunded_amount.checked_add(refund_amount) {
        Some(v) => v,
        None => return Err(CustomError::GreenLabelMathOverflow),
    };
    escrow.status = GreenLabelEscrowStatusV1::Refunded;
    Ok(())
}

/// A forfeit adds the amount to the forfeited total and marks the escrow
/// Forfeited; an overflowing total fails and changes nothing.
pub fn record_green_label_escrow_forfeited(escrow: &mut GreenLabelRefundableEscrowV1, forfeit_amount: u64) -> (r: ProgramResult<()>)
    ensures
        old(escrow).forfeited_amount + forfeit_amount > u64::MAX ==> {
            &&& r == Err::<(), CustomError>(CustomError::GreenLabelMathOverflow)
            &&& *final(escrow) == *old(escrow)
        },
        old(escrow).forfeited_amount + forfeit_amount <= u64::MAX ==> {
            &&& r == Ok::<(), CustomError>(())
            &&& *final(escrow) == (GreenLabelRefundableEscrowV1 {
                forfeited_amount: (old(escrow).forfeited_amount + forfeit_amount) as u64,
                status: GreenLabelEscrowStatusV1::Forfeited,
                ..*old(escrow)
            })
        },
{
    escrow.forfeited_amount = match escrow.forfeited_amount.checked_add(forfeit_amount) {
        Some(v) => v,
        None => return Err(CustomError::GreenLabelMathOverflow),
    };
    escrow.status = GreenLabelEscrowStatusV1::Forfeited;
    Ok(())
}

/// The outcome of a refund request against an escrow.
pub open spec fn spec_escrow_refund(
    escrow_status: GreenLabelEscrowStatusV1,
    refundable_amount: u64,
    refunded_amount: u64,
    forfeited_amount: u64,
    refund_available_after: i64,
    now: i64,
    project_active_dispute: Pubkey,
    project_terminal_action_type: ActionType,
    project_terminal_proposal_id: u64,
    project_terminal_payload_hash: Hash32,
    escrow_payer: Pubkey,
    payer_refund_account_owner: Pubkey,
    expected_usdc_mint: Pubkey,
    payer_refund_account_mint: Pubkey,
    refundable_vault_mint: Pubkey,
    refundable_vault_owner: Pubkey,
    escrow_key: Pubkey,
    provided_usdc_mint: Pubkey,
    usdc_decimals: u8,
    vault_balance: u64,
) -> ProgramResult<u64> {
    let time_refund_allowed = project_active_dispute == Key32::zero() && now >= refund_available_after;
    let decision_refund_allowed = project_terminal_action_type == ActionType::GreenLabelRefund
        && project_terminal_proposal_id > 0 && project_terminal_payload_hash != Key32::zero();
    if escrow_status != GreenLabelEscrowStatusV1::Locked && escrow_status != GreenLabelEscrowStatusV1::Refundable {
        Err(CustomError::InvalidGreenLabelEscrowStatus)
    } else if !(time_refund_allowed || decision_refund_allowed) {
        Err(CustomError::InvalidGreenLabelEscrowRefund)
    } else if payer_refund_account_owner != escrow_payer {
        Err(CustomError::InvalidGreenLabelEscrowRefund)
    } else if payer_refund_account_mint != expected_usdc_mint || refundable_vault_mint != expected_usdc_mint {
        Err(CustomError::InvalidGreenLabelMint)
    } else if refundable_vault_owner != escrow_key {
        Err(CustomError::InvalidGreenLabelTokenAccount)
    } else if provided_usdc_mint != expected_usdc_mint || usdc_decimals != GREEN_LABEL_USDC_DECIMALS {
        Err(CustomError::InvalidGreenLabelMint)
    } else {
        match spec_remaining(refundable_amount, refunded_amount, forfeited_amount) {
            Err(e) => Err(e),
            Ok(left) => if left == 0 {
                Err(CustomError::InvalidGreenLabelEscrowAmount)
            } else if vault_balance < left {
                Err(CustomError::GreenLabelInsufficientBondVaultBalance)
            } else {
                Ok(left)
            },
        }
    }
}

/// A locked or refundable escrow pays what is left back to its payer, either
/// once its refund time has passed with no dispute open, or when a refund
/// decision has been recorded for the project; the accounts must be the
/// payer's and the escrow's USDC accounts and the vault must cover the refund.
pub fn validate_green_label_escrow_refund(
    escrow_status: GreenLabelEscrowStatusV1,
    refundable_amount: u64,
    refunded_amount: u64,
    forfeited_amount: u64,
    refund_available_after: i64,
    now: i64,
    project_active_dispute: Pubkey,
    project_terminal_action_type: ActionType,
    project_terminal_proposal_id: u64,
    project_terminal_payload_hash: Hash32,
    escrow_payer: Pubkey,
    payer_refund_account_owner: Pubkey,
    expected_usdc_mint: Pubkey,
    payer_refund_account_mint: Pubkey,
    refundable_vault_mint: Pubkey,
    refundable_vault_owner: Pubkey,
    escrow_key: Pubkey,
    provided_usdc_mint: Pubkey,
    usdc_decimals: u8,
    vault_balance: u64,
) -> (r: ProgramResult<u64>)
    ensures
        r == spec_escrow_refund(escrow_status, refundable_amount, refunded_amount, forfeited_amount,
            refund_available_after, now, project_active_dispute, project_terminal_action_type,
            project_terminal_proposal_id, project_terminal_payload_hash, escrow_payer, payer_refund_account_owner,
            expected_usdc_mint, payer_refund_account_mint, refundable_vault_mint, refundable_vault_owner, escrow_key,
            provided_usdc_mint, usdc_decimals, vault_balance),
{
    if !(escrow_status == GreenLabelEscrowStatusV1::Locked || escrow_status == GreenLabelEscrowStatusV1::Refundable) {
        return Err(CustomError::InvalidGreenLabelEscrowStatus);
    }
    let time_refund_allowed = project_active_dispute.is_zero() && now >= refund_available_after;
    let decision_refund_allowed = project_terminal_action_type == ActionType::GreenLabelRefund
        && project_terminal_proposal_id > 0 && !project_terminal_payload_hash.is_zero();
    if !(time_refund_allowed || decision_refund_allowed) {
        return Err(CustomError::InvalidGreenLabelEscrowRefund);
    }
    if payer_refund_account_owner != escrow_payer {
        return Err(CustomError::InvalidGreenLabelEscrowRefund);
    }
    if payer_refund_account_mint != expected_usdc_mint {
        return Err(CustomError::InvalidGreenLabelMint);
    }
    if refundable_vault_mint != expected_usdc_mint {
        return Err(CustomError::InvalidGreenLabelMint);
    }
    if refundable_vault_owner != escrow_key {
        return Err(CustomError::InvalidGreenLabelTokenAccount);
    }
    if provided_usdc_mint != expected_usdc_mint {
        return Err(CustomError::InvalidGreenLabelMint);
    }
    if usdc_decimals != GREEN_LABEL_USDC_DECIMALS {
        return Err(CustomError::InvalidGreenLabelMint);
    }
    let refund_amount = calculate_green_label_escrow_remaining_amount(refundable_amount, refunded_amount, forfeited_amount)?;
    if refund_amount == 0 {
        return Err(CustomError::InvalidGreenLabelEscrowAmount);
    }
    if vault_balance < refund_amount {
        return Err(CustomError::GreenLabelInsufficientBondVaultBalance);
    }
    Ok(refund_amount)
}

/// Whether `key` is the program address derived from one fixed seed.
pub open spec fn spec_is_seed_address(key: Pubkey, seed: Seed) -> bool {
    spec_address_is(spec_program_address(seq![spec_seed(seed)]), key)
}

/// The USDC mint and owner of a treasury vault as the router reads them.
pub struct VaultView {
    pub key: Pubkey,
    pub mint: Pubkey,
    pub owner: Pubkey,
}

/// The outcome of checking the treasury accounts a forfeit is routed through.
pub open spec fn spec_treasury_router(
    expected_usdc_mint: Pubkey,
    treasury_config_key: Pubkey,
    treasury_config_usdc_mint: Pubkey,
    treasury_usdc_state_key: Pubkey,
    revenue_routing_stats_key: Pubkey,
    revenue_routing_stats_usdc_mint: Pubkey,
    vault_authority_key: Pubkey,
    relief: VaultView,
    buyback: VaultView,
    builders: VaultView,
    staking: VaultView,
) -> ProgramResult<()> {
    if !spec_is_seed_address(treasury_config_key, Seed::TreasuryConfigV2) {
        Err(CustomError::InvalidVault)
    } else if treasury_config_usdc_mint != expected_usdc_mint {
        Err(CustomError::InvalidGreenLabelMint)
    } else if !spec_is_seed_address(treasury_usdc_state_key, Seed::TreasuryUsdcStateV2)
        || !spec_address_is(
            spec_program_address(seq![spec_seed(Seed::RevenueRoutingStatsV1), key_bytes(treasury_config_key)]),
            revenue_routing_stats_key,
        ) {
        Err(CustomError::InvalidVault)
    } else if revenue_routing_stats_usdc_mint != expected_usdc_mint {
        Err(CustomError::InvalidMint)
    } else if !spec_is_seed_address(vault_authority_key, Seed::VaultAuthorityV2) {
        Err(CustomError::InvalidVault)
    } else if !spec_is_seed_address(relief.key, Seed::ReliefUsdcVault) {
        Err(CustomError::InvalidVault)
    } else if relief.mint != expected_usdc_mint {
        Err(CustomError::InvalidMint)
    } else if relief.owner != vault_authority_key || !spec_is_seed_address(buyback.key, Seed::BuybackUsdcVault) {
        Err(CustomError::InvalidVault)
    } else if buyback.mint != expected_usdc_mint {
        Err(CustomError::InvalidMint)
    } else if buyback.owner != vault_authority_key || !spec_is_seed_address(builders.key, Seed::BuildersUsdcVault) {
        Err(CustomError::InvalidVault)
    } else if builders.mint != expected_usdc_mint {
        Err(CustomError::InvalidMint)
    } else if builders.owner != vault_authority_key || !spec_is_seed_address(staking.key, Seed::StakingUsdcVault) {
        Err(CustomError::InvalidVault)
    } else if staking.mint != expected_usdc_mint {
        Err(CustomError::InvalidMint)
    } else if staking.owner != vault_authority_key {
        Err(CustomError::InvalidVault)
    } else {
        Ok(())
    }
}

/// The treasury accounts must be this program's treasury config, USDC state,
/// routing stats of that config, vault authority and the four USDC vaults at
/// their addresses, all in USDC and held by the vault authority.
pub fn validate_green_label_treasury_router_accounts(
    expected_usdc_mint: Pubkey,
    treasury_config_key: Pubkey,
    treasury_config_usdc_mint: Pubkey,
    treasury_usdc_state_key: Pubkey,
    revenue_routing_stats_key: Pubkey,
    revenue_routing_stats_usdc_mint: Pubkey,
    vault_authority_key: Pubkey,
    relief_usdc_vault_key: Pubkey,
    relief_usdc_vault_mint: Pubkey,
    relief_usdc_vault_owner: Pubkey,
    buyback_usdc_vault_key: Pubkey,
    buyback_usdc_vault_mint: Pubkey,
    buyback_usdc_vault_owner: Pubkey,
    builders_usdc_vault_key: Pubkey,
    builders_usdc_vault_mint: Pubkey,
    builders_usdc_vault_owner: Pubkey,
    staking_usdc_vault_key: Pubkey,
    staking_usdc_vault_mint: Pubkey,
    staking_usdc_vault_owner: Pubkey,
) -> (r: ProgramResult<()>)
    ensures
        r == spec_treasury_router(expected_usdc_mint, treasury_config_key, treasury_config_usdc_mint,
            treasury_usdc_state_key, revenue_routing_stats_key, revenue_routing_stats_usdc_mint, vault_authority_key,
            VaultView { key: relief_usdc_vault_key, mint: relief_usdc_vault_mint, owner: relief_usdc_vault_owner },
            VaultView { key: buyback_usdc_vault_key, mint: buyback_usdc_vault_mint, owner: buyback_usdc_vault_owner },
            VaultView { key: builders_usdc_vault_key, mint: builders_usdc_vault_mint, owner: builders_usdc_vault_owner },
            VaultView { key: staking_usdc_vault_key, mint: staking_usdc_vault_mint, owner: staking_usdc_vault_owner }),
{
    let expected_treasury_config = single_seed_address(Seed::TreasuryConfigV2);
    let expected_treasury_usdc_state = single_seed_address(Seed::TreasuryUsdcStateV2);
    let expected_revenue_routing_stats = seed_and_key_address(Seed::RevenueRoutingStatsV1, treasury_config_key);
    let expected_vault_authority = single_seed_address(Seed::VaultAuthorityV2);
    let expected_relief_usdc_vault = single_seed_address(Seed::ReliefUsdcVault);
    let expected_buyback_usdc_vault = single_seed_address(Seed::BuybackUsdcVault);
    let expected_builders_usdc_vault = single_seed_address(Seed::BuildersUsdcVault);
    let expected_staking_usdc_vault = single_seed_address(Seed::StakingUsdcVault);
    if !is_derived_key(expected_treasury_config, treasury_config_key) {
        return Err(CustomError::InvalidVault);
    }
    if treasury_config_usdc_mint != expected_usdc_mint {
        return Err(CustomError::InvalidGreenLabelMint);
    }
    if !is_derived_key(expected_treasury_usdc_state, treasury_usdc_state_key) {
        return Err(CustomError::InvalidVault);
    }
    if !is_derived_key(expected_revenue_routing_stats, revenue_routing_stats_key) {
        return Err(CustomError::InvalidVault);
    }
    if revenue_routing_stats_usdc_mint != expected_usdc_mint {
        return Err(CustomError::InvalidMint);
    }
    if !is_derived_key(expected_vault_authority, vault_authority_key) {
        return Err(CustomError::InvalidVault);
    }
    if !is_derived_key(expected_relief_usdc_vault, relief_usdc_vault_key) {
        return Err(CustomError::InvalidVault);
    }
    if relief_usdc_vault_mint != expected_usdc_mint {
        return Err(CustomError::InvalidMint);
    }
    if relief_usdc_vault_owner != vault_authority_key {
        return Err(CustomError::InvalidVault);
    }
    if !is_derived_key(expected_buyback_usdc_vault, buyback_usdc_vault_key) {
        return Err(CustomError::InvalidVault);
    }
    if buyback_usdc_vault_mint != expected_usdc_mint {
        return Err(CustomError::InvalidMint);
    }
    if buyback_usdc_vault_owner != vault_authority_key {
        return Err(CustomError::InvalidVault);
    }
    if !is_derived_key(expected_builders_usdc_vault, builders_usdc_vault_key) {
        return Err(CustomError::InvalidVault);
    }
    if builders_usdc_vault_mint != expected_usdc_mint {
        return Err(CustomError::InvalidMint);
    }
    if builders_usdc_vault_owner != vault_authority_key {
        return Err(CustomError::InvalidVault);
    }
    if !is_derived_key(expected_staking_usdc_vault, staking_usdc_vault_key) {
        return Err(CustomError::InvalidVault);
    }
    if staking_usdc_vault_mint != expected_usdc_mint {
        return Err(CustomError::InvalidMint);
    }
    if staking_usdc_vault_owner != vault_authority_key {
        return Err(CustomError::InvalidVault);
    }
    Ok(())
}

/// The checks of a forfeit before its linked decision.
pub open spec fn spec_forfeit_dispute(
    config_is_paused: bool,
    escrow_status: GreenLabelEscrowStatusV1,
    project_status: GreenLabelStatus,
    project_active_dispute: Pubkey,
    dispute_key: Pubkey,
    dispute_project: Pubkey,
    project_key: Pubkey,
    dispute_status: DisputeStatus,
) -> ProgramResult<()> {
    if config_is_paused {
        Err(CustomError::InvalidGreenLabelStatus)
    } else if escrow_status != GreenLabelEscrowStatusV1::Locked && escrow_status != GreenLabelEscrowStatusV1::Refundable {
        Err(CustomError::InvalidGreenLabelEscrowStatus)
    } else if project_status != GreenLabelStatus::SlashQueued {
        Err(CustomError::InvalidGreenLabelStatus)
    } else if project_active_dispute != dispute_key {
        Err(CustomError::InvalidGreenLabelActiveDispute)
    } else if dispute_project != project_key {
        Err(CustomError::InvalidGreenLabelTargetAccount)
    } else if dispute_status != DisputeStatus::DecisionQueued {
        Err(CustomError::InvalidGreenLabelDisputeStatus)
    } else {
        Ok(())
    }
}

/// The checks of a forfeit after its linked decision: the escrow's own USDC
/// vault, and a remaining amount that the vault covers.
pub open spec fn spec_forfeit_amount(
    refundable_amount: u64,
    refunded_amount: u64,
    forfeited_amount: u64,
    expected_usdc_mint: Pubkey,
    refundable_vault_mint: Pubkey,
    refundable_vault_owner: Pubkey,
    escrow_key: Pubkey,
    provided_usdc_mint: Pubkey,
    usdc_decimals: u8,
    vault_balance: u64,
) -> ProgramResult<u64> {
    if refundable_vault_mint != expected_usdc_mint {
        Err(CustomError::InvalidGreenLabelMint)
    } else if refundable_vault_owner != escrow_key {
        Err(CustomError::InvalidGreenLabelTokenAccount)
    } else if provided_usdc_mint != expected_usdc_mint || usdc_decimals != GREEN_LABEL_USDC_DECIMALS {
        Err(CustomError::InvalidGreenLabelMint)
    } else {
        match spec_remaining(refundable_amount, refunded_amount, forfeited_amount) {
            Err(e) => Err(e),
            Ok(left) => if left == 0 {
                Err(CustomError::InvalidGreenLabelEscrowAmount)
            } else if vault_balance < left {
                Err(CustomError::GreenLabelInsufficientBondVaultBalance)
            } else {
                Ok(left)
            },
        }
    }
}

/// An escrow is forfeited to the treasury only for a project queued for a
/// slash, through its dispute's linked, approved and still queued slash
/// decision past its timelock; what is forfeited is what is left in it.
pub fn validate_green_label_escrow_forfeit_to_treasury(
    config_is_paused: bool,
    project_status: GreenLabelStatus,
    project_active_dispute: Pubkey,
    dispute_key: Pubkey,
    project_terminal_proposal_id: u64,
    project_terminal_proposal_decision: Pubkey,
    project_terminal_execution_queue_item: Pubkey,
    project_terminal_payload_hash: Hash32,
    project_terminal_action_type: ActionType,
    dispute_project: Pubkey,
    project_key: Pubkey,
    dispute_status: DisputeStatus,
    dispute_proposal_id: u64,
    dispute_proposal_decision: Pubkey,
    dispute_execution_queue_item: Pubkey,
    dispute_payload_hash: Hash32,
    dispute_action_type: ActionType,
    proposal_decision_key: Pubkey,
    proposal_decision_proposal_id: u64,
    proposal_decision: ProposalDecision,
    execution_queue_item_key: Pubkey,
    queue_proposal_id: u64,
    queue_status: ExecutionStatus,
    queue_action_type: ActionType,
    queue_payload_hash: Hash32,
    queue_target_program: Pubkey,
    expected_program_id: Pubkey,
    queue_target_account: Pubkey,
    expected_target_account: Pubkey,
    now: i64,
    queue_execute_after: i64,
    escrow_status: GreenLabelEscrowStatusV1,
    refundable_amount: u64,
    refunded_amount: u64,
    forfeited_amount: u64,
    expected_usdc_mint: Pubkey,
    refundable_vault_mint: Pubkey,
    refundable_vault_owner: Pubkey,
    escrow_key: Pubkey,
    provided_usdc_mint: Pubkey,
    usdc_decimals: u8,
    vault_balance: u64,
) -> (r: ProgramResult<u64>)
    ensures
        ({
            let linked = LinkedDecision {
                terminal_proposal_id: project_terminal_proposal_id,
                terminal_proposal_decision: project_terminal_proposal_decision,
                terminal_execution_queue_item: project_terminal_execution_queue_item,
                terminal_payload_hash: project_terminal_payload_hash,
                terminal_action_type: project_terminal_action_type,
                dispute_proposal_id,
                dispute_proposal_decision,
                dispute_execution_queue_item,
                dispute_payload_hash,
                dispute_action_type,
                proposal_decision_key,
                proposal_decision_proposal_id,
                proposal_decision,
                execution_queue_item_key,
                queue_proposal_id,
                queue_status,
                queue_action_type,
                queue_payload_hash,
                queue_target_program,
                expected_program_id,
                queue_target_account,
                expected_target_account,
                now,
                queue_execute_after,
            };
            r == match spec_forfeit_dispute(config_is_paused, escrow_status, project_status, project_active_dispute,
                dispute_key, dispute_project, project_key, dispute_status) {
                Err(e) => Err(e),
                Ok(_) => match spec_linked_decision(ActionType::GreenLabelSlash, linked) {
                    Err(e) => Err(e),
                    Ok(_) => spec_forfeit_amount(refundable_amount, refunded_amount, forfeited_amount,
                        expected_usdc_mint, refundable_vault_mint, refundable_vault_owner, escrow_key,
                        provided_usdc_mint, usdc_decimals, vault_balance),
                },
            }
        }),
{
    if config_is_paused {
        return Err(CustomError::InvalidGreenLabelStatus);
    }
    if !(escrow_status == GreenLabelEscrowStatusV1::Locked || escrow_status == GreenLabelEscrowStatusV1::Refundable) {
        return Err(CustomError::InvalidGreenLabelEscrowStatus);
    }
    if project_status != GreenLabelStatus::SlashQueued {
        return Err(CustomError::InvalidGreenLabelStatus);
    }
    if project_active_dispute != dispute_key {
        return Err(CustomError::InvalidGreenLabelActiveDispute);
    }
    if dispute_project != project_key {
        return Err(CustomError::InvalidGreenLabelTargetAccount);
    }
    if dispute_status != DisputeStatus::DecisionQueued {
        return Err(CustomError::InvalidGreenLabelDisputeStatus);
    }
    let linked = LinkedDecision {
        terminal_proposal_id: project_terminal_proposal_id,
        terminal_proposal_decision: project_terminal_proposal_decision,
        terminal_execution_queue_item: project_terminal_execution_queue_item,
        terminal_payload_hash: project_terminal_payload_hash,
        terminal_action_type: project_terminal_action_type,
        dispute_proposal_id,
        dispute_proposal_decision,
        dispute_execution_queue_item,
        dispute_payload_hash,
        dispute_action_type,
        proposal_decision_key,
        proposal_decision_proposal_id,
        proposal_decision,
        execution_queue_item_key,
        queue_proposal_id,
        queue_status,
        queue_action_type,
        queue_payload_hash,
        queue_target_program,
        expected_program_id,
        queue_target_account,
        expected_target_account,
        now,
        queue_execute_after,
    };
    validate_linked_decision(ActionType::GreenLabelSlash, &linked)?;
    if refundable_vault_mint != expected_usdc_mint {
        return Err(CustomError::InvalidGreenLabelMint);
    }
    if refundable_vault_owner != escrow_key {
        return Err(CustomError::InvalidGreenLabelTokenAccount);
    }
    if provided_usdc_mint != expected_usdc_mint {
        return Err(CustomError::InvalidGreenLabelMint);
    }
    if usdc_decimals != GREEN_LABEL_USDC_DECIMALS {
        return Err(CustomError::InvalidGreenLabelMint);
    }
    let forfeit_amount = calculate_green_label_escrow_remaining_amount(refundable_amount, refunded_amount, forfeited_amount)?;
    if forfeit_amount == 0 {
        return Err(CustomError::InvalidGreenLabelEscrowAmount);
    }
    if vault_balance < forfeit_amount {
        return Err(CustomError::GreenLabelInsufficientBondVaultBalance);
    }
    Ok(forfeit_amount)
}

/// Proof that an escrow pays out at most once: after its remaining amount is
/// recorded as refunded or as forfeited, neither a refund nor a forfeit finds
/// anything to pay, and the recorded totals still account for every unit.
pub proof fn law_escrow_pays_out_once(escrow: GreenLabelRefundableEscrowV1, refunded: bool)
    requires
        spec_escrow_payable(escrow, CustomError::GreenLabelRefundNotEligible, CustomError::GreenLabelRefundAmountMismatch) is Ok,
    ensures
        ({
            let left = spec_escrow_payable(escrow, CustomError::GreenLabelRefundNotEligible,
                CustomError::GreenLabelRefundAmountMismatch)->Ok_0;
            let after = if refunded {
                GreenLabelRefundableEscrowV1 {
                    refunded_amount: (escrow.refunded_amount + left) as u64,
                    status: GreenLabelEscrowStatusV1::Refunded,
                    ..escrow
                }
            } else {
                GreenLabelRefundableEscrowV1 {
                    forfeited_amount: (escrow.forfeited_amount + left) as u64,
                    status: GreenLabelEscrowStatusV1::Forfeited,
                    ..escrow
                }
            };
            &&& escrow.refunded_amount + left <= u64::MAX
            &&& escrow.forfeited_amount + left <= u64::MAX
            &&& after.refunded_amount + after.forfeited_amount == escrow.refundable_amount
            &&& spec_escrow_payable(after, CustomError::GreenLabelRefundNotEligible,
                CustomError::GreenLabelRefundAmountMismatch) is Err
            &&& spec_escrow_payable(after, CustomError::GreenLabelForfeitNotEligible,
                CustomError::GreenLabelForfeitAmountMismatch) is Err
        }),
{
}

} // verus!
