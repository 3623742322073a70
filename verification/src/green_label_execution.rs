//! Carrying out a linked Security Layer decision on a disputed project: the
//! checks before the bond is refunded or slashed, and the records after.
use vstd::prelude::*;
use crate::constants::GREEN_LABEL_USDC_DECIMALS;
use crate::error::{CustomError, ProgramResult};
use crate::green_label_dispute::{spec_linked_dispute, spec_linked_project, validate_payload_hash, validate_terminal_action_for_refund, validate_terminal_action_for_slash};
use crate::keys::{Hash32, Key32, Pubkey};
use crate::state::{
    ActionType, DisputeStatus, ExecutionStatus, GreenLabelDisputeV1, GreenLabelProjectV1, GreenLabelStatus,
    ProposalDecision,
};

verus! {

/// The decision a project and its dispute recorded when they were linked,
/// and the Security Layer accounts that are meant to carry it.
#[derive(Clone, Copy, Debug, PartialEq, Eq, Structural)]
pub struct LinkedDecision {
    pub terminal_proposal_id: u64,
    pub terminal_proposal_decision: Pubkey,
    pub terminal_execution_queue_item: Pubkey,
    pub terminal_payload_hash: Hash32,
    pub terminal_action_type: ActionType,
    pub dispute_proposal_id: u64,
    pub dispute_proposal_decision: Pubkey,
    pub dispute_execution_queue_item: Pubkey,
    pub dispute_payload_hash: Hash32,
    pub dispute_action_type: ActionType,
    pub proposal_decision_key: Pubkey,
    pub proposal_decision_proposal_id: u64,
    pub proposal_decision: ProposalDecision,
    pub execution_queue_item_key: Pubkey,
    pub queue_proposal_id: u64,
    pub queue_status: ExecutionStatus,
    pub queue_action_type: ActionType,
    pub queue_payload_hash: Hash32,
    pub queue_target_program: Pubkey,
    pub expected_program_id: Pubkey,
    pub queue_target_account: Pubkey,
    pub expected_target_account: Pubkey,
    pub now: i64,
    pub queue_execute_after: i64,
}

/// The outcome of checking that the accounts carry the linked decision for
/// `action`: the project and dispute recorded the same nonzero decision for
/// this action, the decision account is that decision and approved, the
/// queued item is that item, still queued, for this action, payload, program
/// and target, and its timelock has passed.
pub open spec fn spec_linked_decision(action: ActionType, d: LinkedDecision) -> ProgramResult<()> {
    if d.terminal_action_type != action {
        Err(CustomError::InvalidGreenLabelActionType)
    } else if d.terminal_payload_hash == Key32::zero() {
        Err(CustomError::InvalidGreenLabelPayloadHash)
    } else if d.dispute_proposal_id != d.terminal_proposal_id || d.dispute_proposal_decision != d.terminal_proposal_decision {
        Err(CustomError::InvalidGreenLabelSecurityDecision)
    } else if d.dispute_execution_queue_item != d.terminal_execution_queue_item
        || d.dispute_payload_hash != d.terminal_payload_hash {
        Err(CustomError::InvalidGreenLabelExecutionQueue)
    } else if d.dispute_action_type != action {
        Err(CustomError::InvalidGreenLabelActionType)
    } else if d.proposal_decision_key != d.terminal_proposal_decision {
        Err(CustomError::InvalidGreenLabelSecurityDecision)
    } else if d.execution_queue_item_key != d.terminal_execution_queue_item {
        Err(CustomError::InvalidGreenLabelExecutionQueue)
    } else if d.proposal_decision_proposal_id != d.terminal_proposal_id {
        Err(CustomError::InvalidGreenLabelSecurityDecision)
    } else if d.queue_proposal_id != d.terminal_proposal_id {
        Err(CustomError::InvalidGreenLabelExecutionQueue)
    } else if d.proposal_decision != ProposalDecision::Approved {
        Err(CustomError::InvalidGreenLabelSecurityDecision)
    } else if d.queue_status != ExecutionStatus::Queued || d.queue_action_type != action
        || d.queue_payload_hash != d.terminal_payload_hash {
        Err(CustomError::InvalidGreenLabelExecutionQueue)
    } else if d.queue_target_program != d.expected_program_id {
        Err(CustomError::InvalidGreenLabelTargetProgram)
    } else if d.queue_target_account != d.expected_target_account {
        Err(CustomError::InvalidGreenLabelTargetAccount)
    } else if d.now < d.queue_execute_after {
        Err(CustomError::GreenLabelTimelockNotSatisfied)
    } else {
        Ok(())
    }
}

pub(crate) fn validate_linked_decision(action: ActionType, d: &LinkedDecision) -> (r: ProgramResult<()>)
    requires
        action == ActionType::GreenLabelRefund || action == ActionType::GreenLabelSlash,
    ensures
        r == spec_linked_decision(action, *d),
{
    if action == ActionType::GreenLabelRefund {
        validate_terminal_action_for_refund(d.terminal_action_type)?;
    } else {
        validate_terminal_action_for_slash(d.terminal_action_type, true)?;
    }
    validate_payload_hash(d.terminal_payload_hash)?;
    if d.dispute_proposal_id != d.terminal_proposal_id {
        return Err(CustomError::InvalidGreenLabelSecurityDecision);
    }
    if d.dispute_proposal_decision != d.terminal_proposal_decision {
        return Err(CustomError::InvalidGreenLabelSecurityDecision);
    }
    if d.dispute_execution_queue_item != d.terminal_execution_queue_item {
        return Err(CustomError::InvalidGreenLabelExecutionQueue);
    }
    if d.dispute_payload_hash != d.terminal_payload_hash {
        return Err(CustomError::InvalidGreenLabelExecutionQueue);
    }
    if d.dispute_action_type != action {
        return Err(CustomError::InvalidGreenLabelActionType);
    }
    if d.proposal_decision_key != d.terminal_proposal_decision {
        return Err(CustomError::InvalidGreenLabelSecurityDecision);
    }
    if d.execution_queue_item_key != d.terminal_execution_queue_item {
        return Err(CustomError::InvalidGreenLabelExecutionQueue);
    }
    if d.proposal_decision_proposal_id != d.terminal_proposal_id {
        return Err(CustomError::InvalidGreenLabelSecurityDecision);
    }
    if d.queue_proposal_id != d.terminal_proposal_id {
        return Err(CustomError::InvalidGreenLabelExecutionQueue);
    }
    if d.proposal_decision != ProposalDecision::Approved {
        return Err(CustomError::InvalidGreenLabelSecurityDecision);
    }
    if d.queue_status != ExecutionStatus::Queued {
        return Err(CustomError::InvalidGreenLabelExecutionQueue);
    }
    if d.queue_action_type != action {
        return Err(CustomError::InvalidGreenLabelExecutionQueue);
    }
    if d.queue_payload_hash != d.terminal_payload_hash {
        return Err(CustomError::InvalidGreenLabelExecutionQueue);
    }
    if d.queue_target_program != d.expected_program_id {
        return Err(CustomError::InvalidGreenLabelTargetProgram);
    }
    if d.queue_target_account != d.expected_target_account {
        return Err(CustomError::InvalidGreenLabelTargetAccount);
    }
    if d.now < d.queue_execute_after {
        return Err(CustomError::GreenLabelTimelockNotSatisfied);
    }
    Ok(())
}

/// The checks that come before the linked decision in a refund or slash:
/// configuration live, project queued for `queued_status`, the dispute its
/// active one and about it, its decision queued, and the bond vault the
/// project's.
pub open spec fn spec_dispute_and_vault(
    config_is_paused: bool,
    queued_status: GreenLabelStatus,
    project_status: GreenLabelStatus,
    project_active_dispute: Pubkey,
    dispute_key: Pubkey,
    project_bond_vault: Pubkey,
    project_bond_vault_authority: Pubkey,
    provided_bond_vault: Pubkey,
    provided_bond_vault_authority: Pubkey,
    dispute_project: Pubkey,
    project_key: Pubkey,
    dispute_status: DisputeStatus,
) -> ProgramResult<()> {
    if config_is_paused {
        Err(CustomError::InvalidGreenLabelStatus)
    } else if project_status != queued_status {
        Err(CustomError::InvalidGreenLabelStatus)
    } else if project_active_dispute != dispute_key {
        Err(CustomError::InvalidGreenLabelActiveDispute)
    } else if project_bond_vault == Key32::zero() || project_bond_vault_authority == Key32::zero()
        || project_bond_vault != provided_bond_vault || project_bond_vault_authority != provided_bond_vault_authority {
        Err(CustomError::InvalidGreenLabelBondVaultState)
    } else if dispute_project != project_key {
        Err(CustomError::InvalidGreenLabelTargetAccount)
    } else if dispute_status != DisputeStatus::DecisionQueued {
        Err(CustomError::InvalidGreenLabelDisputeStatus)
    } else {
        Ok(())
    }
}

/// The token-account checks of a refund: USDC with 6 decimals, the bond
/// vault held by the vault authority, the owner's account theirs, the
/// treasury vault the configured one, and a vault balance that covers both
/// transfers.
pub open spec fn spec_refund_accounts(
    project_bond_vault_authority: Pubkey,
    project_owner: Pubkey,
    green_bond_vault_mint: Pubkey,
    green_bond_vault_owner: Pubkey,
    project_owner_ata_owner: Pubkey,
    project_owner_ata_mint: Pubkey,
    provided_treasury_vault: Pubkey,
    treasury_vault_mint: Pubkey,
    expected_treasury_vault: Pubkey,
    expected_usdc_mint: Pubkey,
    provided_usdc_mint: Pubkey,
    usdc_decimals: u8,
    vault_balance: u64,
    project_refund_amount: u64,
    treasury_amount: u64,
) -> ProgramResult<()> {
    if provided_usdc_mint != expected_usdc_mint || usdc_decimals != GREEN_LABEL_USDC_DECIMALS {
        Err(CustomError::InvalidGreenLabelMint)
    } else if green_bond_vault_mint != expected_usdc_mint || green_bond_vault_owner != project_bond_vault_authority
        || project_owner_ata_owner != project_owner || project_owner_ata_mint != expected_usdc_mint
        || provided_treasury_vault != expected_treasury_vault || treasury_vault_mint != expected_usdc_mint {
        Err(CustomError::InvalidGreenLabelTokenAccount)
    } else if project_refund_amount + treasury_amount > u64::MAX {
        Err(CustomError::GreenLabelMathOverflow)
    } else if vault_balance < project_refund_amount + treasury_amount {
        Err(CustomError::GreenLabelInsufficientBondVaultBalance)
    } else {
        Ok(())
    }
}

/// The outcome of checking a refund of a disputed project's bond.
pub open spec fn spec_refund_execution(
    config_is_paused: bool,
    project_status: GreenLabelStatus,
    project_active_dispute: Pubkey,
    dispute_key: Pubkey,
    project_bond_vault: Pubkey,
    project_bond_vault_authority: Pubkey,
    project_owner: Pubkey,
    project_terminal_proposal_id: u64,
    project_terminal_proposal_decision: Pubkey,
    project_terminal_execution_queue_item: Pubkey,
    project_terminal_payload_hash: Hash32,
    project_terminal_action_type: ActionType,
    dispute_project: Pubkey,
    project_key: Pubkey,
    dispute_status: DisputeStatus,
    dispute_proposal_id: u64,
    dispute_proposal_decision: Pubkey,
    dispute_execution_queue_item: Pubkey,
    dispute_payload_hash: Hash32,
    dispute_action_type: ActionType,
    proposal_decision_key: Pubkey,
    proposal_decision_proposal_id: u64,
    proposal_decision: ProposalDecision,
    execution_queue_item_key: Pubkey,
    queue_proposal_id: u64,
    queue_status: ExecutionStatus,
    queue_action_type: ActionType,
    queue_payload_hash: Hash32,
    queue_target_program: Pubkey,
    expected_program_id: Pubkey,
    queue_target_account: Pubkey,
    expected_target_account: Pubkey,
    now: i64,
    queue_execute_after: i64,
    provided_bond_vault: Pubkey,
    green_bond_vault_mint: Pubkey,
    green_bond_vault_owner: Pubkey,
    provided_bond_vault_authority: Pubkey,
    project_owner_ata_owner: Pubkey,
    project_owner_ata_mint: Pubkey,
    provided_treasury_vault: Pubkey,
    treasury_vault_mint: Pubkey,
    expected_treasury_vault: Pubkey,
    expected_usdc_mint: Pubkey,
    provided_usdc_mint: Pubkey,
    usdc_decimals: u8,
    vault_balance: u64,
    project_refund_amount: u64,
    treasury_amount: u64,
) -> ProgramResult<()> {
    let linked = LinkedDecision {
        terminal_proposal_id: project_terminal_proposal_id,
        terminal_proposal_decision: project_terminal_proposal_decision,
        terminal_execution_queue_item: project_terminal_execution_queue_item,
        terminal_payload_hash: project_terminal_payload_hash,
        terminal_action_type: project_terminal_action_type,
        dispute_proposal_id,
        dispute_proposal_decision,
        dispute_execution_queue_item,
        dispute_payload_hash,
        dispute_action_type,
        proposal_decision_key,
        proposal_decision_proposal_id,
        proposal_decision,
        execution_queue_item_key,
        queue_proposal_id,
        queue_status,
        queue_action_type,
        queue_payload_hash,
        queue_target_program,
        expected_program_id,
        queue_target_account,
        expected_target_account,
        now,
        queue_execute_after,
    };
    match spec_dispute_and_vault(config_is_paused, GreenLabelStatus::RefundQueued, project_status,
        project_active_dispute, dispute_key, project_bond_vault, project_bond_vault_authority,
        provided_bond_vault, provided_bond_vault_authority, dispute_project, project_key, dispute_status) {
        Err(e) => Err(e),
        Ok(_) => match spec_linked_decision(ActionType::GreenLabelRefund, linked) {
            Err(e) => Err(e),
            Ok(_) => spec_refund_accounts(project_bond_vault_authority, project_owner, green_bond_vault_mint,
                green_bond_vault_owner, project_owner_ata_owner, project_owner_ata_mint, provided_treasury_vault,
                treasury_vault_mint, expected_treasury_vault, expected_usdc_mint, provided_usdc_mint,
                usdc_decimals, vault_balance, project_refund_amount, treasury_amount),
        },
    }
}

/// Refunding a disputed project's bond: the project must be queued for a
/// refund with its dispute, the dispute must carry the linked, approved and
/// still queued refund decision past its timelock, and the accounts must be
/// the right USDC accounts with enough in the vault for both transfers.
pub fn validate_green_label_refund_execution(
    config_is_paused: bool,
    project_status: GreenLabelStatus,
    project_active_dispute: Pubkey,
    dispute_key: Pubkey,
    project_bond_vault: Pubkey,
    project_bond_vault_authority: Pubkey,
    project_owner: Pubkey,
    project_terminal_proposal_id: u64,
    project_terminal_proposal_decision: Pubkey,
    project_terminal_execution_queue_item: Pubkey,
    project_terminal_payload_hash: Hash32,
    project_terminal_action_type: ActionType,
    dispute_project: Pubkey,
    project_key: Pubkey,
    dispute_status: DisputeStatus,
    dispute_proposal_id: u64,
    dispute_proposal_decision: Pubkey,
    dispute_execution_queue_item: Pubkey,
    dispute_payload_hash: Hash32,
    dispute_action_type: ActionType,
    proposal_decision_key: Pubkey,
    proposal_decision_proposal_id: u64,
    proposal_decision: ProposalDecision,
    execution_queue_item_key: Pubkey,
    queue_proposal_id: u64,
    queue_status: ExecutionStatus,
    queue_action_type: ActionType,
    queue_payload_hash: Hash32,
    queue_target_program: Pubkey,
    expected_program_id: Pubkey,
    queue_target_account: Pubkey,
    expected_target_account: Pubkey,
    now: i64,
    queue_execute_after: i64,
    provided_bond_vault: Pubkey,
    green_bond_vault_mint: Pubkey,
    green_bond_vault_owner: Pubkey,
    provided_bond_vault_authority: Pubkey,
    project_owner_ata_owner: Pubkey,
    project_owner_ata_mint: Pubkey,
    provided_treasury_vault: Pubkey,
    treasury_vault_mint: Pubkey,
    expected_treasury_vault: Pubkey,
    expected_usdc_mint: Pubkey,
    provided_usdc_mint: Pubkey,
    usdc_decimals: u8,
    vault_balance: u64,
    project_refund_amount: u64,
    treasury_amount: u64,
) -> (r: ProgramResult<()>)
    ensures
        r == spec_refund_execution(config_is_paused, project_status, project_active_dispute, dispute_key,
            project_bond_vault, project_bond_vault_authority, project_owner, project_terminal_proposal_id,
            project_terminal_proposal_decision, project_terminal_execution_queue_item, project_terminal_payload_hash,
            project_terminal_action_type, dispute_project, project_key, dispute_status, dispute_proposal_id,
            dispute_proposal_decision, dispute_execution_queue_item, dispute_payload_hash, dispute_action_type,
            proposal_decision_key, proposal_decision_proposal_id, proposal_decision, execution_queue_item_key,
            queue_proposal_id, queue_status, queue_action_type, queue_payload_hash, queue_target_program,
            expected_program_id, queue_target_account, expected_target_account, now, queue_execute_after,
            provided_bond_vault, green_bond_vault_mint, green_bond_vault_owner, provided_bond_vault_authority,
            project_owner_ata_owner, project_owner_ata_mint, provided_treasury_vault, treasury_vault_mint,
            expected_treasury_vault, expected_usdc_mint, provided_usdc_mint, usdc_decimals, vault_balance,
            project_refund_amount, treasury_amount),
{
    if config_is_paused {
        return Err(CustomError::InvalidGreenLabelStatus);
    }
    if project_status != GreenLabelStatus::RefundQueued {
        return Err(CustomError::InvalidGreenLabelStatus);
    }
    if project_active_dispute != dispute_key {
        return Err(CustomError::InvalidGreenLabelActiveDispute);
    }
    if project_bond_vault.is_zero() || project_bond_vault_authority.is_zero() {
        return Err(CustomError::InvalidGreenLabelBondVaultState);
    }
    if project_bond_vault != provided_bond_vault {
        return Err(CustomError::InvalidGreenLabelBondVaultState);
    }
    if project_bond_vault_authority != provided_bond_vault_authority {
        return Err(CustomError::InvalidGreenLabelBondVaultState);
    }
    if dispute_project != project_key {
        return Err(CustomError::InvalidGreenLabelTargetAccount);
    }
    if dispute_status != DisputeStatus::DecisionQueued {
        return Err(CustomError::InvalidGreenLabelDisputeStatus);
    }
    let linked = LinkedDecision {
        terminal_proposal_id: project_terminal_proposal_id,
        terminal_proposal_decision: project_terminal_proposal_decision,
        terminal_execution_queue_item: project_terminal_execution_queue_item,
        terminal_payload_hash: project_terminal_payload_hash,
        terminal_action_type: project_terminal_action_type,
        dispute_proposal_id,
        dispute_proposal_decision,
        dispute_execution_queue_item,
        dispute_payload_hash,
        dispute_action_type,
        proposal_decision_key,
        proposal_decision_proposal_id,
        proposal_decision,
        execution_queue_item_key,
        queue_proposal_id,
        queue_status,
        queue_action_type,
        queue_payload_hash,
        queue_target_program,
        expected_program_id,
        queue_target_account,
        expected_target_account,
        now,
        queue_execute_after,
    };
    validate_linked_decision(ActionType::GreenLabelRefund, &linked)?;
    if provided_usdc_mint != expected_usdc_mint {
        return Err(CustomError::InvalidGreenLabelMint);
    }
    if usdc_decimals != GREEN_LABEL_USDC_DECIMALS {
        return Err(CustomError::InvalidGreenLabelMint);
    }
    if green_bond_vault_mint != expected_usdc_mint {
        return Err(CustomError::InvalidGreenLabelTokenAccount);
    }
    if green_bond_vault_owner != project_bond_vault_authority {
        return Err(CustomError::InvalidGreenLabelTokenAccount);
    }
    if project_owner_ata_owner != project_owner {
        return Err(CustomError::InvalidGreenLabelTokenAccount);
    }
    if project_owner_ata_mint != expected_usdc_mint {
        return Err(CustomError::InvalidGreenLabelTokenAccount);
    }
    if provided_treasury_vault != expected_treasury_vault {
        return Err(CustomError::InvalidGreenLabelTokenAccount);
    }
    if treasury_vault_mint != expected_usdc_mint {
        return Err(CustomError::InvalidGreenLabelTokenAccount);
    }
    let required_vault_balance = match project_refund_amount.checked_add(treasury_amount) {
        Some(v) => v,
        None => return Err(CustomError::GreenLabelMathOverflow),
    };
    if vault_balance < required_vault_balance {
        return Err(CustomError::GreenLabelInsufficientBondVaultBalance);
    }
    Ok(())
}

/// The token-account checks of a slash: USDC with 6 decimals, the bond vault
/// held by the vault authority, the relief-or-risk vault the configured one,
/// and a vault balance that covers the slash.
pub open spec fn spec_slash_accounts(
    project_bond_vault_authority: Pubkey,
    green_bond_vault_mint: Pubkey,
    green_bond_vault_owner: Pubkey,
    provided_relief_or_risk_vault: Pubkey,
    relief_or_risk_vault_mint: Pubkey,
    expected_relief_or_risk_vault: Pubkey,
    expected_usdc_mint: Pubkey,
    provided_usdc_mint: Pubkey,
    usdc_decimals: u8,
    vault_balance: u64,
    slash_amount: u64,
) -> ProgramResult<()> {
    if provided_usdc_mint != expected_usdc_mint || usdc_decimals != GREEN_LABEL_USDC_DECIMALS {
        Err(CustomError::InvalidGreenLabelMint)
    } else if green_bond_vault_mint != expected_usdc_mint || green_bond_vault_owner != project_bond_vault_authority
        || provided_relief_or_risk_vault != expected_relief_or_risk_vault || relief_or_risk_vault_mint != expected_usdc_mint {
        Err(CustomError::InvalidGreenLabelTokenAccount)
    } else if vault_balance < slash_amount {
        Err(CustomError::GreenLabelInsufficientBondVaultBalance)
    } else {
        Ok(())
    }
}

/// The outcome of checking a slash of a disputed project's bond.
pub open spec fn spec_slash_execution(
    config_is_paused: bool,
    project_status: GreenLabelStatus,
    project_active_dispute: Pubkey,
    dispute_key: Pubkey,
    project_bond_vault: Pubkey,
    project_bond_vault_authority: Pubkey,
    project_terminal_proposal_id: u64,
    project_terminal_proposal_decision: Pubkey,
    project_terminal_execution_queue_item: Pubkey,
    project_terminal_payload_hash: Hash32,
    project_terminal_action_type: ActionType,
    dispute_project: Pubkey,
    project_key: Pubkey,
    dispute_status: DisputeStatus,
    dispute_proposal_id: u64,
    dispute_proposal_decision: Pubkey,
    dispute_execution_queue_item: Pubkey,
    dispute_payload_hash: Hash32,
    dispute_action_type: ActionType,
    proposal_decision_key: Pubkey,
    proposal_decision_proposal_id: u64,
    proposal_decision: ProposalDecision,
    execution_queue_item_key: Pubkey,
    queue_proposal_id: u64,
    queue_status: ExecutionStatus,
    queue_action_type: ActionType,
    queue_payload_hash: Hash32,
    queue_target_program: Pubkey,
    expected_program_id: Pubkey,
    queue_target_account: Pubkey,
    expected_target_account: Pubkey,
    now: i64,
    queue_execute_after: i64,
    provided_bond_vault: Pubkey,
    green_bond_vault_mint: Pubkey,
    green_bond_vault_owner: Pubkey,
    provided_bond_vault_authority: Pubkey,
    provided_relief_or_risk_vault: Pubkey,
    relief_or_risk_vault_mint: Pubkey,
    expected_relief_or_risk_vault: Pubkey,
    expected_usdc_mint: Pubkey,
    provided_usdc_mint: Pubkey,
    usdc_decimals: u8,
    vault_balance: u64,
    slash_amount: u64,
) -> ProgramResult<()> {
    let linked = LinkedDecision {
        terminal_proposal_id: project_terminal_proposal_id,
        terminal_proposal_decision: project_terminal_proposal_decision,
        terminal_execution_queue_item: project_terminal_execution_queue_item,
        terminal_payload_hash: project_terminal_payload_hash,
        terminal_action_type: project_terminal_action_type,
        dispute_proposal_id,
        dispute_proposal_decision,
        dispute_execution_queue_item,
        dispute_payload_hash,
        dispute_action_type,
        proposal_decision_key,
        proposal_decision_proposal_id,
        proposal_decision,
        execution_queue_item_key,
        queue_proposal_id,
        queue_status,
        queue_action_type,
        queue_payload_hash,
        queue_target_program,
        expected_program_id,
        queue_target_account,
        expected_target_account,
        now,
        queue_execute_after,
    };
    match spec_dispute_and_vault(config_is_paused, GreenLabelStatus::SlashQueued, project_status,
        project_active_dispute, dispute_key, project_bond_vault, project_bond_vault_authority,
        provided_bond_vault, provided_bond_vault_authority, dispute_project, project_key, dispute_status) {
        Err(e) => Err(e),
        Ok(_) => match spec_linked_decision(ActionType::GreenLabelSlash, linked) {
            Err(e) => Err(e),
            Ok(_) => spec_slash_accounts(project_bond_vault_authority, green_bond_vault_mint,
                green_bond_vault_owner, provided_relief_or_risk_vault, relief_or_risk_vault_mint,
                expected_relief_or_risk_vault, expected_usdc_mint, provided_usdc_mint, usdc_decimals,
                vault_balance, slash_amount),
        },
    }
}

/// Slashing a disputed project's bond: the project must be queued for a
/// slash with its dispute, the dispute must carry the linked, approved and
/// still queued slash decision past its timelock, and the accounts must be
/// the right USDC accounts with enough in the vault.
pub fn validate_green_label_slash_execution(
    config_is_paused: bool,
    project_status: GreenLabelStatus,
    project_active_dispute: Pubkey,
    dispute_key: Pubkey,
    project_bond_vault: Pubkey,
    project_bond_vault_authority: Pubkey,
    project_terminal_proposal_id: u64,
    project_terminal_proposal_decision: Pubkey,
    project_terminal_execution_queue_item: Pubkey,
    project_terminal_payload_hash: Hash32,
    project_terminal_action_type: ActionType,
    dispute_project: Pubkey,
    project_key: Pubkey,
    dispute_status: DisputeStatus,
    dispute_proposal_id: u64,
    dispute_proposal_decision: Pubkey,
    dispute_execution_queue_item: Pubkey,
    dispute_payload_hash: Hash32,
    dispute_action_type: ActionType,
    proposal_decision_key: Pubkey,
    proposal_decision_proposal_id: u64,
    proposal_decision: ProposalDecision,
    execution_queue_item_key: Pubkey,
    queue_proposal_id: u64,
    queue_status: ExecutionStatus,
    queue_action_type: ActionType,
    queue_payload_hash: Hash32,
    queue_target_program: Pubkey,
    expected_program_id: Pubkey,
    queue_target_account: Pubkey,
    expected_target_account: Pubkey,
    now: i64,
    queue_execute_after: i64,
    provided_bond_vault: Pubkey,
    green_bond_vault_mint: Pubkey,
    green_bond_vault_owner: Pubkey,
    provided_bond_vault_authority: Pubkey,
    provided_relief_or_risk_vault: Pubkey,
    relief_or_risk_vault_mint: Pubkey,
    expected_relief_or_risk_vault: Pubkey,
    expected_usdc_mint: Pubkey,
    provided_usdc_mint: Pubkey,
    usdc_decimals: u8,
    vault_balance: u64,
    slash_amount: u64,
) -> (r: ProgramResult<()>)
    ensures
        r == spec_slash_execution(config_is_paused, project_status, project_active_dispute, dispute_key,
            project_bond_vault, project_bond_vault_authority, project_terminal_proposal_id,
            project_terminal_proposal_decision, project_terminal_execution_queue_item, project_terminal_payload_hash,
            project_terminal_action_type, dispute_project, project_key, dispute_status, dispute_proposal_id,
            dispute_proposal_decision, dispute_execution_queue_item, dispute_payload_hash, dispute_action_type,
            proposal_decision_key, proposal_decision_proposal_id, proposal_decision, execution_queue_item_key,
            queue_proposal_id, queue_status, queue_action_type, queue_payload_hash, queue_target_program,
            expected_program_id, queue_target_account, expected_target_account, now, queue_execute_after,
            provided_bond_vault, green_bond_vault_mint, green_bond_vault_owner, provided_bond_vault_authority,
            provided_relief_or_risk_vault, relief_or_risk_vault_mint, expected_relief_or_risk_vault,
            expected_usdc_mint, provided_usdc_mint, usdc_decimals, vault_balance, slash_amount),
{
    if config_is_paused {
        return Err(CustomError::InvalidGreenLabelStatus);
    }
    if project_status != GreenLabelStatus::SlashQueued {
        return Err(CustomError::InvalidGreenLabelStatus);
    }
    if project_active_dispute != dispute_key {
        return Err(CustomError::InvalidGreenLabelActiveDispute);
    }
    if project_bond_vault.is_zero() || project_bond_vault_authority.is_zero() {
        return Err(CustomError::InvalidGreenLabelBondVaultState);
    }
    if project_bond_vault != provided_bond_vault {
        return Err(CustomError::InvalidGreenLabelBondVaultState);
    }
    if project_bond_vault_authority != provided_bond_vault_authority {
        return Err(CustomError::InvalidGreenLabelBondVaultState);
    }
    if dispute_project != project_key {
        return Err(CustomError::InvalidGreenLabelTargetAccount);
    }
    if dispute_status != DisputeStatus::DecisionQueued {
        return Err(CustomError::InvalidGreenLabelDisputeStatus);
    }
    let linked = LinkedDecision {
        terminal_proposal_id: project_terminal_proposal_id,
        terminal_proposal_decision: project_terminal_proposal_decision,
        terminal_execution_queue_item: project_terminal_execution_queue_item,
        terminal_payload_hash: project_terminal_payload_hash,
        terminal_action_type: project_terminal_action_type,
        dispute_proposal_id,
        dispute_proposal_decision,
        dispute_execution_queue_item,
        dispute_payload_hash,
        dispute_action_type,
        proposal_decision_key,
        proposal_decision_proposal_id,
        proposal_decision,
        execution_queue_item_key,
        queue_proposal_id,
        queue_status,
        queue_action_type,
        queue_payload_hash,
        queue_target_program,
        expected_program_id,
        queue_target_account,
        expected_target_account,
        now,
        queue_execute_after,
    };
    validate_linked_decision(ActionType::GreenLabelSlash, &linked)?;
    if provided_usdc_mint != expected_usdc_mint {
        return Err(CustomError::InvalidGreenLabelMint);
    }
    if usdc_decimals != GREEN_LABEL_USDC_DECIMALS {
        return Err(CustomError::InvalidGreenLabelMint);
    }
    if green_bond_vault_mint != expected_usdc_mint {
        return Err(CustomError::InvalidGreenLabelTokenAccount);
    }
    if green_bond_vault_owner != project_bond_vault_authority {
        return Err(CustomError::InvalidGreenLabelTokenAccount);
    }
    if provided_relief_or_risk_vault != expected_relief_or_risk_vault {
        return Err(CustomError::InvalidGreenLabelTokenAccount);
    }
    if relief_or_risk_vault_mint != expected_usdc_mint {
        return Err(CustomError::InvalidGreenLabelTokenAccount);
    }
    if vault_balance < slash_amount {
        return Err(CustomError::GreenLabelInsufficientBondVaultBalance);
    }
    Ok(())
}

/// A refund marks the project Refunded at `now` and clears its active
/// dispute; a dispute, when there is one, is resolved for the refund at `now`.
pub fn record_green_label_refunded(
    project: &mut GreenLabelProjectV1,
    dispute: Option<&mut GreenLabelDisputeV1>,
    now: i64,
) -> (r: ProgramResult<()>)
    ensures
        r == Ok::<(), CustomError>(()),
        *final(project) == (GreenLabelProjectV1 {
            status: GreenLabelStatus::Refunded,
            refunded_at: now,
            active_dispute: Key32::zero(),
            ..*old(project)
        }),
        match dispute {
            Some(d) => *final(d) == (GreenLabelDisputeV1 {
                status: DisputeStatus::ResolvedRefund,
                resolved_at: now,
                ..*d
            }),
            None => true,
        },
{
    project.status = GreenLabelStatus::Refunded;
    project.refunded_at = now;
    project.active_dispute = Key32::default();
    if let Some(dispute) = dispute {
        dispute.status = DisputeStatus::ResolvedRefund;
        dispute.resolved_at = now;
    }
    Ok(())
}

/// A slash marks the project Slashed at `now`, clears its active dispute
/// and resolves the dispute for the slash at `now`.
pub fn record_green_label_slashed(project: &mut GreenLabelProjectV1, dispute: &mut GreenLabelDisputeV1, now: i64) -> (r: ProgramResult<()>)
    ensures
        r == Ok::<(), CustomError>(()),
        *final(project) == (GreenLabelProjectV1 {
            status: GreenLabelStatus::Slashed,
            slashed_at: now,
            active_dispute: Key32::zero(),
            ..*old(project)
        }),
        *final(dispute) == (GreenLabelDisputeV1 {
            status: DisputeStatus::ResolvedSlash,
            resolved_at: now,
            ..*old(dispute)
        }),
{
    project.status = GreenLabelStatus::Slashed;
    project.slashed_at = now;
    project.active_dispute = Key32::default();
    dispute.status = DisputeStatus::ResolvedSlash;
    dispute.resolved_at = now;
    Ok(())
}

/// The accounts of a linked decision as execution reads them: the project's
/// and dispute's records, the decision account and the queued item.
pub open spec fn spec_linked_view(
    project: GreenLabelProjectV1,
    dispute: GreenLabelDisputeV1,
    proposal_decision_key: Pubkey,
    decision: ProposalDecisionView,
    execution_queue_item_key: Pubkey,
    queue: QueueItemView,
    expected_program_id: Pubkey,
    expected_target_account: Pubkey,
    now: i64,
) -> LinkedDecision {
    LinkedDecision {
        terminal_proposal_id: project.terminal_proposal_id,
        terminal_proposal_decision: project.terminal_proposal_decision,
        terminal_execution_queue_item: project.terminal_execution_queue_item,
        terminal_payload_hash: project.terminal_payload_hash,
        terminal_action_type: project.terminal_action_type,
        dispute_proposal_id: dispute.proposal_id,
        dispute_proposal_decision: dispute.proposal_decision,
        dispute_execution_queue_item: dispute.execution_queue_item,
        dispute_payload_hash: dispute.payload_hash,
        dispute_action_type: dispute.action_type,
        proposal_decision_key,
        proposal_decision_proposal_id: decision.proposal_id,
        proposal_decision: decision.decision,
        execution_queue_item_key,
        queue_proposal_id: queue.proposal_id,
        queue_status: queue.status,
        queue_action_type: queue.action_type,
        queue_payload_hash: queue.payload_hash,
        queue_target_program: queue.target_program,
        expected_program_id,
        queue_target_account: queue.target_account,
        expected_target_account,
        now,
        queue_execute_after: queue.execute_after,
    }
}

/// The parts of a proposal decision that execution reads.
pub struct ProposalDecisionView {
    pub proposal_id: u64,
    pub decision: ProposalDecision,
}

/// The parts of a queued item that execution reads.
pub struct QueueItemView {
    pub proposal_id: u64,
    pub status: ExecutionStatus,
    pub action_type: ActionType,
    pub payload_hash: Hash32,
    pub target_program: Pubkey,
    pub target_account: Pubkey,
    pub execute_after: i64,
}

/// Proof that what linking records is what execution accepts: once a refund
/// or slash decision with a nonzero payload is linked, the same decision
/// account, still approved, and the same queued item, still queued for this
/// action, payload, program and dispute, pass the linked-decision checks of
/// that action as soon as the timelock has passed, and fail before it.
pub proof fn law_linked_decision_is_executable(
    project: GreenLabelProjectV1,
    dispute: GreenLabelDisputeV1,
    proposal_id: u64,
    proposal_decision_key: Pubkey,
    execution_queue_item_key: Pubkey,
    payload_hash: Hash32,
    action_type: ActionType,
    program_id: Pubkey,
    dispute_key: Pubkey,
    execute_after: i64,
    now: i64,
)
    requires
        action_type == ActionType::GreenLabelRefund || action_type == ActionType::GreenLabelSlash,
        payload_hash != Key32::zero(),
    ensures
        ({
            let linked = spec_linked_view(
                spec_linked_project(project, proposal_id, proposal_decision_key, execution_queue_item_key, payload_hash, action_type),
                spec_linked_dispute(dispute, proposal_id, proposal_decision_key, execution_queue_item_key, payload_hash, action_type),
                proposal_decision_key,
                ProposalDecisionView { proposal_id, decision: ProposalDecision::Approved },
                execution_queue_item_key,
                QueueItemView {
                    proposal_id,
                    status: ExecutionStatus::Queued,
                    action_type,
                    payload_hash,
                    target_program: program_id,
                    target_account: dispute_key,
                    execute_after,
                },
                program_id,
                dispute_key,
                now,
            );
            &&& now >= execute_after ==> spec_linked_decision(action_type, linked) == Ok::<(), CustomError>(())
            &&& now < execute_after ==> spec_linked_decision(action_type, linked)
                == Err::<(), CustomError>(CustomError::GreenLabelTimelockNotSatisfied)
        }),
{
}

} // verus!
