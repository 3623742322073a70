//! Governance refunds and forfeits of a refundable escrow: the checks that a
//! passed, approved and executed decision covers exactly this escrow, its
//! accounts and its remaining amount, and the records the payout leaves.
use vstd::prelude::*;
use crate::constants::GREEN_LABEL_USDC_DECIMALS;
use crate::error::{CustomError, ProgramResult};
use crate::green_label_escrow::{
    derive_green_label_forfeitable_amount_v1, derive_green_label_refund_amount_v1, record_green_label_escrow_forfeited,
    spec_escrow_payable,
    spec_forfeit_mint_accounts, spec_treasury_router, validate_green_label_forfeit_mint_accounts_v1,
    validate_green_label_forfeit_vault_balance_v1, validate_green_label_refund_vault_balance_v1,
    validate_green_label_treasury_router_accounts, VaultView,
};
use crate::green_label_escrow_params::{
    hash_green_label_forfeit_parameters_v1, hash_green_label_refund_parameters_v1, spec_forfeit_parameters_hash,
    spec_refund_parameters_hash, GreenLabelForfeitParametersV1, GreenLabelRefundParametersV1,
};
use crate::green_label_governance::{
    spec_action_governance, spec_action_security, validate_action_governance, validate_action_security, ActionErrors,
};
use crate::keys::{Hash32, Key32, Pubkey};
use crate::state::{
    ActionType, DisputeStatus, ExecutionQueueItemV1, GovernanceActionTypeV1, GovernanceConfigV1,
    GovernanceProposalActionV1, GovernanceProposalV1, GreenLabelConfigV1, GreenLabelDisputeV1,
    GreenLabelEscrowExecutionTypeV1, GreenLabelEscrowStatusV1, GreenLabelForfeitExecutionRecordV1, GreenLabelProjectV1,
    GreenLabelRefundExecutionRecordV1, GreenLabelRefundableEscrowV1, GreenLabelStatus, ProposalDecisionV1, RevenueType,
    ProposalType, ProtocolModuleRegistryV1, RevenueRoutingStatsV1, TreasuryConfigV2, TreasuryUsdcStateV2,
    UniversalGovernanceDecisionAdapterV1,
};

verus! {

/// The errors governance refunds report.
pub open spec fn spec_refund_errors() -> ActionErrors {
    ActionErrors {
        action: CustomError::GreenLabelRefundActionMismatch,
        target: CustomError::GreenLabelRefundTargetMismatch,
        parameters: CustomError::GreenLabelRefundParametersMismatch,
    }
}

fn refund_errors() -> (e: ActionErrors)
    ensures
        e == spec_refund_errors(),
{
    ActionErrors {
        action: CustomError::GreenLabelRefundActionMismatch,
        target: CustomError::GreenLabelRefundTargetMismatch,
        parameters: CustomError::GreenLabelRefundParametersMismatch,
    }
}

/// The escrow, vault and destination checks of a governance refund.
pub open spec fn spec_refund_escrow_accounts(
    green_label_config: GreenLabelConfigV1,
    green_label_project: GreenLabelProjectV1,
    green_label_project_key: Pubkey,
    escrow: GreenLabelRefundableEscrowV1,
    escrow_key: Pubkey,
    refundable_vault_key: Pubkey,
    refundable_vault_mint: Pubkey,
    refundable_vault_owner: Pubkey,
    payer_destination_token_account: Pubkey,
    payer_destination_owner: Pubkey,
    payer_destination_mint: Pubkey,
    provided_usdc_mint: Pubkey,
    usdc_decimals: u8,
) -> ProgramResult<()> {
    if escrow.project != green_label_project_key || escrow.project_id != green_label_project.project_id {
        Err(CustomError::GreenLabelRefundTargetMismatch)
    } else if escrow.usdc_mint != green_label_config.usdc_mint {
        Err(CustomError::GreenLabelRefundMintMismatch)
    } else if escrow.refundable_vault != refundable_vault_key {
        Err(CustomError::GreenLabelRefundVaultMismatch)
    } else if refundable_vault_mint != escrow.usdc_mint {
        Err(CustomError::GreenLabelRefundMintMismatch)
    } else if refundable_vault_owner != escrow_key {
        Err(CustomError::GreenLabelRefundVaultMismatch)
    } else if payer_destination_owner != escrow.payer {
        Err(CustomError::GreenLabelRefundWrongDestination)
    } else if payer_destination_mint != escrow.usdc_mint {
        Err(CustomError::GreenLabelRefundMintMismatch)
    } else if payer_destination_token_account == refundable_vault_key {
        Err(CustomError::GreenLabelRefundWrongDestination)
    } else if provided_usdc_mint != escrow.usdc_mint || usdc_decimals != GREEN_LABEL_USDC_DECIMALS {
        Err(CustomError::GreenLabelRefundMintMismatch)
    } else {
        Ok(())
    }
}

fn validate_refund_escrow_accounts(
    green_label_config: &GreenLabelConfigV1,
    green_label_project: &GreenLabelProjectV1,
    green_label_project_key: Pubkey,
    escrow: &GreenLabelRefundableEscrowV1,
    escrow_key: Pubkey,
    refundable_vault_key: Pubkey,
    refundable_vault_mint: Pubkey,
    refundable_vault_owner: Pubkey,
    payer_destination_token_account: Pubkey,
    payer_destination_owner: Pubkey,
    payer_destination_mint: Pubkey,
    provided_usdc_mint: Pubkey,
    usdc_decimals: u8,
) -> (r: ProgramResult<()>)
    ensures
        r == spec_refund_escrow_accounts(*green_label_config, *green_label_project, green_label_project_key, *escrow,
            escrow_key, refundable_vault_key, refundable_vault_mint, refundable_vault_owner,
            payer_destination_token_account, payer_destination_owner, payer_destination_mint, provided_usdc_mint,
            usdc_decimals),
{
    if escrow.project != green_label_project_key || escrow.project_id != green_label_project.project_id {
        return Err(CustomError::GreenLabelRefundTargetMismatch);
    }
    if escrow.usdc_mint != green_label_config.usdc_mint {
        return Err(CustomError::GreenLabelRefundMintMismatch);
    }
    if escrow.refundable_vault != refundable_vault_key {
        return Err(CustomError::GreenLabelRefundVaultMismatch);
    }
    if refundable_vault_mint != escrow.usdc_mint {
        return Err(CustomError::GreenLabelRefundMintMismatch);
    }
    if refundable_vault_owner != escrow_key {
        return Err(CustomError::GreenLabelRefundVaultMismatch);
    }
    if payer_destination_owner != escrow.payer {
        return Err(CustomError::GreenLabelRefundWrongDestination);
    }
    if payer_destination_mint != escrow.usdc_mint {
        return Err(CustomError::GreenLabelRefundMintMismatch);
    }
    if payer_destination_token_account == refundable_vault_key {
        return Err(CustomError::GreenLabelRefundWrongDestination);
    }
    if provided_usdc_mint != escrow.usdc_mint || usdc_decimals != GREEN_LABEL_USDC_DECIMALS {
        return Err(CustomError::GreenLabelRefundMintMismatch);
    }
    Ok(())
}

/// The refund parameters must name exactly this refund of `refund_amount`.
pub open spec fn spec_refund_parameters_match(
    p: GreenLabelRefundParametersV1,
    green_label_config_key: Pubkey,
    green_label_project_key: Pubkey,
    escrow: GreenLabelRefundableEscrowV1,
    escrow_key: Pubkey,
    refundable_vault_key: Pubkey,
    payer_destination_token_account: Pubkey,
    governance_proposal: GovernanceProposalV1,
    refund_amount: u64,
) -> ProgramResult<()> {
    if p.schema_version != crate::constants::GREEN_LABEL_REFUND_SCHEMA_VERSION {
        Err(CustomError::InvalidGreenLabelRefundSchema)
    } else if p.green_label_config != green_label_config_key || p.green_label_project != green_label_project_key
        || p.refundable_escrow != escrow_key {
        Err(CustomError::GreenLabelRefundTargetMismatch)
    } else if p.refundable_vault != refundable_vault_key {
        Err(CustomError::GreenLabelRefundVaultMismatch)
    } else if p.original_payer != escrow.payer {
        Err(CustomError::GreenLabelRefundWrongPayer)
    } else if p.payer_destination_token_account != payer_destination_token_account {
        Err(CustomError::GreenLabelRefundWrongDestination)
    } else if p.refund_amount_usdc != refund_amount {
        Err(CustomError::GreenLabelRefundAmountMismatch)
    } else if p.usdc_mint != escrow.usdc_mint {
        Err(CustomError::GreenLabelRefundMintMismatch)
    } else if p.expected_escrow_status != escrow.status {
        Err(CustomError::GreenLabelRefundParametersMismatch)
    } else if p.proposal_id != governance_proposal.proposal_id {
        Err(CustomError::InvalidProposalId)
    } else if p.action_type != GovernanceActionTypeV1::GreenLabelRefundBond {
        Err(CustomError::GreenLabelRefundActionMismatch)
    } else {
        Ok(())
    }
}

fn validate_refund_parameters_match(
    p: &GreenLabelRefundParametersV1,
    green_label_config_key: Pubkey,
    green_label_project_key: Pubkey,
    escrow: &GreenLabelRefundableEscrowV1,
    escrow_key: Pubkey,
    refundable_vault_key: Pubkey,
    payer_destination_token_account: Pubkey,
    governance_proposal: &GovernanceProposalV1,
    refund_amount: u64,
) -> (r: ProgramResult<()>)
    ensures
        r == spec_refund_parameters_match(*p, green_label_config_key, green_label_project_key, *escrow, escrow_key,
            refundable_vault_key, payer_destination_token_account, *governance_proposal, refund_amount),
{
    if p.schema_version != crate::constants::GREEN_LABEL_REFUND_SCHEMA_VERSION {
        return Err(CustomError::InvalidGreenLabelRefundSchema);
    }
    if p.green_label_config != green_label_config_key || p.green_label_project != green_label_project_key
        || p.refundable_escrow != escrow_key {
        return Err(CustomError::GreenLabelRefundTargetMismatch);
    }
    if p.refundable_vault != refundable_vault_key {
        return Err(CustomError::GreenLabelRefundVaultMismatch);
    }
    if p.original_payer != escrow.payer {
        return Err(CustomError::GreenLabelRefundWrongPayer);
    }
    if p.payer_destination_token_account != payer_destination_token_account {
        return Err(CustomError::GreenLabelRefundWrongDestination);
    }
    if p.refund_amount_usdc != refund_amount {
        return Err(CustomError::GreenLabelRefundAmountMismatch);
    }
    if p.usdc_mint != escrow.usdc_mint {
        return Err(CustomError::GreenLabelRefundMintMismatch);
    }
    if p.expected_escrow_status != escrow.status {
        return Err(CustomError::GreenLabelRefundParametersMismatch);
    }
    if p.proposal_id != governance_proposal.proposal_id {
        return Err(CustomError::InvalidProposalId);
    }
    if p.action_type != GovernanceActionTypeV1::GreenLabelRefundBond {
        return Err(CustomError::GreenLabelRefundActionMismatch);
    }
    Ok(())
}

/// The dispute checks of a governance refund: with a dispute, the project's
/// active dispute is the one named, still awaiting or holding its decision,
/// and not decided for a slash; without one, no dispute is named or open, the
/// escrow's refund time has passed and the project is neither disputed nor
/// closed.
pub open spec fn spec_refund_dispute(
    green_label_project: GreenLabelProjectV1,
    green_label_project_key: Pubkey,
    green_label_dispute: Option<GreenLabelDisputeV1>,
    escrow: GreenLabelRefundableEscrowV1,
    parameters_dispute: Pubkey,
    requires_dispute: bool,
    now: i64,
) -> ProgramResult<()> {
    if requires_dispute {
        match green_label_dispute {
            None => Err(CustomError::GreenLabelRefundTargetMismatch),
            Some(dispute) => if parameters_dispute == Key32::zero() || dispute.project != green_label_project_key {
                Err(CustomError::GreenLabelRefundTargetMismatch)
            } else if green_label_project.active_dispute != parameters_dispute {
                Err(CustomError::InvalidGreenLabelActiveDispute)
            } else if green_label_project.status != GreenLabelStatus::Disputed
                && green_label_project.status != GreenLabelStatus::RefundQueued {
                Err(CustomError::InvalidGreenLabelStatus)
            } else if dispute.status != DisputeStatus::ReadyForDecision && dispute.status != DisputeStatus::DecisionQueued {
                Err(CustomError::InvalidGreenLabelDisputeStatus)
            } else if dispute.action_type == ActionType::GreenLabelSlash {
                Err(CustomError::GreenLabelRefundActionMismatch)
            } else {
                Ok(())
            },
        }
    } else if parameters_dispute != Key32::zero() {
        Err(CustomError::GreenLabelRefundTargetMismatch)
    } else if green_label_project.active_dispute != Key32::zero() {
        Err(CustomError::GreenLabelUnresolvedDispute)
    } else if now < escrow.refund_available_after {
        Err(CustomError::GreenLabelRefundNotEligible)
    } else if green_label_project.status == GreenLabelStatus::Disputed || green_label_project.status == GreenLabelStatus::Refunded
        || green_label_project.status == GreenLabelStatus::Slashed || green_label_project.status == GreenLabelStatus::Cancelled {
        Err(CustomError::InvalidGreenLabelStatus)
    } else {
        Ok(())
    }
}

/// A dispute account viewed as a value.
pub open spec fn spec_dispute_value(d: Option<&GreenLabelDisputeV1>) -> Option<GreenLabelDisputeV1> {
    match d {
        Some(x) => Some(*x),
        None => None,
    }
}

fn validate_refund_dispute(
    green_label_project: &GreenLabelProjectV1,
    green_label_project_key: Pubkey,
    green_label_dispute: Option<&GreenLabelDisputeV1>,
    escrow: &GreenLabelRefundableEscrowV1,
    parameters_dispute: Pubkey,
    requires_dispute: bool,
    now: i64,
) -> (r: ProgramResult<()>)
    ensures
        r == spec_refund_dispute(*green_label_project, green_label_project_key, spec_dispute_value(green_label_dispute),
            *escrow, parameters_dispute, requires_dispute, now),
{
    if requires_dispute {
        let dispute = match green_label_dispute {
            Some(d) => d,
            None => return Err(CustomError::GreenLabelRefundTargetMismatch),
        };
        if parameters_dispute.is_zero() {
            return Err(CustomError::GreenLabelRefundTargetMismatch);
        }
        if dispute.project != green_label_project_key {
            return Err(CustomError::GreenLabelRefundTargetMismatch);
        }
        if green_label_project.active_dispute != parameters_dispute {
            return Err(CustomError::InvalidGreenLabelActiveDispute);
        }
        if !(green_label_project.status == GreenLabelStatus::Disputed
            || green_label_project.status == GreenLabelStatus::RefundQueued) {
            return Err(CustomError::InvalidGreenLabelStatus);
        }
        if !(dispute.status == DisputeStatus::ReadyForDecision || dispute.status == DisputeStatus::DecisionQueued) {
            return Err(CustomError::InvalidGreenLabelDisputeStatus);
        }
        if dispute.action_type == ActionType::GreenLabelSlash {
            return Err(CustomError::GreenLabelRefundActionMismatch);
        }
    } else {
        if !parameters_dispute.is_zero() {
            return Err(CustomError::GreenLabelRefundTargetMismatch);
        }
        if !green_label_project.active_dispute.is_zero() {
            return Err(CustomError::GreenLabelUnresolvedDispute);
        }
        if now < escrow.refund_available_after {
            return Err(CustomError::GreenLabelRefundNotEligible);
        }
        if green_label_project.status == GreenLabelStatus::Disputed || green_label_project.status == GreenLabelStatus::Refunded
            || green_label_project.status == GreenLabelStatus::Slashed
            || green_label_project.status == GreenLabelStatus::Cancelled {
            return Err(CustomError::InvalidGreenLabelStatus);
        }
    }
    Ok(())
}

/// The outcome of checking a governance refund of an escrow.
pub open spec fn spec_refund_context(
    security_governance_config: GovernanceConfigV1,
    security_governance_config_key: Pubkey,
    green_label_config: GreenLabelConfigV1,
    green_label_config_key: Pubkey,
    green_label_project: GreenLabelProjectV1,
    green_label_project_key: Pubkey,
    green_label_dispute: Option<GreenLabelDisputeV1>,
    escrow: GreenLabelRefundableEscrowV1,
    escrow_key: Pubkey,
    protocol_module_registry: ProtocolModuleRegistryV1,
    protocol_module_registry_key: Pubkey,
    governance_proposal: GovernanceProposalV1,
    governance_proposal_key: Pubkey,
    governance_proposal_action: GovernanceProposalActionV1,
    governance_proposal_action_key: Pubkey,
    governance_decision_adapter: UniversalGovernanceDecisionAdapterV1,
    governance_decision_adapter_key: Pubkey,
    proposal_decision: ProposalDecisionV1,
    proposal_decision_key: Pubkey,
    execution_queue_item: ExecutionQueueItemV1,
    execution_queue_item_key: Pubkey,
    refundable_vault_key: Pubkey,
    refundable_vault_mint: Pubkey,
    refundable_vault_owner: Pubkey,
    payer_destination_token_account: Pubkey,
    payer_destination_owner: Pubkey,
    payer_destination_mint: Pubkey,
    provided_usdc_mint: Pubkey,
    usdc_decimals: u8,
    vault_balance: u64,
    requires_dispute: bool,
    now: i64,
    parameters: GreenLabelRefundParametersV1,
) -> ProgramResult<()> {
    let governance = spec_action_governance(security_governance_config, security_governance_config_key,
        green_label_config, protocol_module_registry, protocol_module_registry_key, governance_proposal,
        governance_proposal_key, governance_proposal_action, governance_proposal_action_key, escrow_key,
        GovernanceActionTypeV1::GreenLabelRefundBond, ActionType::GreenLabelRefund, spec_refund_errors());
    let accounts = spec_refund_escrow_accounts(green_label_config, green_label_project, green_label_project_key, escrow,
        escrow_key, refundable_vault_key, refundable_vault_mint, refundable_vault_owner, payer_destination_token_account,
        payer_destination_owner, payer_destination_mint, provided_usdc_mint, usdc_decimals);
    if governance is Err {
        governance
    } else if accounts is Err {
        accounts
    } else {
        match spec_escrow_payable(escrow, CustomError::GreenLabelRefundNotEligible, CustomError::GreenLabelRefundAmountMismatch) {
            Err(e) => Err(e),
            Ok(amount) => {
                let matched = spec_refund_parameters_match(parameters, green_label_config_key, green_label_project_key,
                    escrow, escrow_key, refundable_vault_key, payer_destination_token_account, governance_proposal, amount);
                let dispute = spec_refund_dispute(green_label_project, green_label_project_key, green_label_dispute, escrow,
                    parameters.green_label_dispute, requires_dispute, now);
                if vault_balance < amount {
                    Err(CustomError::GreenLabelRefundInsufficientFunds)
                } else if matched is Err {
                    matched
                } else if dispute is Err {
                    dispute
                } else {
                    match spec_refund_parameters_hash(parameters) {
                        Err(e) => Err(e),
                        Ok(h) => if governance_proposal_action.parameters_hash != h {
                            Err(CustomError::GreenLabelRefundParametersMismatch)
                        } else {
                            spec_action_security(escrow_key, governance_proposal, governance_proposal_key,
                                governance_proposal_action, governance_decision_adapter, governance_decision_adapter_key,
                                proposal_decision, proposal_decision_key, execution_queue_item, execution_queue_item_key,
                                ProposalType::GreenLabelRefund, ActionType::GreenLabelRefund, None, spec_refund_errors())
                        },
                    }
                }
            },
        }
    }
}

/// Checks a governance refund of an escrow to its payer: a passed refund
/// proposal targeting the escrow, approved and executed by the Security
/// Layer; the escrow of this project in USDC with its own vault, paying its
/// remaining amount, which the vault covers, to the payer's own other USDC
/// account; parameters hashed into the proposal that name exactly this
/// refund; and, for a disputed project, its active dispute awaiting or
/// holding a non-slash decision, or otherwise no dispute and a passed refund
/// time.
pub fn validate_green_label_refund_execution_context_v1(
    security_governance_config: &GovernanceConfigV1,
    security_governance_config_key: Pubkey,
    green_label_config: &GreenLabelConfigV1,
    green_label_config_key: Pubkey,
    green_label_project: &GreenLabelProjectV1,
    green_label_project_key: Pubkey,
    green_label_dispute: Option<&GreenLabelDisputeV1>,
    escrow: &GreenLabelRefundableEscrowV1,
    escrow_key: Pubkey,
    protocol_module_registry: &ProtocolModuleRegistryV1,
    protocol_module_registry_key: Pubkey,
    governance_proposal: &GovernanceProposalV1,
    governance_proposal_key: Pubkey,
    governance_proposal_action: &GovernanceProposalActionV1,
    governance_proposal_action_key: Pubkey,
    governance_decision_adapter: &UniversalGovernanceDecisionAdapterV1,
    governance_decision_adapter_key: Pubkey,
    proposal_decision: &ProposalDecisionV1,
    proposal_decision_key: Pubkey,
    execution_queue_item: &ExecutionQueueItemV1,
    execution_queue_item_key: Pubkey,
    refundable_vault_key: Pubkey,
    refundable_vault_mint: Pubkey,
    refundable_vault_owner: Pubkey,
    payer_destination_token_account: Pubkey,
    payer_destination_owner: Pubkey,
    payer_destination_mint: Pubkey,
    provided_usdc_mint: Pubkey,
    usdc_decimals: u8,
    vault_balance: u64,
    requires_dispute: bool,
    now: i64,
    parameters: &GreenLabelRefundParametersV1,
) -> (r: ProgramResult<()>)
    ensures
        r == spec_refund_context(*security_governance_config, security_governance_config_key, *green_label_config,
            green_label_config_key, *green_label_project, green_label_project_key, spec_dispute_value(green_label_dispute),
            *escrow, escrow_key, *protocol_module_registry, protocol_module_registry_key, *governance_proposal,
            governance_proposal_key, *governance_proposal_action, governance_proposal_action_key,
            *governance_decision_adapter, governance_decision_adapter_key, *proposal_decision, proposal_decision_key,
            *execution_queue_item, execution_queue_item_key, refundable_vault_key, refundable_vault_mint,
            refundable_vault_owner, payer_destination_token_account, payer_destination_owner, payer_destination_mint,
            provided_usdc_mint, usdc_decimals, vault_balance, requires_dispute, now, *parameters),
{
    let errors = refund_errors();
    validate_action_governance(security_governance_config, security_governance_config_key, green_label_config,
        protocol_module_registry, protocol_module_registry_key, governance_proposal, governance_proposal_key,
        governance_proposal_action, governance_proposal_action_key, escrow_key, GovernanceActionTypeV1::GreenLabelRefundBond,
        ActionType::GreenLabelRefund, errors)?;
    validate_refund_escrow_accounts(green_label_config, green_label_project, green_label_project_key, escrow, escrow_key,
        refundable_vault_key, refundable_vault_mint, refundable_vault_owner, payer_destination_token_account,
        payer_destination_owner, payer_destination_mint, provided_usdc_mint, usdc_decimals)?;
    let refund_amount = derive_green_label_refund_amount_v1(escrow)?;
    validate_green_label_refund_vault_balance_v1(vault_balance, refund_amount)?;
    validate_refund_parameters_match(parameters, green_label_config_key, green_label_project_key, escrow, escrow_key,
        refundable_vault_key, payer_destination_token_account, governance_proposal, refund_amount)?;
    validate_refund_dispute(green_label_project, green_label_project_key, green_label_dispute, escrow,
        parameters.green_label_dispute, requires_dispute, now)?;
    let parameters_hash = hash_green_label_refund_parameters_v1(parameters)?;
    if governance_proposal_action.parameters_hash != parameters_hash {
        return Err(CustomError::GreenLabelRefundParametersMismatch);
    }
    validate_action_security(escrow_key, governance_proposal, governance_proposal_key, governance_proposal_action,
        governance_decision_adapter, governance_decision_adapter_key, proposal_decision, proposal_decision_key,
        execution_queue_item, execution_queue_item_key, ProposalType::GreenLabelRefund, ActionType::GreenLabelRefund, None,
        errors)
}

/// The errors governance forfeits report.
pub open spec fn spec_forfeit_errors() -> ActionErrors {
    ActionErrors {
        action: CustomError::GreenLabelForfeitActionMismatch,
        target: CustomError::GreenLabelForfeitTargetMismatch,
        parameters: CustomError::GreenLabelForfeitParametersMismatch,
    }
}

fn forfeit_errors() -> (e: ActionErrors)
    ensures
        e == spec_forfeit_errors(),
{
    ActionErrors {
        action: CustomError::GreenLabelForfeitActionMismatch,
        target: CustomError::GreenLabelForfeitTargetMismatch,
        parameters: CustomError::GreenLabelForfeitParametersMismatch,
    }
}

/// The escrow and vault checks of a governance forfeit.
pub open spec fn spec_forfeit_escrow_accounts(
    green_label_config: GreenLabelConfigV1,
    green_label_project: GreenLabelProjectV1,
    green_label_project_key: Pubkey,
    escrow: GreenLabelRefundableEscrowV1,
    escrow_key: Pubkey,
    refundable_vault_key: Pubkey,
    refundable_vault_mint: Pubkey,
    refundable_vault_owner: Pubkey,
    provided_usdc_mint: Pubkey,
    usdc_decimals: u8,
) -> ProgramResult<()> {
    if escrow.project != green_label_project_key || escrow.project_id != green_label_project.project_id {
        Err(CustomError::GreenLabelForfeitTargetMismatch)
    } else if escrow.usdc_mint != green_label_config.usdc_mint {
        Err(CustomError::GreenLabelForfeitMintMismatch)
    } else if escrow.refundable_vault != refundable_vault_key {
        Err(CustomError::GreenLabelForfeitVaultMismatch)
    } else {
        spec_forfeit_mint_accounts(escrow.usdc_mint, escrow_key, refundable_vault_mint, refundable_vault_owner,
            provided_usdc_mint, usdc_decimals)
    }
}

fn validate_forfeit_escrow_accounts(
    green_label_config: &GreenLabelConfigV1,
    green_label_project: &GreenLabelProjectV1,
    green_label_project_key: Pubkey,
    escrow: &GreenLabelRefundableEscrowV1,
    escrow_key: Pubkey,
    refundable_vault_key: Pubkey,
    refundable_vault_mint: Pubkey,
    refundable_vault_owner: Pubkey,
    provided_usdc_mint: Pubkey,
    usdc_decimals: u8,
) -> (r: ProgramResult<()>)
    ensures
        r == spec_forfeit_escrow_accounts(*green_label_config, *green_label_project, green_label_project_key, *escrow,
            escrow_key, refundable_vault_key, refundable_vault_mint, refundable_vault_owner, provided_usdc_mint,
            usdc_decimals),
{
    if escrow.project != green_label_project_key || escrow.project_id != green_label_project.project_id {
        return Err(CustomError::GreenLabelForfeitTargetMismatch);
    }
    if escrow.usdc_mint != green_label_config.usdc_mint {
        return Err(CustomError::GreenLabelForfeitMintMismatch);
    }
    if escrow.refundable_vault != refundable_vault_key {
        return Err(CustomError::GreenLabelForfeitVaultMismatch);
    }
    validate_green_label_forfeit_mint_accounts_v1(escrow.usdc_mint, escrow_key, refundable_vault_mint,
        refundable_vault_owner, provided_usdc_mint, usdc_decimals)
}

/// The dispute checks of a governance forfeit: the project's active dispute
/// is this dispute about it, the project is disputed or queued for a slash,
/// the dispute awaits or holds its decision, and it was not decided for a
/// refund.
pub open spec fn spec_forfeit_dispute(
    green_label_project: GreenLabelProjectV1,
    green_label_project_key: Pubkey,
    green_label_dispute: GreenLabelDisputeV1,
    green_label_dispute_key: Pubkey,
) -> ProgramResult<()> {
    if green_label_project.active_dispute != green_label_dispute_key || green_label_dispute.project != green_label_project_key {
        Err(CustomError::GreenLabelForfeitDisputeMismatch)
    } else if green_label_project.status != GreenLabelStatus::Disputed && green_label_project.status != GreenLabelStatus::SlashQueued {
        Err(CustomError::InvalidGreenLabelStatus)
    } else if green_label_dispute.status != DisputeStatus::ReadyForDecision
        && green_label_dispute.status != DisputeStatus::DecisionQueued {
        Err(CustomError::InvalidGreenLabelDisputeStatus)
    } else if green_label_dispute.action_type == ActionType::GreenLabelRefund {
        Err(CustomError::GreenLabelForfeitDecisionMismatch)
    } else {
        Ok(())
    }
}

fn validate_forfeit_dispute(
    green_label_project: &GreenLabelProjectV1,
    green_label_project_key: Pubkey,
    green_label_dispute: &GreenLabelDisputeV1,
    green_label_dispute_key: Pubkey,
) -> (r: ProgramResult<()>)
    ensures
        r == spec_forfeit_dispute(*green_label_project, green_label_project_key, *green_label_dispute, green_label_dispute_key),
{
    if green_label_project.active_dispute != green_label_dispute_key {
        return Err(CustomError::GreenLabelForfeitDisputeMismatch);
    }
    if green_label_dispute.project != green_label_project_key {
        return Err(CustomError::GreenLabelForfeitDisputeMismatch);
    }
    if !(green_label_project.status == GreenLabelStatus::Disputed || green_label_project.status == GreenLabelStatus::SlashQueued) {
        return Err(CustomError::InvalidGreenLabelStatus);
    }
    if !(green_label_dispute.status == DisputeStatus::ReadyForDecision
        || green_label_dispute.status == DisputeStatus::DecisionQueued) {
        return Err(CustomError::InvalidGreenLabelDisputeStatus);
    }
    if green_label_dispute.action_type == ActionType::GreenLabelRefund {
        return Err(CustomError::GreenLabelForfeitDecisionMismatch);
    }
    Ok(())
}

/// The treasury accounts a forfeit is routed to, by key.
#[derive(Clone, Copy, Debug, PartialEq, Eq, Structural)]
pub struct TreasuryKeys {
    pub treasury_config: Pubkey,
    pub treasury_usdc_state: Pubkey,
    pub revenue_routing_stats: Pubkey,
    pub relief_usdc_vault: Pubkey,
    pub buyback_usdc_vault: Pubkey,
    pub builders_usdc_vault: Pubkey,
    pub staking_usdc_vault: Pubkey,
}

/// The forfeit parameters must name exactly this forfeit of `forfeit_amount`.
pub open spec fn spec_forfeit_parameters_match(
    p: GreenLabelForfeitParametersV1,
    green_label_config_key: Pubkey,
    green_label_project: GreenLabelProjectV1,
    green_label_project_key: Pubkey,
    green_label_dispute: GreenLabelDisputeV1,
    green_label_dispute_key: Pubkey,
    escrow: GreenLabelRefundableEscrowV1,
    escrow_key: Pubkey,
    refundable_vault_key: Pubkey,
    treasury: TreasuryKeys,
    governance_proposal: GovernanceProposalV1,
    forfeit_amount: u64,
) -> ProgramResult<()> {
    if p.schema_version != crate::constants::GREEN_LABEL_FORFEIT_SCHEMA_VERSION {
        Err(CustomError::InvalidGreenLabelForfeitSchema)
    } else if p.green_label_config != green_label_config_key || p.green_label_project != green_label_project_key {
        Err(CustomError::GreenLabelForfeitTargetMismatch)
    } else if p.green_label_dispute != green_label_dispute_key {
        Err(CustomError::GreenLabelForfeitDisputeMismatch)
    } else if p.refundable_escrow != escrow_key {
        Err(CustomError::GreenLabelForfeitTargetMismatch)
    } else if p.refundable_vault != refundable_vault_key {
        Err(CustomError::GreenLabelForfeitVaultMismatch)
    } else if p.forfeited_amount_usdc != forfeit_amount {
        Err(CustomError::GreenLabelForfeitAmountMismatch)
    } else if p.treasury_config != treasury.treasury_config || p.treasury_usdc_state != treasury.treasury_usdc_state
        || p.revenue_routing_stats != treasury.revenue_routing_stats {
        Err(CustomError::GreenLabelForfeitTargetMismatch)
    } else if p.relief_usdc_vault != treasury.relief_usdc_vault || p.buyback_usdc_vault != treasury.buyback_usdc_vault
        || p.builders_usdc_vault != treasury.builders_usdc_vault || p.staking_usdc_vault != treasury.staking_usdc_vault {
        Err(CustomError::GreenLabelForfeitVaultMismatch)
    } else if p.usdc_mint != escrow.usdc_mint {
        Err(CustomError::GreenLabelForfeitMintMismatch)
    } else if p.revenue_type != crate::state::RevenueType::GreenLabelForfeitedBond {
        Err(CustomError::GreenLabelForfeitActionMismatch)
    } else if p.expected_escrow_status != escrow.status || p.expected_project_status != green_label_project.status
        || p.expected_dispute_status != green_label_dispute.status {
        Err(CustomError::GreenLabelForfeitParametersMismatch)
    } else if p.action_type != GovernanceActionTypeV1::GreenLabelSlashBond {
        Err(CustomError::GreenLabelForfeitActionMismatch)
    } else if p.proposal_id != governance_proposal.proposal_id {
        Err(CustomError::InvalidProposalId)
    } else {
        Ok(())
    }
}

fn validate_forfeit_parameters_match(
    p: &GreenLabelForfeitParametersV1,
    green_label_config_key: Pubkey,
    green_label_project: &GreenLabelProjectV1,
    green_label_project_key: Pubkey,
    green_label_dispute: &GreenLabelDisputeV1,
    green_label_dispute_key: Pubkey,
    escrow: &GreenLabelRefundableEscrowV1,
    escrow_key: Pubkey,
    refundable_vault_key: Pubkey,
    treasury: &TreasuryKeys,
    governance_proposal: &GovernanceProposalV1,
    forfeit_amount: u64,
) -> (r: ProgramResult<()>)
    ensures
        r == spec_forfeit_parameters_match(*p, green_label_config_key, *green_label_project, green_label_project_key,
            *green_label_dispute, green_label_dispute_key, *escrow, escrow_key, refundable_vault_key, *treasury,
            *governance_proposal, forfeit_amount),
{
    if p.schema_version != crate::constants::GREEN_LABEL_FORFEIT_SCHEMA_VERSION {
        return Err(CustomError::InvalidGreenLabelForfeitSchema);
    }
    if p.green_label_config != green_label_config_key || p.green_label_project != green_label_project_key {
        return Err(CustomError::GreenLabelForfeitTargetMismatch);
    }
    if p.green_label_dispute != green_label_dispute_key {
        return Err(CustomError::GreenLabelForfeitDisputeMismatch);
    }
    if p.refundable_escrow != escrow_key {
        return Err(CustomError::GreenLabelForfeitTargetMismatch);
    }
    if p.refundable_vault != refundable_vault_key {
        return Err(CustomError::GreenLabelForfeitVaultMismatch);
    }
    if p.forfeited_amount_usdc != forfeit_amount {
        return Err(CustomError::GreenLabelForfeitAmountMismatch);
    }
    if p.treasury_config != treasury.treasury_config || p.treasury_usdc_state != treasury.treasury_usdc_state
        || p.revenue_routing_stats != treasury.revenue_routing_stats {
        return Err(CustomError::GreenLabelForfeitTargetMismatch);
    }
    if p.relief_usdc_vault != treasury.relief_usdc_vault || p.buyback_usdc_vault != treasury.buyback_usdc_vault
        || p.builders_usdc_vault != treasury.builders_usdc_vault || p.staking_usdc_vault != treasury.staking_usdc_vault {
        return Err(CustomError::GreenLabelForfeitVaultMismatch);
    }
    if p.usdc_mint != escrow.usdc_mint {
        return Err(CustomError::GreenLabelForfeitMintMismatch);
    }
    if p.revenue_type != crate::state::RevenueType::GreenLabelForfeitedBond {
        return Err(CustomError::GreenLabelForfeitActionMismatch);
    }
    if p.expected_escrow_status != escrow.status || p.expected_project_status != green_label_project.status
        || p.expected_dispute_status != green_label_dispute.status {
        return Err(CustomError::GreenLabelForfeitParametersMismatch);
    }
    if p.action_type != GovernanceActionTypeV1::GreenLabelSlashBond {
        return Err(CustomError::GreenLabelForfeitActionMismatch);
    }
    if p.proposal_id != governance_proposal.proposal_id {
        return Err(CustomError::InvalidProposalId);
    }
    Ok(())
}

/// The treasury bindings of a forfeit: the configuration's USDC state and
/// vault authority, the routing stats under the treasury's authority, and a
/// treasury in the escrow's mint.
pub open spec fn spec_forfeit_treasury_binding(
    green_label_config: GreenLabelConfigV1,
    treasury_usdc_state_key: Pubkey,
    vault_authority_key: Pubkey,
    revenue_routing_stats: RevenueRoutingStatsV1,
    treasury_config: TreasuryConfigV2,
    usdc_mint: Pubkey,
) -> ProgramResult<()> {
    if green_label_config.treasury_usdc_state_v2 != treasury_usdc_state_key {
        Err(CustomError::GreenLabelForfeitTargetMismatch)
    } else if green_label_config.vault_authority_v2 != vault_authority_key {
        Err(CustomError::GreenLabelForfeitVaultMismatch)
    } else if revenue_routing_stats.authority != treasury_config.authority {
        Err(CustomError::UnauthorizedTreasuryAuthority)
    } else if treasury_config.usdc_mint != usdc_mint {
        Err(CustomError::GreenLabelForfeitMintMismatch)
    } else {
        Ok(())
    }
}

/// The token accounts of the four treasury vaults, as the forfeit reads them.
#[derive(Clone, Copy, Debug, PartialEq, Eq, Structural)]
pub struct TreasuryVaults {
    pub relief_mint: Pubkey,
    pub relief_owner: Pubkey,
    pub buyback_mint: Pubkey,
    pub buyback_owner: Pubkey,
    pub builders_mint: Pubkey,
    pub builders_owner: Pubkey,
    pub staking_mint: Pubkey,
    pub staking_owner: Pubkey,
}

/// The outcome of checking a governance forfeit of an escrow.
pub open spec fn spec_forfeit_context(
    security_governance_config: GovernanceConfigV1,
    security_governance_config_key: Pubkey,
    green_label_config: GreenLabelConfigV1,
    green_label_config_key: Pubkey,
    green_label_project: GreenLabelProjectV1,
    green_label_project_key: Pubkey,
    green_label_dispute: GreenLabelDisputeV1,
    green_label_dispute_key: Pubkey,
    escrow: GreenLabelRefundableEscrowV1,
    escrow_key: Pubkey,
    protocol_module_registry: ProtocolModuleRegistryV1,
    protocol_module_registry_key: Pubkey,
    governance_proposal: GovernanceProposalV1,
    governance_proposal_key: Pubkey,
    governance_proposal_action: GovernanceProposalActionV1,
    governance_proposal_action_key: Pubkey,
    governance_decision_adapter: UniversalGovernanceDecisionAdapterV1,
    governance_decision_adapter_key: Pubkey,
    proposal_decision: ProposalDecisionV1,
    proposal_decision_key: Pubkey,
    execution_queue_item: ExecutionQueueItemV1,
    execution_queue_item_key: Pubkey,
    treasury_config: TreasuryConfigV2,
    revenue_routing_stats: RevenueRoutingStatsV1,
    treasury: TreasuryKeys,
    vault_authority_key: Pubkey,
    refundable_vault_key: Pubkey,
    refundable_vault_mint: Pubkey,
    refundable_vault_owner: Pubkey,
    vault_balance: u64,
    vaults: TreasuryVaults,
    provided_usdc_mint: Pubkey,
    usdc_decimals: u8,
    now: i64,
    parameters: GreenLabelForfeitParametersV1,
) -> ProgramResult<()> {
    let governance = spec_action_governance(security_governance_config, security_governance_config_key,
        green_label_config, protocol_module_registry, protocol_module_registry_key, governance_proposal,
        governance_proposal_key, governance_proposal_action, governance_proposal_action_key, escrow_key,
        GovernanceActionTypeV1::GreenLabelSlashBond, ActionType::GreenLabelSlash, spec_forfeit_errors());
    let accounts = spec_forfeit_escrow_accounts(green_label_config, green_label_project, green_label_project_key, escrow,
        escrow_key, refundable_vault_key, refundable_vault_mint, refundable_vault_owner, provided_usdc_mint, usdc_decimals);
    let dispute = spec_forfeit_dispute(green_label_project, green_label_project_key, green_label_dispute,
        green_label_dispute_key);
    let router = spec_treasury_router(escrow.usdc_mint, treasury.treasury_config, treasury_config.usdc_mint,
        treasury.treasury_usdc_state, treasury.revenue_routing_stats, revenue_routing_stats.usdc_mint, vault_authority_key,
        VaultView { key: treasury.relief_usdc_vault, mint: vaults.relief_mint, owner: vaults.relief_owner },
        VaultView { key: treasury.buyback_usdc_vault, mint: vaults.buyback_mint, owner: vaults.buyback_owner },
        VaultView { key: treasury.builders_usdc_vault, mint: vaults.builders_mint, owner: vaults.builders_owner },
        VaultView { key: treasury.staking_usdc_vault, mint: vaults.staking_mint, owner: vaults.staking_owner });
    let binding = spec_forfeit_treasury_binding(green_label_config, treasury.treasury_usdc_state, vault_authority_key,
        revenue_routing_stats, treasury_config, escrow.usdc_mint);
    if governance is Err {
        governance
    } else if accounts is Err {
        accounts
    } else if dispute is Err {
        dispute
    } else {
        match spec_escrow_payable(escrow, CustomError::GreenLabelForfeitNotEligible, CustomError::GreenLabelForfeitAmountMismatch) {
            Err(e) => Err(e),
            Ok(amount) => {
                let matched = spec_forfeit_parameters_match(parameters, green_label_config_key, green_label_project,
                    green_label_project_key, green_label_dispute, green_label_dispute_key, escrow, escrow_key,
                    refundable_vault_key, treasury, governance_proposal, amount);
                if vault_balance < amount {
                    Err(CustomError::GreenLabelForfeitInsufficientFunds)
                } else if matched is Err {
                    matched
                } else {
                    match spec_forfeit_parameters_hash(parameters) {
                        Err(e) => Err(e),
                        Ok(h) => if governance_proposal_action.parameters_hash != h {
                            Err(CustomError::GreenLabelForfeitParametersMismatch)
                        } else if router is Err {
                            router
                        } else if binding is Err {
                            binding
                        } else {
                            spec_action_security(escrow_key, governance_proposal, governance_proposal_key,
                                governance_proposal_action, governance_decision_adapter, governance_decision_adapter_key,
                                proposal_decision, proposal_decision_key, execution_queue_item, execution_queue_item_key,
                                ProposalType::GreenLabelSlash, ActionType::GreenLabelSlash, Some(now), spec_forfeit_errors())
                        },
                    }
                }
            },
        }
    }
}

/// Checks a governance forfeit of an escrow to the treasury: a passed slash
/// proposal targeting the escrow, approved and executed by the Security
/// Layer no later than now; the escrow of this project in USDC with its own
/// vault, forfeiting its remaining amount, which the vault covers; the
/// project's active dispute, not decided for a refund; parameters hashed into
/// the proposal that name exactly this forfeit; and the treasury's accounts
/// at their addresses, bound to the configuration.
pub fn validate_green_label_forfeit_execution_context_v1(
    security_governance_config: &GovernanceConfigV1,
    security_governance_config_key: Pubkey,
    green_label_config: &GreenLabelConfigV1,
    green_label_config_key: Pubkey,
    green_label_project: &GreenLabelProjectV1,
    green_label_project_key: Pubkey,
    green_label_dispute: &GreenLabelDisputeV1,
    green_label_dispute_key: Pubkey,
    escrow: &GreenLabelRefundableEscrowV1,
    escrow_key: Pubkey,
    protocol_module_registry: &ProtocolModuleRegistryV1,
    protocol_module_registry_key: Pubkey,
    governance_proposal: &GovernanceProposalV1,
    governance_proposal_key: Pubkey,
    governance_proposal_action: &GovernanceProposalActionV1,
    governance_proposal_action_key: Pubkey,
    governance_decision_adapter: &UniversalGovernanceDecisionAdapterV1,
    governance_decision_adapter_key: Pubkey,
    proposal_decision: &ProposalDecisionV1,
    proposal_decision_key: Pubkey,
    execution_queue_item: &ExecutionQueueItemV1,
    execution_queue_item_key: Pubkey,
    treasury_config: &TreasuryConfigV2,
    treasury_config_key: Pubkey,
    treasury_usdc_state: &TreasuryUsdcStateV2,
    treasury_usdc_state_key: Pubkey,
    revenue_routing_stats: &RevenueRoutingStatsV1,
    revenue_routing_stats_key: Pubkey,
    vault_authority_key: Pubkey,
    refundable_vault_key: Pubkey,
    refundable_vault_mint: Pubkey,
    refundable_vault_owner: Pubkey,
    vault_balance: u64,
    relief_usdc_vault_key: Pubkey,
    relief_usdc_vault_mint: Pubkey,
    relief_usdc_vault_owner: Pubkey,
    buyback_usdc_vault_key: Pubkey,
    buyback_usdc_vault_mint: Pubkey,
    buyback_usdc_vault_owner: Pubkey,
    builders_usdc_vault_key: Pubkey,
    builders_usdc_vault_mint: Pubkey,
    builders_usdc_vault_owner: Pubkey,
    staking_usdc_vault_key: Pubkey,
    staking_usdc_vault_mint: Pubkey,
    staking_usdc_vault_owner: Pubkey,
    provided_usdc_mint: Pubkey,
    usdc_decimals: u8,
    now: i64,
    parameters: &GreenLabelForfeitParametersV1,
) -> (r: ProgramResult<()>)
    ensures
        r == spec_forfeit_context(*security_governance_config, security_governance_config_key, *green_label_config,
            green_label_config_key, *green_label_project, green_label_project_key, *green_label_dispute,
            green_label_dispute_key, *escrow, escrow_key, *protocol_module_registry, protocol_module_registry_key,
            *governance_proposal, governance_proposal_key, *governance_proposal_action, governance_proposal_action_key,
            *governance_decision_adapter, governance_decision_adapter_key, *proposal_decision, proposal_decision_key,
            *execution_queue_item, execution_queue_item_key, *treasury_config, *revenue_routing_stats, TreasuryKeys {
                treasury_config: treasury_config_key,
                treasury_usdc_state: treasury_usdc_state_key,
                revenue_routing_stats: revenue_routing_stats_key,
                relief_usdc_vault: relief_usdc_vault_key,
                buyback_usdc_vault: buyback_usdc_vault_key,
                builders_usdc_vault: builders_usdc_vault_key,
                staking_usdc_vault: staking_usdc_vault_key,
            }, vault_authority_key, refundable_vault_key, refundable_vault_mint, refundable_vault_owner, vault_balance,
            TreasuryVaults {
                relief_mint: relief_usdc_vault_mint,
                relief_owner: relief_usdc_vault_owner,
                buyback_mint: buyback_usdc_vault_mint,
                buyback_owner: buyback_usdc_vault_owner,
                builders_mint: builders_usdc_vault_mint,
                builders_owner: builders_usdc_vault_owner,
                staking_mint: staking_usdc_vault_mint,
                staking_owner: staking_usdc_vault_owner,
            }, provided_usdc_mint, usdc_decimals, now, *parameters),
{
    let errors = forfeit_errors();
    validate_action_governance(security_governance_config, security_governance_config_key, green_label_config,
        protocol_module_registry, protocol_module_registry_key, governance_proposal, governance_proposal_key,
        governance_proposal_action, governance_proposal_action_key, escrow_key, GovernanceActionTypeV1::GreenLabelSlashBond,
        ActionType::GreenLabelSlash, errors)?;
    validate_forfeit_escrow_accounts(green_label_config, green_label_project, green_label_project_key, escrow, escrow_key,
        refundable_vault_key, refundable_vault_mint, refundable_vault_owner, provided_usdc_mint, usdc_decimals)?;
    validate_forfeit_dispute(green_label_project, green_label_project_key, green_label_dispute, green_label_dispute_key)?;
    let forfeit_amount = derive_green_label_forfeitable_amount_v1(escrow)?;
    validate_green_label_forfeit_vault_balance_v1(vault_balance, forfeit_amount)?;
    let treasury = TreasuryKeys {
        treasury_config: treasury_config_key,
        treasury_usdc_state: treasury_usdc_state_key,
        revenue_routing_stats: revenue_routing_stats_key,
        relief_usdc_vault: relief_usdc_vault_key,
        buyback_usdc_vault: buyback_usdc_vault_key,
        builders_usdc_vault: builders_usdc_vault_key,
        staking_usdc_vault: staking_usdc_vault_key,
    };
    validate_forfeit_parameters_match(parameters, green_label_config_key, green_label_project, green_label_project_key,
        green_label_dispute, green_label_dispute_key, escrow, escrow_key, refundable_vault_key, &treasury,
        governance_proposal, forfeit_amount)?;
    let parameters_hash = hash_green_label_forfeit_parameters_v1(parameters)?;
    if governance_proposal_action.parameters_hash != parameters_hash {
        return Err(CustomError::GreenLabelForfeitParametersMismatch);
    }
    validate_green_label_treasury_router_accounts(escrow.usdc_mint, treasury_config_key, treasury_config.usdc_mint,
        treasury_usdc_state_key, revenue_routing_stats_key, revenue_routing_stats.usdc_mint, vault_authority_key,
        relief_usdc_vault_key, relief_usdc_vault_mint, relief_usdc_vault_owner, buyback_usdc_vault_key,
        buyback_usdc_vault_mint, buyback_usdc_vault_owner, builders_usdc_vault_key, builders_usdc_vault_mint,
        builders_usdc_vault_owner, staking_usdc_vault_key, staking_usdc_vault_mint, staking_usdc_vault_owner)?;
    if green_label_config.treasury_usdc_state_v2 != treasury_usdc_state_key {
        return Err(CustomError::GreenLabelForfeitTargetMismatch);
    }
    if green_label_config.vault_authority_v2 != vault_authority_key {
        return Err(CustomError::GreenLabelForfeitVaultMismatch);
    }
    if revenue_routing_stats.authority != treasury_config.authority {
        return Err(CustomError::UnauthorizedTreasuryAuthority);
    }
    if treasury_config.usdc_mint != escrow.usdc_mint {
        return Err(CustomError::GreenLabelForfeitMintMismatch);
    }
    let _ = treasury_usdc_state;
    validate_action_security(escrow_key, governance_proposal, governance_proposal_key, governance_proposal_action,
        governance_decision_adapter, governance_decision_adapter_key, proposal_decision, proposal_decision_key,
        execution_queue_item, execution_queue_item_key, ProposalType::GreenLabelSlash, ActionType::GreenLabelSlash,
        Some(now), errors)
}

/// The accounts a governance payout of an escrow came through.
#[derive(Clone, Copy, Debug, PartialEq, Eq, Structural)]
pub struct PayoutAccounts {
    pub execution_queue_item: Pubkey,
    pub proposal_decision: Pubkey,
    pub governance_proposal: Pubkey,
    pub governance_proposal_action: Pubkey,
    pub module_registry: Pubkey,
    pub green_label_config: Pubkey,
    pub green_label_project: Pubkey,
    pub green_label_dispute: Pubkey,
    pub refundable_escrow: Pubkey,
    pub refundable_vault: Pubkey,
}

/// The project once a governance payout closed it: `status` at `at`, no
/// active dispute, and the executed decision recorded as its terminal one.
pub open spec fn spec_closed_project(
    project: GreenLabelProjectV1,
    status: GreenLabelStatus,
    at: i64,
    proposal_id: u64,
    proposal_decision: Pubkey,
    execution_queue_item: Pubkey,
    payload_hash: Hash32,
    action_type: ActionType,
) -> GreenLabelProjectV1 {
    GreenLabelProjectV1 {
        status,
        active_dispute: Key32::zero(),
        refunded_at: if status == GreenLabelStatus::Refunded { at } else { project.refunded_at },
        slashed_at: if status == GreenLabelStatus::Slashed { at } else { project.slashed_at },
        terminal_proposal_id: proposal_id,
        terminal_proposal_decision: proposal_decision,
        terminal_execution_queue_item: execution_queue_item,
        terminal_payload_hash: payload_hash,
        terminal_action_type: action_type,
        ..project
    }
}

/// The dispute once a governance payout resolved it.
pub open spec fn spec_resolved_dispute(
    dispute: GreenLabelDisputeV1,
    status: DisputeStatus,
    at: i64,
    proposal_id: u64,
    proposal_decision: Pubkey,
    execution_queue_item: Pubkey,
    payload_hash: Hash32,
    action_type: ActionType,
) -> GreenLabelDisputeV1 {
    GreenLabelDisputeV1 {
        status,
        resolved_at: at,
        proposal_id,
        proposal_decision,
        execution_queue_item,
        payload_hash,
        action_type,
        ..dispute
    }
}

/// The execution record of a governance refund.
pub open spec fn spec_refund_record(
    a: PayoutAccounts,
    original_payer: Pubkey,
    payer_destination_token_account: Pubkey,
    refund_amount_usdc: u64,
    usdc_mint: Pubkey,
    parameters_hash: Hash32,
    canonical_governance_payload_hash: Hash32,
    escrow_status_before: GreenLabelEscrowStatusV1,
    project_status_before: GreenLabelStatus,
    executor: Pubkey,
    executed_at: i64,
    bump: u8,
) -> GreenLabelRefundExecutionRecordV1 {
    GreenLabelRefundExecutionRecordV1 {
        execution_queue_item: a.execution_queue_item,
        proposal_decision: a.proposal_decision,
        governance_proposal: a.governance_proposal,
        governance_proposal_action: a.governance_proposal_action,
        module_registry: a.module_registry,
        green_label_config: a.green_label_config,
        green_label_project: a.green_label_project,
        green_label_dispute: a.green_label_dispute,
        refundable_escrow: a.refundable_escrow,
        refundable_vault: a.refundable_vault,
        original_payer,
        payer_destination_token_account,
        refund_amount_usdc,
        usdc_mint,
        execution_type: GreenLabelEscrowExecutionTypeV1::Refund,
        governance_action_type: GovernanceActionTypeV1::GreenLabelRefundBond,
        parameters_hash,
        canonical_governance_payload_hash,
        escrow_status_before,
        escrow_status_after: GreenLabelEscrowStatusV1::Refunded,
        project_status_before,
        project_status_after: GreenLabelStatus::Refunded,
        executor,
        executed_at,
        schema_version: crate::constants::GREEN_LABEL_REFUND_SCHEMA_VERSION,
        bump,
    }
}

/// Records a governance refund. An execution record already written, or
/// invalid parameters, fail and change nothing. Otherwise the project is
/// marked Refunded at `executed_at` with the decision as its terminal one, a
/// dispute (when given) is resolved for the refund, and the execution record
/// is written; a zero record address then fails, after those writes.
pub fn record_green_label_refund_governance_v1(
    project: &mut GreenLabelProjectV1,
    dispute: Option<&mut GreenLabelDisputeV1>,
    execution_record: &mut GreenLabelRefundExecutionRecordV1,
    execution_queue_item: Pubkey,
    proposal_decision: Pubkey,
    governance_proposal: Pubkey,
    governance_proposal_action: Pubkey,
    module_registry: Pubkey,
    green_label_config: Pubkey,
    green_label_project: Pubkey,
    green_label_dispute: Pubkey,
    refundable_escrow: Pubkey,
    refundable_vault: Pubkey,
    original_payer: Pubkey,
    payer_destination_token_account: Pubkey,
    refund_amount_usdc: u64,
    usdc_mint: Pubkey,
    parameters: GreenLabelRefundParametersV1,
    canonical_governance_payload_hash: Hash32,
    escrow_status_before: GreenLabelEscrowStatusV1,
    project_status_before: GreenLabelStatus,
    executor: Pubkey,
    executed_at: i64,
    bump: u8,
    execution_record_key: Pubkey,
) -> (r: ProgramResult<()>)
    ensures
        old(execution_record).execution_queue_item != Key32::zero() || spec_refund_parameters_hash(parameters) is Err ==> {
            &&& r == (if old(execution_record).execution_queue_item != Key32::zero() {
                Err::<(), CustomError>(CustomError::GreenLabelRefundExecutionAlreadyCompleted)
            } else {
                Err::<(), CustomError>(spec_refund_parameters_hash(parameters)->Err_0)
            })
            &&& *final(project) == *old(project)
            &&& *final(execution_record) == *old(execution_record)
            &&& (dispute matches Some(d) ==> *final(d) == *d)
        },
        old(execution_record).execution_queue_item == Key32::zero() && spec_refund_parameters_hash(parameters) is Ok ==> {
            &&& r == (if execution_record_key == Key32::zero() {
                Err::<(), CustomError>(CustomError::GreenLabelRefundExecutionAlreadyCompleted)
            } else {
                Ok::<(), CustomError>(())
            })
            &&& *final(project) == spec_closed_project(*old(project), GreenLabelStatus::Refunded, executed_at,
                parameters.proposal_id, proposal_decision, execution_queue_item, canonical_governance_payload_hash,
                ActionType::GreenLabelRefund)
            &&& (dispute matches Some(d) ==> *final(d) == spec_resolved_dispute(*d, DisputeStatus::ResolvedRefund,
                executed_at, parameters.proposal_id, proposal_decision, execution_queue_item,
                canonical_governance_payload_hash, ActionType::GreenLabelRefund))
            &&& *final(execution_record) == spec_refund_record(PayoutAccounts {
                execution_queue_item,
                proposal_decision,
                governance_proposal,
                governance_proposal_action,
                module_registry,
                green_label_config,
                green_label_project,
                green_label_dispute,
                refundable_escrow,
                refundable_vault,
            }, original_payer, payer_destination_token_account, refund_amount_usdc, usdc_mint,
                spec_refund_parameters_hash(parameters)->Ok_0, canonical_governance_payload_hash, escrow_status_before,
                project_status_before, executor, executed_at, bump)
        },
{
    if !execution_record.execution_queue_item.is_zero() {
        return Err(CustomError::GreenLabelRefundExecutionAlreadyCompleted);
    }
    let parameters_hash = hash_green_label_refund_parameters_v1(&parameters)?;
    project.status = GreenLabelStatus::Refunded;
    project.active_dispute = Key32::default();
    project.refunded_at = executed_at;
    project.terminal_proposal_id = parameters.proposal_id;
    project.terminal_proposal_decision = proposal_decision;
    project.terminal_execution_queue_item = execution_queue_item;
    project.terminal_payload_hash = canonical_governance_payload_hash;
    project.terminal_action_type = ActionType::GreenLabelRefund;
    if let Some(dispute) = dispute {
        dispute.status = DisputeStatus::ResolvedRefund;
        dispute.resolved_at = executed_at;
        dispute.proposal_id = parameters.proposal_id;
        dispute.proposal_decision = proposal_decision;
        dispute.execution_queue_item = execution_queue_item;
        dispute.payload_hash = canonical_governance_payload_hash;
        dispute.action_type = ActionType::GreenLabelRefund;
    }
    execution_record.execution_queue_item = execution_queue_item;
    execution_record.proposal_decision = proposal_decision;
    execution_record.governance_proposal = governance_proposal;
    execution_record.governance_proposal_action = governance_proposal_action;
    execution_record.module_registry = module_registry;
    execution_record.green_label_config = green_label_config;
    execution_record.green_label_project = green_label_project;
    execution_record.green_label_dispute = green_label_dispute;
    execution_record.refundable_escrow = refundable_escrow;
    execution_record.refundable_vault = refundable_vault;
    execution_record.original_payer = original_payer;
    execution_record.payer_destination_token_account = payer_destination_token_account;
    execution_record.refund_amount_usdc = refund_amount_usdc;
    execution_record.usdc_mint = usdc_mint;
    execution_record.execution_type = GreenLabelEscrowExecutionTypeV1::Refund;
    execution_record.governance_action_type = GovernanceActionTypeV1::GreenLabelRefundBond;
    execution_record.parameters_hash = parameters_hash;
    execution_record.canonical_governance_payload_hash = canonical_governance_payload_hash;
    execution_record.escrow_status_before = escrow_status_before;
    execution_record.escrow_status_after = GreenLabelEscrowStatusV1::Refunded;
    execution_record.project_status_before = project_status_before;
    execution_record.project_status_after = GreenLabelStatus::Refunded;
    execution_record.executor = executor;
    execution_record.executed_at = executed_at;
    execution_record.schema_version = crate::constants::GREEN_LABEL_REFUND_SCHEMA_VERSION;
    execution_record.bump = bump;
    if execution_record_key.is_zero() {
        return Err(CustomError::GreenLabelRefundExecutionAlreadyCompleted);
    }
    Ok(())
}

/// The execution record of a governance forfeit.
pub open spec fn spec_forfeit_record(
    a: PayoutAccounts,
    treasury: TreasuryKeys,
    forfeited_amount_usdc: u64,
    usdc_mint: Pubkey,
    parameters_hash: Hash32,
    canonical_governance_payload_hash: Hash32,
    escrow_status_before: GreenLabelEscrowStatusV1,
    project_status_before: GreenLabelStatus,
    dispute_status_before: DisputeStatus,
    executor: Pubkey,
    executed_at: i64,
    bump: u8,
) -> GreenLabelForfeitExecutionRecordV1 {
    GreenLabelForfeitExecutionRecordV1 {
        execution_queue_item: a.execution_queue_item,
        proposal_decision: a.proposal_decision,
        governance_proposal: a.governance_proposal,
        governance_proposal_action: a.governance_proposal_action,
        module_registry: a.module_registry,
        green_label_config: a.green_label_config,
        green_label_project: a.green_label_project,
        green_label_dispute: a.green_label_dispute,
        refundable_escrow: a.refundable_escrow,
        refundable_vault: a.refundable_vault,
        treasury_config: treasury.treasury_config,
        treasury_usdc_state: treasury.treasury_usdc_state,
        revenue_routing_stats: treasury.revenue_routing_stats,
        relief_usdc_vault: treasury.relief_usdc_vault,
        buyback_usdc_vault: treasury.buyback_usdc_vault,
        builders_usdc_vault: treasury.builders_usdc_vault,
        staking_usdc_vault: treasury.staking_usdc_vault,
        forfeited_amount_usdc,
        usdc_mint,
        revenue_type: RevenueType::GreenLabelForfeitedBond,
        execution_type: GreenLabelEscrowExecutionTypeV1::Forfeit,
        governance_action_type: GovernanceActionTypeV1::GreenLabelSlashBond,
        parameters_hash,
        canonical_governance_payload_hash,
        escrow_status_before,
        escrow_status_after: GreenLabelEscrowStatusV1::Forfeited,
        project_status_before,
        project_status_after: GreenLabelStatus::Slashed,
        dispute_status_before,
        dispute_status_after: DisputeStatus::ResolvedSlash,
        executor,
        executed_at,
        schema_version: crate::constants::GREEN_LABEL_FORFEIT_SCHEMA_VERSION,
        bump,
    }
}

/// The checks of a forfeit record before anything is written.
pub open spec fn spec_forfeit_record_checks(
    record: GreenLabelForfeitExecutionRecordV1,
    escrow: GreenLabelRefundableEscrowV1,
    forfeited_amount_usdc: u64,
    parameters: GreenLabelForfeitParametersV1,
) -> ProgramResult<()> {
    if record.execution_queue_item != Key32::zero() {
        Err(CustomError::GreenLabelForfeitExecutionAlreadyCompleted)
    } else {
        match spec_escrow_payable(escrow, CustomError::GreenLabelForfeitNotEligible, CustomError::GreenLabelForfeitAmountMismatch) {
            Err(e) => Err(e),
            Ok(left) => if forfeited_amount_usdc != left {
                Err(CustomError::GreenLabelForfeitAmountMismatch)
            } else {
                match spec_forfeit_parameters_hash(parameters) {
                    Err(e) => Err(e),
                    Ok(_) => if parameters.forfeited_amount_usdc != forfeited_amount_usdc {
                        Err(CustomError::GreenLabelForfeitAmountMismatch)
                    } else {
                        Ok(())
                    },
                }
            },
        }
    }
}

/// Records a governance forfeit. An execution record already written, an
/// amount other than the escrow's remaining amount, or invalid parameters
/// fail and change nothing. Otherwise the escrow's remaining amount is
/// recorded as forfeited, the project is marked Slashed at `executed_at`
/// with the decision as its terminal one, the dispute is resolved for the
/// slash, and the execution record is written; a zero record address then
/// fails, after those writes.
pub fn record_green_label_forfeit_governance_v1(
    project: &mut GreenLabelProjectV1,
    dispute: &mut GreenLabelDisputeV1,
    escrow: &mut GreenLabelRefundableEscrowV1,
    execution_record: &mut GreenLabelForfeitExecutionRecordV1,
    execution_queue_item: Pubkey,
    proposal_decision: Pubkey,
    governance_proposal: Pubkey,
    governance_proposal_action: Pubkey,
    module_registry: Pubkey,
    green_label_config: Pubkey,
    green_label_project: Pubkey,
    green_label_dispute: Pubkey,
    refundable_escrow: Pubkey,
    refundable_vault: Pubkey,
    treasury_config: Pubkey,
    treasury_usdc_state: Pubkey,
    revenue_routing_stats: Pubkey,
    relief_usdc_vault: Pubkey,
    buyback_usdc_vault: Pubkey,
    builders_usdc_vault: Pubkey,
    staking_usdc_vault: Pubkey,
    forfeited_amount_usdc: u64,
    usdc_mint: Pubkey,
    parameters: GreenLabelForfeitParametersV1,
    canonical_governance_payload_hash: Hash32,
    escrow_status_before: GreenLabelEscrowStatusV1,
    project_status_before: GreenLabelStatus,
    dispute_status_before: DisputeStatus,
    executor: Pubkey,
    executed_at: i64,
    bump: u8,
    execution_record_key: Pubkey,
) -> (r: ProgramResult<()>)
    ensures
        spec_forfeit_record_checks(*old(execution_record), *old(escrow), forfeited_amount_usdc, parameters) is Err ==> {
            &&& r == spec_forfeit_record_checks(*old(execution_record), *old(escrow), forfeited_amount_usdc, parameters)
            &&& *final(project) == *old(project)
            &&& *final(dispute) == *old(dispute)
            &&& *final(escrow) == *old(escrow)
            &&& *final(execution_record) == *old(execution_record)
        },
        spec_forfeit_record_checks(*old(execution_record), *old(escrow), forfeited_amount_usdc, parameters) is Ok ==> {
            &&& r == (if execution_record_key == Key32::zero() {
                Err::<(), CustomError>(CustomError::GreenLabelForfeitExecutionAlreadyCompleted)
            } else {
                Ok::<(), CustomError>(())
            })
            &&& *final(escrow) == (GreenLabelRefundableEscrowV1 {
                forfeited_amount: (old(escrow).forfeited_amount + forfeited_amount_usdc) as u64,
                status: GreenLabelEscrowStatusV1::Forfeited,
                ..*old(escrow)
            })
            &&& *final(project) == spec_closed_project(*old(project), GreenLabelStatus::Slashed, executed_at,
                parameters.proposal_id, proposal_decision, execution_queue_item, canonical_governance_payload_hash,
                ActionType::GreenLabelSlash)
            &&& *final(dispute) == spec_resolved_dispute(*old(dispute), DisputeStatus::ResolvedSlash, executed_at,
                parameters.proposal_id, proposal_decision, execution_queue_item, canonical_governance_payload_hash,
                ActionType::GreenLabelSlash)
            &&& *final(execution_record) == spec_forfeit_record(PayoutAccounts {
                execution_queue_item,
                proposal_decision,
                governance_proposal,
                governance_proposal_action,
                module_registry,
                green_label_config,
                green_label_project,
                green_label_dispute,
                refundable_escrow,
                refundable_vault,
            }, TreasuryKeys {
                treasury_config,
                treasury_usdc_state,
                revenue_routing_stats,
                relief_usdc_vault,
                buyback_usdc_vault,
                builders_usdc_vault,
                staking_usdc_vault,
            }, forfeited_amount_usdc, usdc_mint, spec_forfeit_parameters_hash(parameters)->Ok_0,
                canonical_governance_payload_hash, escrow_status_before, project_status_before, dispute_status_before,
                executor, executed_at, bump)
        },
{
    if !execution_record.execution_queue_item.is_zero() {
        return Err(CustomError::GreenLabelForfeitExecutionAlreadyCompleted);
    }
    let forfeitable = derive_green_label_forfeitable_amount_v1(escrow)?;
    if forfeited_amount_usdc != forfeitable {
        return Err(CustomError::GreenLabelForfeitAmountMismatch);
    }
    let parameters_hash = hash_green_label_forfeit_parameters_v1(&parameters)?;
    if parameters.forfeited_amount_usdc != forfeited_amount_usdc {
        return Err(CustomError::GreenLabelForfeitAmountMismatch);
    }
    record_green_label_escrow_forfeited(escrow, forfeited_amount_usdc)?;
    project.status = GreenLabelStatus::Slashed;
    project.slashed_at = executed_at;
    project.active_dispute = Key32::default();
    project.terminal_proposal_id = parameters.proposal_id;
    project.terminal_proposal_decision = proposal_decision;
    project.terminal_execution_queue_item = execution_queue_item;
    project.terminal_payload_hash = canonical_governance_payload_hash;
    project.terminal_action_type = ActionType::GreenLabelSlash;
    dispute.status = DisputeStatus::ResolvedSlash;
    dispute.resolved_at = executed_at;
    dispute.proposal_id = parameters.proposal_id;
    dispute.proposal_decision = proposal_decision;
    dispute.execution_queue_item = execution_queue_item;
    dispute.payload_hash = canonical_governance_payload_hash;
    dispute.action_type = ActionType::GreenLabelSlash;
    execution_record.execution_queue_item = execution_queue_item;
    execution_record.proposal_decision = proposal_decision;
    execution_record.governance_proposal = governance_proposal;
    execution_record.governance_proposal_action = governance_proposal_action;
    execution_record.module_registry = module_registry;
    execution_record.green_label_config = green_label_config;
    execution_record.green_label_project = green_label_project;
    execution_record.green_label_dispute = green_label_dispute;
    execution_record.refundable_escrow = refundable_escrow;
    execution_record.refundable_vault = refundable_vault;
    execution_record.treasury_config = treasury_config;
    execution_record.treasury_usdc_state = treasury_usdc_state;
    execution_record.revenue_routing_stats = revenue_routing_stats;
    execution_record.relief_usdc_vault = relief_usdc_vault;
    execution_record.buyback_usdc_vault = buyback_usdc_vault;
    execution_record.builders_usdc_vault = builders_usdc_vault;
    execution_record.staking_usdc_vault = staking_usdc_vault;
    execution_record.forfeited_amount_usdc = forfeited_amount_usdc;
    execution_record.usdc_mint = usdc_mint;
    execution_record.revenue_type = RevenueType::GreenLabelForfeitedBond;
    execution_record.execution_type = GreenLabelEscrowExecutionTypeV1::Forfeit;
    execution_record.governance_action_type = GovernanceActionTypeV1::GreenLabelSlashBond;
    execution_record.parameters_hash = parameters_hash;
    execution_record.canonical_governance_payload_hash = canonical_governance_payload_hash;
    execution_record.escrow_status_before = escrow_status_before;
    execution_record.escrow_status_after = GreenLabelEscrowStatusV1::Forfeited;
    execution_record.project_status_before = project_status_before;
    execution_record.project_status_after = GreenLabelStatus::Slashed;
    execution_record.dispute_status_before = dispute_status_before;
    execution_record.dispute_status_after = DisputeStatus::ResolvedSlash;
    execution_record.executor = executor;
    execution_record.executed_at = executed_at;
    execution_record.schema_version = crate::constants::GREEN_LABEL_FORFEIT_SCHEMA_VERSION;
    execution_record.bump = bump;
    if execution_record_key.is_zero() {
        return Err(CustomError::GreenLabelForfeitExecutionAlreadyCompleted);
    }
    Ok(())
}

/// Proof that a governance forfeit happens once: after one is recorded, a
/// second against the same execution record is refused as completed, and any
/// forfeit of the forfeited escrow finds it already forfeited.
pub proof fn law_forfeit_recorded_once(
    a: PayoutAccounts,
    treasury: TreasuryKeys,
    escrow: GreenLabelRefundableEscrowV1,
    forfeited_amount_usdc: u64,
    usdc_mint: Pubkey,
    parameters_hash: Hash32,
    canonical_governance_payload_hash: Hash32,
    escrow_status_before: GreenLabelEscrowStatusV1,
    project_status_before: GreenLabelStatus,
    dispute_status_before: DisputeStatus,
    executor: Pubkey,
    executed_at: i64,
    bump: u8,
    any_record: GreenLabelForfeitExecutionRecordV1,
    later_amount: u64,
    later_parameters: GreenLabelForfeitParametersV1,
)
    requires
        a.execution_queue_item != Key32::zero(),
    ensures
        spec_forfeit_record_checks(spec_forfeit_record(a, treasury, forfeited_amount_usdc, usdc_mint, parameters_hash,
            canonical_governance_payload_hash, escrow_status_before, project_status_before, dispute_status_before,
            executor, executed_at, bump), escrow, later_amount, later_parameters)
            == Err::<(), CustomError>(CustomError::GreenLabelForfeitExecutionAlreadyCompleted),
        any_record.execution_queue_item == Key32::zero() ==> spec_forfeit_record_checks(any_record,
            GreenLabelRefundableEscrowV1 { status: GreenLabelEscrowStatusV1::Forfeited, ..escrow }, later_amount,
            later_parameters) == Err::<(), CustomError>(CustomError::GreenLabelEscrowAlreadyForfeited),
{
}

/// Proof that a governance refund is recorded once: after one is recorded
/// by a nonzero queued item, a second against the same execution record is
/// refused as completed, whatever its parameters.
pub proof fn law_refund_recorded_once(
    a: PayoutAccounts,
    original_payer: Pubkey,
    payer_destination_token_account: Pubkey,
    refund_amount_usdc: u64,
    usdc_mint: Pubkey,
    parameters_hash: Hash32,
    canonical_governance_payload_hash: Hash32,
    escrow_status_before: GreenLabelEscrowStatusV1,
    project_status_before: GreenLabelStatus,
    executor: Pubkey,
    executed_at: i64,
    bump: u8,
)
    requires
        a.execution_queue_item != Key32::zero(),
    ensures
        spec_refund_record(a, original_payer, payer_destination_token_account, refund_amount_usdc, usdc_mint,
            parameters_hash, canonical_governance_payload_hash, escrow_status_before, project_status_before, executor,
            executed_at, bump).execution_queue_item != Key32::zero(),
{
}

} // verus!
