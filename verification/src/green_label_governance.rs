//! The governance chain behind a Green Label action executed by governance:
//! a passed proposal whose action targets this program and account, the
//! registered Green Label module, and the Security Layer decision and queued
//! item that carried it out.
use vstd::prelude::*;
use crate::error::{CustomError, ProgramResult};
use crate::governance::{
    map_governance_action_to_security_action, spec_security_action, spec_validate_proposal_action,
    validate_governance_proposal_action_v1,
};
use crate::keys::{Key32, Pubkey};
use crate::module_registry::{spec_validate_registry, validate_protocol_module_registry_v1};
use crate::pda::{program_id, spec_program_id};
use crate::state::{
    ActionType, ExecutionQueueItemV1, ExecutionStatus, GovernanceActionTypeV1, GovernanceConfigV1,
    GovernanceProposalActionV1, GovernanceProposalStatusV1, GovernanceProposalV1, GreenLabelConfigV1, ProposalDecision,
    ProposalDecisionV1, ProposalType, ProtocolModuleIdV1, ProtocolModuleRegistryV1, UniversalGovernanceDecisionAdapterV1,
};

verus! {

/// The errors a kind of Green Label action reports for a wrong action, a
/// wrong target, and wrong parameters.
#[derive(Clone, Copy, Debug, PartialEq, Eq, Structural)]
pub struct ActionErrors {
    pub action: CustomError,
    pub target: CustomError,
    pub parameters: CustomError,
}

/// The governance half of an action's context: both configurations live and
/// bound, the Green Label module registered for this program, and a passed
/// proposal whose Green Label action is `expected_action` on `target_account`
/// in this program, executing as `expected_security_action`.
pub open spec fn spec_action_governance(
    security_governance_config: GovernanceConfigV1,
    security_governance_config_key: Pubkey,
    green_label_config: GreenLabelConfigV1,
    protocol_module_registry: ProtocolModuleRegistryV1,
    protocol_module_registry_key: Pubkey,
    governance_proposal: GovernanceProposalV1,
    governance_proposal_key: Pubkey,
    action: GovernanceProposalActionV1,
    action_key: Pubkey,
    target_account: Pubkey,
    expected_action: GovernanceActionTypeV1,
    expected_security_action: ActionType,
    errors: ActionErrors,
) -> ProgramResult<()> {
    if green_label_config.is_paused {
        Err(CustomError::InvalidGreenLabelStatus)
    } else if security_governance_config.is_paused {
        Err(CustomError::SecurityLayerPaused)
    } else if green_label_config.security_governance_config != security_governance_config_key {
        Err(CustomError::ProtocolModuleGovernanceConfigMismatch)
    } else if spec_validate_registry(protocol_module_registry, protocol_module_registry_key, security_governance_config_key,
        ProtocolModuleIdV1::GreenLabel, spec_program_id()) is Err {
        spec_validate_registry(protocol_module_registry, protocol_module_registry_key, security_governance_config_key,
            ProtocolModuleIdV1::GreenLabel, spec_program_id())
    } else if governance_proposal.status != GovernanceProposalStatusV1::Passed {
        Err(CustomError::InvalidGovernanceProposal)
    } else if spec_validate_proposal_action(governance_proposal, action, governance_proposal_key) is Err {
        spec_validate_proposal_action(governance_proposal, action, governance_proposal_key)
    } else if action_key == Key32::zero() {
        Err(CustomError::GovernanceProposalActionMissing)
    } else if action.action_type != expected_action || action.module_id != ProtocolModuleIdV1::GreenLabel {
        Err(errors.action)
    } else if action.target_program != spec_program_id() || action.target_account != target_account {
        Err(errors.target)
    } else if spec_security_action(action.action_type) != expected_security_action {
        Err(errors.action)
    } else {
        Ok(())
    }
}

/// Checks the governance half of an action's context.
pub fn validate_action_governance(
    security_governance_config: &GovernanceConfigV1,
    security_governance_config_key: Pubkey,
    green_label_config: &GreenLabelConfigV1,
    protocol_module_registry: &ProtocolModuleRegistryV1,
    protocol_module_registry_key: Pubkey,
    governance_proposal: &GovernanceProposalV1,
    governance_proposal_key: Pubkey,
    action: &GovernanceProposalActionV1,
    action_key: Pubkey,
    target_account: Pubkey,
    expected_action: GovernanceActionTypeV1,
    expected_security_action: ActionType,
    errors: ActionErrors,
) -> (r: ProgramResult<()>)
    ensures
        r == spec_action_governance(*security_governance_config, security_governance_config_key, *green_label_config,
            *protocol_module_registry, protocol_module_registry_key, *governance_proposal, governance_proposal_key,
            *action, action_key, target_account, expected_action, expected_security_action, errors),
{
    if green_label_config.is_paused {
        return Err(CustomError::InvalidGreenLabelStatus);
    }
    if security_governance_config.is_paused {
        return Err(CustomError::SecurityLayerPaused);
    }
    if green_label_config.security_governance_config != security_governance_config_key {
        return Err(CustomError::ProtocolModuleGovernanceConfigMismatch);
    }
    let id = program_id();
    validate_protocol_module_registry_v1(protocol_module_registry, protocol_module_registry_key,
        security_governance_config_key, ProtocolModuleIdV1::GreenLabel, id)?;
    if governance_proposal.status != GovernanceProposalStatusV1::Passed {
        return Err(CustomError::InvalidGovernanceProposal);
    }
    validate_governance_proposal_action_v1(governance_proposal, action, governance_proposal_key)?;
    if action_key.is_zero() {
        return Err(CustomError::GovernanceProposalActionMissing);
    }
    if action.action_type != expected_action {
        return Err(errors.action);
    }
    if action.module_id != ProtocolModuleIdV1::GreenLabel {
        return Err(errors.action);
    }
    if action.target_program != id {
        return Err(errors.target);
    }
    if action.target_account != target_account {
        return Err(errors.target);
    }
    let security_action = map_governance_action_to_security_action(action.action_type)?;
    if security_action != expected_security_action {
        return Err(errors.action);
    }
    Ok(())
}

/// The Security Layer half of an action's context: the adapter links the
/// proposal to the decision for this action, program, target and payload;
/// the decision approved this proposal under the expected type; the queued
/// item for it was executed (no later than `executed_by`, when given) for
/// this action, program, target and payload.
pub open spec fn spec_action_security(
    target_account: Pubkey,
    governance_proposal: GovernanceProposalV1,
    governance_proposal_key: Pubkey,
    action: GovernanceProposalActionV1,
    adapter: UniversalGovernanceDecisionAdapterV1,
    adapter_key: Pubkey,
    decision: ProposalDecisionV1,
    decision_key: Pubkey,
    queue: ExecutionQueueItemV1,
    queue_key: Pubkey,
    expected_proposal_type: ProposalType,
    expected_security_action: ActionType,
    executed_by: Option<i64>,
    errors: ActionErrors,
) -> ProgramResult<()> {
    if adapter.governance_proposal != governance_proposal_key || adapter.proposal_decision != decision_key {
        Err(CustomError::InvalidGovernanceDecisionAdapter)
    } else if adapter.action_type != expected_security_action {
        Err(errors.action)
    } else if adapter.target_program != action.target_program || adapter.target_account != target_account {
        Err(errors.target)
    } else if adapter.payload_hash != action.canonical_payload_hash {
        Err(errors.parameters)
    } else if adapter_key == Key32::zero() {
        Err(CustomError::InvalidGovernanceDecisionAdapter)
    } else if decision.proposal_id != governance_proposal.proposal_id {
        Err(CustomError::InvalidProposalId)
    } else if decision.proposal_type != expected_proposal_type {
        Err(CustomError::InvalidActionForProposalType)
    } else if decision.decision != ProposalDecision::Approved {
        Err(CustomError::ProposalNotApproved)
    } else if queue.proposal_id != governance_proposal.proposal_id {
        Err(CustomError::InvalidProposalId)
    } else if queue.status != ExecutionStatus::Executed || queue.executed_at <= 0
        || (executed_by matches Some(now) && queue.executed_at > now) {
        Err(CustomError::InvalidExecutionStatus)
    } else if queue.decision != ProposalDecision::Approved {
        Err(CustomError::ProposalNotApproved)
    } else if queue.action_type != expected_security_action {
        Err(errors.action)
    } else if queue.target_program != spec_program_id() || queue.target_account != target_account {
        Err(errors.target)
    } else if queue.payload_hash != action.canonical_payload_hash {
        Err(errors.parameters)
    } else if queue_key == Key32::zero() {
        Err(CustomError::InvalidGreenLabelExecutionQueue)
    } else {
        Ok(())
    }
}

/// Checks the Security Layer half of an action's context.
pub fn validate_action_security(
    target_account: Pubkey,
    governance_proposal: &GovernanceProposalV1,
    governance_proposal_key: Pubkey,
    action: &GovernanceProposalActionV1,
    adapter: &UniversalGovernanceDecisionAdapterV1,
    adapter_key: Pubkey,
    decision: &ProposalDecisionV1,
    decision_key: Pubkey,
    queue: &ExecutionQueueItemV1,
    queue_key: Pubkey,
    expected_proposal_type: ProposalType,
    expected_security_action: ActionType,
    executed_by: Option<i64>,
    errors: ActionErrors,
) -> (r: ProgramResult<()>)
    ensures
        r == spec_action_security(target_account, *governance_proposal, governance_proposal_key, *action, *adapter,
            adapter_key, *decision, decision_key, *queue, queue_key, expected_proposal_type, expected_security_action,
            executed_by, errors),
{
    if adapter.governance_proposal != governance_proposal_key {
        return Err(CustomError::InvalidGovernanceDecisionAdapter);
    }
    if adapter.proposal_decision != decision_key {
        return Err(CustomError::InvalidGovernanceDecisionAdapter);
    }
    if adapter.action_type != expected_security_action {
        return Err(errors.action);
    }
    if adapter.target_program != action.target_program {
        return Err(errors.target);
    }
    if adapter.target_account != target_account {
        return Err(errors.target);
    }
    if adapter.payload_hash != action.canonical_payload_hash {
        return Err(errors.parameters);
    }
    if adapter_key.is_zero() {
        return Err(CustomError::InvalidGovernanceDecisionAdapter);
    }
    if decision.proposal_id != governance_proposal.proposal_id {
        return Err(CustomError::InvalidProposalId);
    }
    if decision.proposal_type != expected_proposal_type {
        return Err(CustomError::InvalidActionForProposalType);
    }
    if decision.decision != ProposalDecision::Approved {
        return Err(CustomError::ProposalNotApproved);
    }
    if queue.proposal_id != governance_proposal.proposal_id {
        return Err(CustomError::InvalidProposalId);
    }
    if queue.status != ExecutionStatus::Executed {
        return Err(CustomError::InvalidExecutionStatus);
    }
    let executed_in_time = match executed_by {
        Some(now) => queue.executed_at > 0 && queue.executed_at <= now,
        None => queue.executed_at > 0,
    };
    if !executed_in_time {
        return Err(CustomError::InvalidExecutionStatus);
    }
    if queue.decision != ProposalDecision::Approved {
        return Err(CustomError::ProposalNotApproved);
    }
    if queue.action_type != expected_security_action {
        return Err(errors.action);
    }
    let id = program_id();
    if queue.target_program != id {
        return Err(errors.target);
    }
    if queue.target_account != target_account {
        return Err(errors.target);
    }
    if queue.payload_hash != action.canonical_payload_hash {
        return Err(errors.parameters);
    }
    if queue_key.is_zero() {
        return Err(CustomError::InvalidGreenLabelExecutionQueue);
    }
    Ok(())
}

} // verus!
