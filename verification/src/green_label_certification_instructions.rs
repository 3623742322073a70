//! The certification instructions as state changes: a governance decision
//! to approve, reject or revoke a project's certification is checked against
//! its whole governance and Security Layer context and the project's state,
//! then recorded.
use vstd::prelude::*;
use crate::error::{CustomError, ProgramResult};
use crate::green_label_certification::{
    build_green_label_certification_decision_parameters_v1, record_green_label_approve_certification_v1,
    record_green_label_certification_decision_v1, spec_approve_business, spec_certification_context,
    spec_decision_parameters, spec_decision_recorded, validate_green_label_approve_certification_business_v1,
    validate_green_label_certification_execution_context_v1, validate_green_label_reject_certification_business_v1,
    validate_green_label_revoke_certification_business_v1, CertificationAccounts,
};
use crate::keys::{Key32, Pubkey};
use crate::state::{
    ActionType, ExecutionQueueItemV1, GovernanceActionTypeV1, GovernanceConfigV1, GovernanceProposalActionV1,
    GovernanceProposalV1, GreenLabelCertificationExecutionRecordV1, GreenLabelCertificationExecutionTypeV1,
    GreenLabelCertificationStateV1, GreenLabelCertificationStatusV1, GreenLabelConfigV1, GreenLabelProjectV1,
    GreenLabelStatus, ProposalDecisionV1, ProposalType, ProtocolModuleRegistryV1, TokenAccount,
    UniversalGovernanceDecisionAdapterV1,
};

verus! {

/// The governance and Security Layer accounts a certification decision is
/// checked against.
#[derive(Clone, Copy, Debug, PartialEq, Eq)]
pub struct CertificationGovernance {
    pub security_governance_config: GovernanceConfigV1,
    pub security_governance_config_key: Pubkey,
    pub protocol_module_registry: ProtocolModuleRegistryV1,
    pub protocol_module_registry_key: Pubkey,
    pub governance_proposal: GovernanceProposalV1,
    pub governance_proposal_key: Pubkey,
    pub governance_proposal_action: GovernanceProposalActionV1,
    pub governance_proposal_action_key: Pubkey,
    pub governance_decision_adapter: UniversalGovernanceDecisionAdapterV1,
    pub governance_decision_adapter_key: Pubkey,
    pub proposal_decision: ProposalDecisionV1,
    pub proposal_decision_key: Pubkey,
    pub execution_queue_item: ExecutionQueueItemV1,
    pub execution_queue_item_key: Pubkey,
}

/// The outcome of checking a certification decision's context for the
/// project and certification as they stand.
pub open spec fn spec_certification_check(
    g: CertificationGovernance,
    config: GreenLabelConfigV1,
    config_key: Pubkey,
    project: GreenLabelProjectV1,
    project_key: Pubkey,
    state: GreenLabelCertificationStateV1,
    state_key: Pubkey,
    action: GovernanceActionTypeV1,
    proposal_type: ProposalType,
    security_action: ActionType,
) -> ProgramResult<()> {
    spec_certification_context(g.security_governance_config, g.security_governance_config_key, config, project,
        project_key, state, state_key, g.protocol_module_registry, g.protocol_module_registry_key,
        g.governance_proposal, g.governance_proposal_key, g.governance_proposal_action,
        g.governance_proposal_action_key, g.governance_decision_adapter, g.governance_decision_adapter_key,
        g.proposal_decision, g.proposal_decision_key, g.execution_queue_item, g.execution_queue_item_key, action,
        proposal_type, security_action, spec_decision_parameters(config, config_key, project, project_key, state_key,
        action, state.certification_status, g.governance_proposal.proposal_id))
}

/// The accounts a certification decision is recorded under.
pub open spec fn spec_certification_accounts(g: CertificationGovernance, project_key: Pubkey, state_key: Pubkey) -> CertificationAccounts {
    CertificationAccounts {
        execution_queue_item: g.execution_queue_item_key,
        proposal_decision: g.proposal_decision_key,
        governance_proposal: g.governance_proposal_key,
        governance_proposal_action: g.governance_proposal_action_key,
        project_key,
        certification_state_key: state_key,
        module_registry: g.protocol_module_registry_key,
    }
}

/// Executes a governance approval of a project's certification: after the
/// decision's context and the approval's business rules are checked, the
/// project holds the Green Label from `now` and the certification is
/// approved and recorded. A refused approval changes nothing.
pub fn execute_green_label_approve_certification_v1_handler(
    g: &CertificationGovernance,
    green_label_config: &GreenLabelConfigV1,
    green_label_config_key: Pubkey,
    green_label_project: &mut GreenLabelProjectV1,
    green_label_project_key: Pubkey,
    certification_state: &mut GreenLabelCertificationStateV1,
    certification_state_key: Pubkey,
    execution_record: &mut GreenLabelCertificationExecutionRecordV1,
    execution_record_key: Pubkey,
    green_bond_vault_key: Pubkey,
    green_bond_vault: &TokenAccount,
    usdc_mint: Pubkey,
    usdc_decimals: u8,
    executor: Pubkey,
    now: i64,
    bump: u8,
) -> (r: ProgramResult<()>)
    ensures
        ({
            let project = *old(green_label_project);
            let state = *old(certification_state);
            let check = spec_certification_check(*g, *green_label_config, green_label_config_key, project,
                green_label_project_key, state, certification_state_key,
                GovernanceActionTypeV1::GreenLabelApproveCertification, ProposalType::GreenLabelApproveCertification,
                ActionType::GreenLabelApproveCertification);
            let business = spec_approve_business(*green_label_config, project, state, green_bond_vault_key,
                *green_bond_vault, usdc_mint, usdc_decimals, now);
            &&& check is Err ==> r == check && *final(green_label_project) == project
                && *final(certification_state) == state && *final(execution_record) == *old(execution_record)
            &&& check is Ok && business is Err ==> r == business && *final(green_label_project) == project
                && *final(certification_state) == state && *final(execution_record) == *old(execution_record)
            &&& check is Ok && business is Ok ==> {
                &&& *final(green_label_project) == (GreenLabelProjectV1 {
                    status: GreenLabelStatus::ActiveGreenLabel,
                    approved_at: now,
                    ..project
                })
                &&& spec_decision_recorded(state, *old(execution_record), *final(certification_state),
                    *final(execution_record), r, spec_certification_accounts(*g, green_label_project_key,
                    certification_state_key), execution_record_key, GreenLabelCertificationExecutionTypeV1::Approve,
                    GreenLabelCertificationStatusV1::Approved, GovernanceActionTypeV1::GreenLabelApproveCertification,
                    spec_decision_parameters(*green_label_config, green_label_config_key, project,
                    green_label_project_key, certification_state_key,
                    GovernanceActionTypeV1::GreenLabelApproveCertification, state.certification_status,
                    g.governance_proposal.proposal_id), g.governance_proposal_action.canonical_payload_hash,
                    project.status, GreenLabelStatus::ActiveGreenLabel, state.certification_status, executor, now, bump)
            }
        }),
        r is Ok ==> {
            &&& old(certification_state).certification_status == GreenLabelCertificationStatusV1::Pending
            &&& old(green_label_project).status == GreenLabelStatus::PendingObservation
            &&& now >= old(green_label_project).observation_end_ts
            &&& old(green_label_project).active_dispute == Key32::zero()
            &&& green_bond_vault.amount >= old(green_label_project).total_bond_amount
            &&& final(green_label_project).status == GreenLabelStatus::ActiveGreenLabel
            &&& final(green_label_project).approved_at == now
            &&& final(certification_state).certification_status == GreenLabelCertificationStatusV1::Approved
        },
{
    let parameters = build_green_label_certification_decision_parameters_v1(green_label_config, green_label_config_key,
        green_label_project, green_label_project_key, certification_state_key,
        GovernanceActionTypeV1::GreenLabelApproveCertification, certification_state.certification_status,
        g.governance_proposal.proposal_id)?;
    validate_green_label_certification_execution_context_v1(&g.security_governance_config,
        g.security_governance_config_key, green_label_config, green_label_project, green_label_project_key,
        certification_state, certification_state_key, &g.protocol_module_registry, g.protocol_module_registry_key,
        &g.governance_proposal, g.governance_proposal_key, &g.governance_proposal_action,
        g.governance_proposal_action_key, &g.governance_decision_adapter, g.governance_decision_adapter_key,
        &g.proposal_decision, g.proposal_decision_key, &g.execution_queue_item, g.execution_queue_item_key,
        GovernanceActionTypeV1::GreenLabelApproveCertification, ProposalType::GreenLabelApproveCertification,
        ActionType::GreenLabelApproveCertification, &parameters)?;
    validate_green_label_approve_certification_business_v1(green_label_config, green_label_project,
        certification_state, green_bond_vault_key, green_bond_vault, usdc_mint, usdc_decimals, now)?;
    let project_status_before = green_label_project.status;
    let certification_status_before = certification_state.certification_status;
    record_green_label_approve_certification_v1(green_label_project, certification_state, execution_record,
        g.execution_queue_item_key, g.proposal_decision_key, g.governance_proposal_key,
        g.governance_proposal_action_key, green_label_project_key, certification_state_key,
        g.protocol_module_registry_key, execution_record_key, parameters,
        g.governance_proposal_action.canonical_payload_hash, project_status_before, certification_status_before,
        executor, now, bump)
}

/// The outcome of the business checks of a rejection.
pub open spec fn spec_reject_business(project_status: GreenLabelStatus, certification_status: GreenLabelCertificationStatusV1) -> ProgramResult<()> {
    if certification_status != GreenLabelCertificationStatusV1::Pending {
        Err(CustomError::GreenLabelCertificationAlreadyFinalized)
    } else if project_status != GreenLabelStatus::PendingBondDeposit && project_status != GreenLabelStatus::PendingObservation {
        Err(CustomError::InvalidGreenLabelStatus)
    } else {
        Ok(())
    }
}

/// The outcome of the business checks of a revocation.
pub open spec fn spec_revoke_business(project_status: GreenLabelStatus, certification_status: GreenLabelCertificationStatusV1) -> ProgramResult<()> {
    if certification_status != GreenLabelCertificationStatusV1::Approved {
        Err(CustomError::GreenLabelCertificationNotApproved)
    } else if project_status != GreenLabelStatus::ActiveGreenLabel {
        Err(CustomError::InvalidGreenLabelStatus)
    } else {
        Ok(())
    }
}

/// Executes a governance rejection (`revoke` false) or revocation (`revoke`
/// true) of a project's certification: after the decision's context and its
/// business rules are checked, the certification is rejected or revoked and
/// recorded; the project's status does not change. A refused decision
/// changes nothing.
fn execute_certification_decision(
    g: &CertificationGovernance,
    green_label_config: &GreenLabelConfigV1,
    green_label_config_key: Pubkey,
    green_label_project: &GreenLabelProjectV1,
    green_label_project_key: Pubkey,
    certification_state: &mut GreenLabelCertificationStateV1,
    certification_state_key: Pubkey,
    execution_record: &mut GreenLabelCertificationExecutionRecordV1,
    execution_record_key: Pubkey,
    revoke: bool,
    executor: Pubkey,
    now: i64,
    bump: u8,
) -> (r: ProgramResult<()>)
    ensures
        ({
            let state = *old(certification_state);
            let action = if revoke {
                GovernanceActionTypeV1::GreenLabelRevokeCertification
            } else {
                GovernanceActionTypeV1::GreenLabelRejectCertification
            };
            let check = spec_certification_check(*g, *green_label_config, green_label_config_key, *green_label_project,
                green_label_project_key, state, certification_state_key, action,
                if revoke { ProposalType::GreenLabelRevokeCertification } else { ProposalType::GreenLabelRejectCertification },
                if revoke { ActionType::GreenLabelRevokeCertification } else { ActionType::GreenLabelRejectCertification });
            let business = if revoke {
                spec_revoke_business(green_label_project.status, state.certification_status)
            } else {
                spec_reject_business(green_label_project.status, state.certification_status)
            };
            &&& check is Err ==> r == check && *final(certification_state) == state
                && *final(execution_record) == *old(execution_record)
            &&& check is Ok && business is Err ==> r == business && *final(certification_state) == state
                && *final(execution_record) == *old(execution_record)
            &&& check is Ok && business is Ok ==> spec_decision_recorded(state, *old(execution_record),
                *final(certification_state), *final(execution_record), r, spec_certification_accounts(*g,
                green_label_project_key, certification_state_key), execution_record_key,
                if revoke { GreenLabelCertificationExecutionTypeV1::Revoke } else { GreenLabelCertificationExecutionTypeV1::Reject },
                if revoke { GreenLabelCertificationStatusV1::Revoked } else { GreenLabelCertificationStatusV1::Rejected },
                action, spec_decision_parameters(*green_label_config, green_label_config_key, *green_label_project,
                green_label_project_key, certification_state_key, action, state.certification_status,
                g.governance_proposal.proposal_id), g.governance_proposal_action.canonical_payload_hash,
                green_label_project.status, green_label_project.status, state.certification_status, executor, now, bump)
        }),
{
    let action = if revoke {
        GovernanceActionTypeV1::GreenLabelRevokeCertification
    } else {
        GovernanceActionTypeV1::GreenLabelRejectCertification
    };
    let parameters = build_green_label_certification_decision_parameters_v1(green_label_config, green_label_config_key,
        green_label_project, green_label_project_key, certification_state_key, action,
        certification_state.certification_status, g.governance_proposal.proposal_id)?;
    validate_green_label_certification_execution_context_v1(&g.security_governance_config,
        g.security_governance_config_key, green_label_config, green_label_project, green_label_project_key,
        certification_state, certification_state_key, &g.protocol_module_registry, g.protocol_module_registry_key,
        &g.governance_proposal, g.governance_proposal_key, &g.governance_proposal_action,
        g.governance_proposal_action_key, &g.governance_decision_adapter, g.governance_decision_adapter_key,
        &g.proposal_decision, g.proposal_decision_key, &g.execution_queue_item, g.execution_queue_item_key, action,
        if revoke { ProposalType::GreenLabelRevokeCertification } else { ProposalType::GreenLabelRejectCertification },
        if revoke { ActionType::GreenLabelRevokeCertification } else { ActionType::GreenLabelRejectCertification },
        &parameters)?;
    if revoke {
        validate_green_label_revoke_certification_business_v1(green_label_project.status,
            certification_state.certification_status)?;
    } else {
        validate_green_label_reject_certification_business_v1(green_label_project.status,
            certification_state.certification_status)?;
    }
    let project_status_before = green_label_project.status;
    let certification_status_before = certification_state.certification_status;
    record_green_label_certification_decision_v1(certification_state, execution_record, g.execution_queue_item_key,
        g.proposal_decision_key, g.governance_proposal_key, g.governance_proposal_action_key, green_label_project_key,
        certification_state_key, g.protocol_module_registry_key, execution_record_key,
        if revoke { GreenLabelCertificationExecutionTypeV1::Revoke } else { GreenLabelCertificationExecutionTypeV1::Reject },
        if revoke { GreenLabelCertificationStatusV1::Revoked } else { GreenLabelCertificationStatusV1::Rejected }, action,
        parameters, g.governance_proposal_action.canonical_payload_hash, project_status_before, project_status_before,
        certification_status_before, executor, now, bump)
}

/// Executes a governance rejection of a pending certification; see
/// `execute_certification_decision`.
pub fn execute_green_label_reject_certification_v1_handler(
    g: &CertificationGovernance,
    green_label_config: &GreenLabelConfigV1,
    green_label_config_key: Pubkey,
    green_label_project: &GreenLabelProjectV1,
    green_label_project_key: Pubkey,
    certification_state: &mut GreenLabelCertificationStateV1,
    certification_state_key: Pubkey,
    execution_record: &mut GreenLabelCertificationExecutionRecordV1,
    execution_record_key: Pubkey,
    executor: Pubkey,
    now: i64,
    bump: u8,
) -> (r: ProgramResult<()>)
    ensures
        ({
            let state = *old(certification_state);
            let action = GovernanceActionTypeV1::GreenLabelRejectCertification;
            let check = spec_certification_check(*g, *green_label_config, green_label_config_key, *green_label_project,
                green_label_project_key, state, certification_state_key, action,
                ProposalType::GreenLabelRejectCertification, ActionType::GreenLabelRejectCertification);
            let business = spec_reject_business(green_label_project.status, state.certification_status);
            &&& check is Err ==> r == check && *final(certification_state) == state
                && *final(execution_record) == *old(execution_record)
            &&& check is Ok && business is Err ==> r == business && *final(certification_state) == state
                && *final(execution_record) == *old(execution_record)
            &&& check is Ok && business is Ok ==> spec_decision_recorded(state, *old(execution_record),
                *final(certification_state), *final(execution_record), r, spec_certification_accounts(*g,
                green_label_project_key, certification_state_key), execution_record_key,
                GreenLabelCertificationExecutionTypeV1::Reject, GreenLabelCertificationStatusV1::Rejected, action,
                spec_decision_parameters(*green_label_config, green_label_config_key, *green_label_project,
                green_label_project_key, certification_state_key, action, state.certification_status,
                g.governance_proposal.proposal_id), g.governance_proposal_action.canonical_payload_hash,
                green_label_project.status, green_label_project.status, state.certification_status, executor, now, bump)
        }),
{
    execute_certification_decision(g, green_label_config, green_label_config_key, green_label_project,
        green_label_project_key, certification_state, certification_state_key, execution_record, execution_record_key,
        false, executor, now, bump)
}

/// Executes a governance revocation of an approved certification; see
/// `execute_certification_decision`.
pub fn execute_green_label_revoke_certification_v1_handler(
    g: &CertificationGovernance,
    green_label_config: &GreenLabelConfigV1,
    green_label_config_key: Pubkey,
    green_label_project: &GreenLabelProjectV1,
    green_label_project_key: Pubkey,
    certification_state: &mut GreenLabelCertificationStateV1,
    certification_state_key: Pubkey,
    execution_record: &mut GreenLabelCertificationExecutionRecordV1,
    execution_record_key: Pubkey,
    executor: Pubkey,
    now: i64,
    bump: u8,
) -> (r: ProgramResult<()>)
    ensures
        ({
            let state = *old(certification_state);
            let action = GovernanceActionTypeV1::GreenLabelRevokeCertification;
            let check = spec_certification_check(*g, *green_label_config, green_label_config_key, *green_label_project,
                green_label_project_key, state, certification_state_key, action,
                ProposalType::GreenLabelRevokeCertification, ActionType::GreenLabelRevokeCertification);
            let business = spec_revoke_business(green_label_project.status, state.certification_status);
            &&& check is Err ==> r == check && *final(certification_state) == state
                && *final(execution_record) == *old(execution_record)
            &&& check is Ok && business is Err ==> r == business && *final(certification_state) == state
                && *final(execution_record) == *old(execution_record)
            &&& check is Ok && business is Ok ==> spec_decision_recorded(state, *old(execution_record),
                *final(certification_state), *final(execution_record), r, spec_certification_accounts(*g,
                green_label_project_key, certification_state_key), execution_record_key,
                GreenLabelCertificationExecutionTypeV1::Revoke, GreenLabelCertificationStatusV1::Revoked, action,
                spec_decision_parameters(*green_label_config, green_label_config_key, *green_label_project,
                green_label_project_key, certification_state_key, action, state.certification_status,
                g.governance_proposal.proposal_id), g.governance_proposal_action.canonical_payload_hash,
                green_label_project.status, green_label_project.status, state.certification_status, executor, now, bump)
        }),
{
    execute_certification_decision(g, green_label_config, green_label_config_key, green_label_project,
        green_label_project_key, certification_state, certification_state_key, execution_record, execution_record_key,
        true, executor, now, bump)
}

} // verus!
