//! Shared governance plumbing: mapping governance actions to Security Layer
//! actions, modules and proposal types, binding a proposal action to its
//! proposal, and the canonical governance payload hash.
use vstd::prelude::*;
use crate::codec::{key_bytes, le_i64, le_u16, push_i64, push_key, push_u16, push_u8};
use crate::error::{CustomError, ProgramResult};
use crate::hashing::{hash_encoded, spec_hash_encoded};
use crate::keys::{Hash32, Pubkey};
use crate::state::{
    ActionType, GovernanceActionTypeV1, GovernanceProposalActionV1, GovernanceProposalV1,
    ProposalType, ProtocolModuleIdV1,
};
use crate::tags::{
    governance_action_type_v1_tag, protocol_module_id_v1_tag, spec_governance_action_type_v1_tag,
    spec_protocol_module_id_v1_tag,
};

verus! {

/// The Security Layer action a governance action executes as.
pub open spec fn spec_security_action(action: GovernanceActionTypeV1) -> ActionType {
    match action {
        GovernanceActionTypeV1::GreenLabelApproveCertification => ActionType::GreenLabelApproveCertification,
        GovernanceActionTypeV1::GreenLabelRejectCertification => ActionType::GreenLabelRejectCertification,
        GovernanceActionTypeV1::GreenLabelRevokeCertification => ActionType::GreenLabelRevokeCertification,
        GovernanceActionTypeV1::GreenLabelRefundBond => ActionType::GreenLabelRefund,
        GovernanceActionTypeV1::GreenLabelSlashBond => ActionType::GreenLabelSlash,
        GovernanceActionTypeV1::ProtocolActivateDaoControl => ActionType::ProtocolActivateDaoControl,
        GovernanceActionTypeV1::ProtocolUnpauseSecurity => ActionType::ProtocolUnpauseSecurity,
    }
}

/// The module a governance action belongs to.
pub open spec fn spec_action_module(action: GovernanceActionTypeV1) -> ProtocolModuleIdV1 {
    match action {
        GovernanceActionTypeV1::ProtocolActivateDaoControl => ProtocolModuleIdV1::Protocol,
        GovernanceActionTypeV1::ProtocolUnpauseSecurity => ProtocolModuleIdV1::Protocol,
        _ => ProtocolModuleIdV1::GreenLabel,
    }
}

/// The Security Layer proposal type that authorizes a Security Layer action.
pub open spec fn spec_proposal_type_for_action(action: ActionType) -> Option<ProposalType> {
    match action {
        ActionType::GreenLabelSlash => Some(ProposalType::GreenLabelSlash),
        ActionType::GreenLabelRefund => Some(ProposalType::GreenLabelRefund),
        ActionType::PayrollEmployeeImpeach => Some(ProposalType::PayrollEmployeeImpeach),
        ActionType::PayrollPayout => Some(ProposalType::PayrollPayout),
        ActionType::TreasuryParamChange => Some(ProposalType::TreasuryParamChange),
        ActionType::EmergencyPause => Some(ProposalType::EmergencyPause),
        ActionType::GreenLabelApproveCertification => Some(ProposalType::GreenLabelApproveCertification),
        ActionType::GreenLabelRejectCertification => Some(ProposalType::GreenLabelRejectCertification),
        ActionType::GreenLabelRevokeCertification => Some(ProposalType::GreenLabelRevokeCertification),
        ActionType::ProtocolActivateDaoControl => Some(ProposalType::ProtocolActivateDaoControl),
        ActionType::ProtocolUnpauseSecurity => Some(ProposalType::ProtocolUnpauseSecurity),
        ActionType::Noop => None,
    }
}

/// The Security Layer action a governance action executes as.
pub fn map_governance_action_to_security_action(action: GovernanceActionTypeV1) -> (r: ProgramResult<ActionType>)
    ensures
        r == Ok::<ActionType, CustomError>(spec_security_action(action)),
{
    Ok(match action {
        GovernanceActionTypeV1::GreenLabelApproveCertification => ActionType::GreenLabelApproveCertification,
        GovernanceActionTypeV1::GreenLabelRejectCertification => ActionType::GreenLabelRejectCertification,
        GovernanceActionTypeV1::GreenLabelRevokeCertification => ActionType::GreenLabelRevokeCertification,
        GovernanceActionTypeV1::GreenLabelRefundBond => ActionType::GreenLabelRefund,
        GovernanceActionTypeV1::GreenLabelSlashBond => ActionType::GreenLabelSlash,
        GovernanceActionTypeV1::ProtocolActivateDaoControl => ActionType::ProtocolActivateDaoControl,
        GovernanceActionTypeV1::ProtocolUnpauseSecurity => ActionType::ProtocolUnpauseSecurity,
    })
}

/// The module a governance action belongs to.
pub fn map_governance_action_to_module(action: GovernanceActionTypeV1) -> (m: ProtocolModuleIdV1)
    ensures
        m == spec_action_module(action),
{
    match action {
        GovernanceActionTypeV1::ProtocolActivateDaoControl => ProtocolModuleIdV1::Protocol,
        GovernanceActionTypeV1::ProtocolUnpauseSecurity => ProtocolModuleIdV1::Protocol,
        _ => ProtocolModuleIdV1::GreenLabel,
    }
}

/// The proposal type that authorizes `action`; `InvalidActionForProposalType` for `Noop`.
pub fn security_proposal_type_for_action(action: ActionType) -> (r: ProgramResult<ProposalType>)
    ensures
        match spec_proposal_type_for_action(action) {
            Some(t) => r == Ok::<ProposalType, CustomError>(t),
            None => r == Err::<ProposalType, CustomError>(CustomError::InvalidActionForProposalType),
        },
{
    match action {
        ActionType::GreenLabelSlash => Ok(ProposalType::GreenLabelSlash),
        ActionType::GreenLabelRefund => Ok(ProposalType::GreenLabelRefund),
        ActionType::PayrollEmployeeImpeach => Ok(ProposalType::PayrollEmployeeImpeach),
        ActionType::PayrollPayout => Ok(ProposalType::PayrollPayout),
        ActionType::TreasuryParamChange => Ok(ProposalType::TreasuryParamChange),
        ActionType::EmergencyPause => Ok(ProposalType::EmergencyPause),
        ActionType::GreenLabelApproveCertification => Ok(ProposalType::GreenLabelApproveCertification),
        ActionType::GreenLabelRejectCertification => Ok(ProposalType::GreenLabelRejectCertification),
        ActionType::GreenLabelRevokeCertification => Ok(ProposalType::GreenLabelRevokeCertification),
        ActionType::ProtocolActivateDaoControl => Ok(ProposalType::ProtocolActivateDaoControl),
        ActionType::ProtocolUnpauseSecurity => Ok(ProposalType::ProtocolUnpauseSecurity),
        ActionType::Noop => Err(CustomError::InvalidActionForProposalType),
    }
}

/// The outcome of binding a proposal action to its proposal.
pub open spec fn spec_validate_proposal_action(
    proposal: GovernanceProposalV1,
    action: GovernanceProposalActionV1,
    proposal_key: Pubkey,
) -> ProgramResult<()> {
    if action.governance_proposal != proposal_key || action.proposal_id != proposal.proposal_id {
        Err(CustomError::GovernanceProposalActionMismatch)
    } else {
        Ok(())
    }
}

/// A proposal action must name its proposal's address and id.
pub fn validate_governance_proposal_action_v1(
    proposal: &GovernanceProposalV1,
    action: &GovernanceProposalActionV1,
    proposal_key: Pubkey,
) -> (r: ProgramResult<()>)
    ensures
        r == spec_validate_proposal_action(*proposal, *action, proposal_key),
{
    if action.governance_proposal != proposal_key || action.proposal_id != proposal.proposal_id {
        Err(CustomError::GovernanceProposalActionMismatch)
    } else {
        Ok(())
    }
}

/// The canonical governance payload of a proposal action.
#[derive(Clone, Copy, Debug, PartialEq, Eq)]
pub struct GovernancePayloadV1 {
    pub schema_version: u16,
    pub action_type: GovernanceActionTypeV1,
    pub module_id: ProtocolModuleIdV1,
    pub target_program: Pubkey,
    pub target_account: Pubkey,
    pub parameters_hash: Hash32,
    pub evidence_hash: Hash32,
    pub created_at: i64,
}

/// Borsh encoding of a governance payload.
pub open spec fn spec_governance_payload_bytes(p: GovernancePayloadV1) -> Seq<u8> {
    le_u16(p.schema_version)
        + seq![spec_governance_action_type_v1_tag(p.action_type)]
        + seq![spec_protocol_module_id_v1_tag(p.module_id)]
        + key_bytes(p.target_program)
        + key_bytes(p.target_account)
        + key_bytes(p.parameters_hash)
        + key_bytes(p.evidence_hash)
        + le_i64(p.created_at)
}

/// The hash of a governance payload: SHA-256 of its Borsh encoding.
pub fn hash_governance_payload_v1(payload: &GovernancePayloadV1) -> (r: ProgramResult<Hash32>)
    ensures
        r == Ok::<Hash32, CustomError>(spec_hash_encoded(spec_governance_payload_bytes(*payload))),
{
    let mut bytes: Vec<u8> = Vec::new();
    push_u16(&mut bytes, payload.schema_version);
    push_u8(&mut bytes, governance_action_type_v1_tag(payload.action_type));
    push_u8(&mut bytes, protocol_module_id_v1_tag(payload.module_id));
    push_key(&mut bytes, payload.target_program);
    push_key(&mut bytes, payload.target_account);
    push_key(&mut bytes, payload.parameters_hash);
    push_key(&mut bytes, payload.evidence_hash);
    push_i64(&mut bytes, payload.created_at);
    assert(bytes@ =~= spec_governance_payload_bytes(*payload));
    Ok(hash_encoded(&bytes))
}

/// The canonical payload of a proposal action (schema version 1).
pub open spec fn spec_canonical_payload(action: GovernanceProposalActionV1) -> GovernancePayloadV1 {
    GovernancePayloadV1 {
        schema_version: 1,
        action_type: action.action_type,
        module_id: action.module_id,
        target_program: action.target_program,
        target_account: action.target_account,
        parameters_hash: action.parameters_hash,
        evidence_hash: action.evidence_hash,
        created_at: action.created_at,
    }
}

/// The canonical payload hash of a proposal action.
pub open spec fn spec_canonical_payload_hash(action: GovernanceProposalActionV1) -> Hash32 {
    spec_hash_encoded(spec_governance_payload_bytes(spec_canonical_payload(action)))
}

/// The canonical payload hash of a proposal action.
pub fn canonical_governance_payload_hash_for_action_v1(action: &GovernanceProposalActionV1) -> (r: ProgramResult<Hash32>)
    ensures
        r == Ok::<Hash32, CustomError>(spec_canonical_payload_hash(*action)),
{
    hash_governance_payload_v1(&GovernancePayloadV1 {
        schema_version: 1,
        action_type: action.action_type,
        module_id: action.module_id,
        target_program: action.target_program,
        target_account: action.target_account,
        parameters_hash: action.parameters_hash,
        evidence_hash: action.evidence_hash,
        created_at: action.created_at,
    })
}

} // verus!
