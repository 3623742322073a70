//! Green Label certification by governance: the hashed decision parameters,
//! the checks that an approve, reject or revoke was decided and executed by
//! the Security Layer for this project, the business rules of each decision,
//! and the state and execution record it leaves.
use vstd::prelude::*;
use crate::codec::{byte_part, i64_part, key_part, lemma_byte_part, lemma_concat_split, lemma_i64_part, lemma_key_part, lemma_u16_part, lemma_u64_part, u16_part, u64_part};
use crate::tags::{lemma_bond_tier_tag_injective, lemma_governance_action_type_v1_tag_injective, lemma_green_label_certification_status_v1_tag_injective, lemma_green_label_status_tag_injective};
use crate::codec::{key_bytes, le_i64, le_u16, le_u64, push_i64, push_key, push_u16, push_u64, push_u8};
use crate::constants::{GREEN_LABEL_CERTIFICATION_SCHEMA_VERSION, GREEN_LABEL_USDC_DECIMALS};
use crate::domains::{push_domain, spec_domain, Domain};
use crate::error::{CustomError, ProgramResult};
use crate::green_label_bond::{spec_status_transition, validate_green_label_status_transition};
use crate::hashing::{hash_contributor_payload, spec_payload_hash};
use crate::keys::{Hash32, Key32, Pubkey};
use crate::green_label_governance::{
    spec_action_governance, spec_action_security, validate_action_governance, validate_action_security, ActionErrors,
};
use crate::state::{
    ActionType, BondTier, ExecutionQueueItemV1, ExecutionStatus, GovernanceActionTypeV1, GovernanceConfigV1,
    GovernanceProposalActionV1, GovernanceProposalStatusV1, GovernanceProposalV1,
    GreenLabelCertificationExecutionRecordV1, GreenLabelCertificationExecutionTypeV1, GreenLabelCertificationStateV1,
    GreenLabelCertificationStatusV1, GreenLabelConfigV1, GreenLabelProjectV1, GreenLabelStatus, ProposalDecision,
    ProposalDecisionV1, ProposalType, ProtocolModuleIdV1, ProtocolModuleRegistryV1, TokenAccount,
    UniversalGovernanceDecisionAdapterV1,
};
use crate::tags::{
    bond_tier_tag, governance_action_type_v1_tag, green_label_certification_status_v1_tag, green_label_status_tag,
    spec_bond_tier_tag, spec_governance_action_type_v1_tag, spec_green_label_certification_status_v1_tag,
    spec_green_label_status_tag,
};

verus! {

/// What a certification decision commits to.
#[derive(Clone, Copy, Debug, PartialEq, Eq, Structural)]
pub struct GreenLabelCertificationDecisionParametersV1 {
    pub schema_version: u16,
    pub green_label_config: Pubkey,
    pub green_label_project: Pubkey,
    pub certification_state: Pubkey,
    pub action_type: GovernanceActionTypeV1,
    pub project_authority: Pubkey,
    pub bond_tier: BondTier,
    pub bond_vault: Pubkey,
    pub usdc_mint: Pubkey,
    pub observation_end_ts: i64,
    pub expected_project_status: GreenLabelStatus,
    pub expected_certification_status: GreenLabelCertificationStatusV1,
    pub proposal_id: u64,
}

/// The stable code of a certification execution type.
pub open spec fn spec_certification_execution_code(t: GreenLabelCertificationExecutionTypeV1) -> u8 {
    match t {
        GreenLabelCertificationExecutionTypeV1::Approve => 1,
        GreenLabelCertificationExecutionTypeV1::Reject => 2,
        GreenLabelCertificationExecutionTypeV1::Revoke => 3,
    }
}

pub fn green_label_certification_execution_type_stable_code_v1(execution_type: GreenLabelCertificationExecutionTypeV1) -> (code: u8)
    ensures
        code == spec_certification_execution_code(execution_type),
{
    match execution_type {
        GreenLabelCertificationExecutionTypeV1::Approve => 1,
        GreenLabelCertificationExecutionTypeV1::Reject => 2,
        GreenLabelCertificationExecutionTypeV1::Revoke => 3,
    }
}

/// The execution type with stable code `code`; any other code fails.
pub fn green_label_certification_execution_type_from_stable_code_v1(code: u8) -> (r: ProgramResult<GreenLabelCertificationExecutionTypeV1>)
    ensures
        1 <= code <= 3 ==> (r matches Ok(t) && spec_certification_execution_code(t) == code),
        !(1 <= code <= 3) ==> r == Err::<GreenLabelCertificationExecutionTypeV1, CustomError>(
            CustomError::InvalidGreenLabelCertificationSchema),
{
    match code {
        1 => Ok(GreenLabelCertificationExecutionTypeV1::Approve),
        2 => Ok(GreenLabelCertificationExecutionTypeV1::Reject),
        3 => Ok(GreenLabelCertificationExecutionTypeV1::Revoke),
        _ => Err(CustomError::InvalidGreenLabelCertificationSchema),
    }
}

/// Proof that decoding a stable code gives back the execution type.
pub proof fn law_certification_execution_code_roundtrip(t: GreenLabelCertificationExecutionTypeV1, u: GreenLabelCertificationExecutionTypeV1)
    ensures
        1 <= spec_certification_execution_code(t) <= 3,
        spec_certification_execution_code(t) == spec_certification_execution_code(u) ==> t == u,
{
}

/// Whether a governance action is a certification decision.
pub open spec fn spec_is_certification_action(action: GovernanceActionTypeV1) -> bool {
    ||| action == GovernanceActionTypeV1::GreenLabelApproveCertification
    ||| action == GovernanceActionTypeV1::GreenLabelRejectCertification
    ||| action == GovernanceActionTypeV1::GreenLabelRevokeCertification
}

/// The outcome of checking decision parameters before they are hashed.
pub open spec fn spec_validate_decision_parameters(p: GreenLabelCertificationDecisionParametersV1) -> ProgramResult<()> {
    if p.schema_version != GREEN_LABEL_CERTIFICATION_SCHEMA_VERSION {
        Err(CustomError::InvalidGreenLabelCertificationSchema)
    } else if !spec_is_certification_action(p.action_type) {
        Err(CustomError::GreenLabelCertificationActionMismatch)
    } else if p.green_label_config == Key32::zero() || p.green_label_project == Key32::zero()
        || p.certification_state == Key32::zero() {
        Err(CustomError::GreenLabelCertificationTargetMismatch)
    } else if p.project_authority == Key32::zero() {
        Err(CustomError::InvalidGreenLabelProjectOwner)
    } else if p.usdc_mint == Key32::zero() {
        Err(CustomError::InvalidGreenLabelMint)
    } else if p.proposal_id == 0 {
        Err(CustomError::InvalidProposalId)
    } else {
        Ok(())
    }
}

/// The Borsh encoding of the target half of decision parameters.
#[verifier::opaque]
pub open spec fn spec_decision_parameters_head(p: GreenLabelCertificationDecisionParametersV1) -> Seq<u8> {
    le_u16(p.schema_version)
        + key_bytes(p.green_label_config)
        + key_bytes(p.green_label_project)
        + key_bytes(p.certification_state)
        + seq![spec_governance_action_type_v1_tag(p.action_type)]
        + key_bytes(p.project_authority)
        + seq![spec_bond_tier_tag(p.bond_tier)]
}

/// The Borsh encoding of the expectation half of decision parameters.
#[verifier::opaque]
pub open spec fn spec_decision_parameters_tail(p: GreenLabelCertificationDecisionParametersV1) -> Seq<u8> {
    key_bytes(p.bond_vault)
        + key_bytes(p.usdc_mint)
        + le_i64(p.observation_end_ts)
        + seq![spec_green_label_status_tag(p.expected_project_status)]
        + seq![spec_green_label_certification_status_v1_tag(p.expected_certification_status)]
        + le_u64(p.proposal_id)
}

/// The Borsh encoding of decision parameters.
pub open spec fn spec_decision_parameters_bytes(p: GreenLabelCertificationDecisionParametersV1) -> Seq<u8> {
    spec_decision_parameters_head(p) + spec_decision_parameters_tail(p)
}

fn push_decision_parameters_head(out: &mut Vec<u8>, p: &GreenLabelCertificationDecisionParametersV1)
    ensures
        final(out)@ == old(out)@ + spec_decision_parameters_head(*p),
        spec_decision_parameters_head(*p).len() == 132,
{
    reveal(spec_decision_parameters_head);
    push_u16(out, p.schema_version);
    push_key(out, p.green_label_config);
    push_key(out, p.green_label_project);
    push_key(out, p.certification_state);
    push_u8(out, governance_action_type_v1_tag(p.action_type));
    push_key(out, p.project_authority);
    push_u8(out, bond_tier_tag(p.bond_tier));
    assert(out@ =~= old(out)@ + spec_decision_parameters_head(*p));
}

fn push_decision_parameters_tail(out: &mut Vec<u8>, p: &GreenLabelCertificationDecisionParametersV1)
    ensures
        final(out)@ == old(out)@ + spec_decision_parameters_tail(*p),
        spec_decision_parameters_tail(*p).len() == 82,
{
    reveal(spec_decision_parameters_tail);
    push_key(out, p.bond_vault);
    push_key(out, p.usdc_mint);
    push_i64(out, p.observation_end_ts);
    push_u8(out, green_label_status_tag(p.expected_project_status));
    push_u8(out, green_label_certification_status_v1_tag(p.expected_certification_status));
    push_u64(out, p.proposal_id);
    assert(out@ =~= old(out)@ + spec_decision_parameters_tail(*p));
}

/// The hash of decision parameters: the payload hash of the certification
/// domain separator followed by their encoding, once they pass their checks.
pub open spec fn spec_decision_parameters_hash(p: GreenLabelCertificationDecisionParametersV1) -> ProgramResult<Hash32> {
    match spec_validate_decision_parameters(p) {
        Err(e) => Err(e),
        Ok(_) => Ok(spec_payload_hash(spec_domain(Domain::GreenLabelCertificationDecision) + spec_decision_parameters_bytes(p))),
    }
}

/// Checks decision parameters and hashes them under the certification domain.
pub fn hash_green_label_certification_decision_parameters_v1(parameters: &GreenLabelCertificationDecisionParametersV1) -> (r: ProgramResult<Hash32>)
    ensures
        r == spec_decision_parameters_hash(*parameters),
{
    if parameters.schema_version != GREEN_LABEL_CERTIFICATION_SCHEMA_VERSION {
        return Err(CustomError::InvalidGreenLabelCertificationSchema);
    }
    if !(parameters.action_type == GovernanceActionTypeV1::GreenLabelApproveCertification
        || parameters.action_type == GovernanceActionTypeV1::GreenLabelRejectCertification
        || parameters.action_type == GovernanceActionTypeV1::GreenLabelRevokeCertification) {
        return Err(CustomError::GreenLabelCertificationActionMismatch);
    }
    if parameters.green_label_config.is_zero() || parameters.green_label_project.is_zero()
        || parameters.certification_state.is_zero() {
        return Err(CustomError::GreenLabelCertificationTargetMismatch);
    }
    if parameters.project_authority.is_zero() {
        return Err(CustomError::InvalidGreenLabelProjectOwner);
    }
    if parameters.usdc_mint.is_zero() {
        return Err(CustomError::InvalidGreenLabelMint);
    }
    if parameters.proposal_id == 0 {
        return Err(CustomError::InvalidProposalId);
    }
    let mut bytes: Vec<u8> = Vec::new();
    push_domain(&mut bytes, Domain::GreenLabelCertificationDecision);
    push_decision_parameters_head(&mut bytes, parameters);
    push_decision_parameters_tail(&mut bytes, parameters);
    assert(bytes@ =~= spec_domain(Domain::GreenLabelCertificationDecision) + spec_decision_parameters_bytes(*parameters));
    hash_contributor_payload(&bytes)
}

impl GreenLabelCertificationDecisionParametersV1 {
    /// Appends the Borsh encoding of these parameters to `out`.
    pub fn serialize(&self, out: &mut Vec<u8>) -> (r: ProgramResult<()>)
        ensures
            r is Ok,
            final(out)@ == old(out)@ + spec_decision_parameters_bytes(*self),
    {
        push_decision_parameters_head(out, self);
        push_decision_parameters_tail(out, self);
        assert(out@ =~= old(out)@ + spec_decision_parameters_bytes(*self));
        Ok(())
    }
}

/// The decision parameters for a project as it stands.
pub open spec fn spec_decision_parameters(
    config: GreenLabelConfigV1,
    config_key: Pubkey,
    project: GreenLabelProjectV1,
    project_key: Pubkey,
    certification_state_key: Pubkey,
    action_type: GovernanceActionTypeV1,
    expected_certification_status: GreenLabelCertificationStatusV1,
    proposal_id: u64,
) -> GreenLabelCertificationDecisionParametersV1 {
    GreenLabelCertificationDecisionParametersV1 {
        schema_version: GREEN_LABEL_CERTIFICATION_SCHEMA_VERSION,
        green_label_config: config_key,
        green_label_project: project_key,
        certification_state: certification_state_key,
        action_type,
        project_authority: project.project_owner,
        bond_tier: project.bond_tier,
        bond_vault: project.bond_vault,
        usdc_mint: config.usdc_mint,
        observation_end_ts: project.observation_end_ts,
        expected_project_status: project.status,
        expected_certification_status,
        proposal_id,
    }
}

/// Builds the decision parameters of a certification action for a project as
/// it stands; any other action fails.
pub fn build_green_label_certification_decision_parameters_v1(
    config: &GreenLabelConfigV1,
    config_key: Pubkey,
    project: &GreenLabelProjectV1,
    project_key: Pubkey,
    certification_state_key: Pubkey,
    action_type: GovernanceActionTypeV1,
    expected_certification_status: GreenLabelCertificationStatusV1,
    proposal_id: u64,
) -> (r: ProgramResult<GreenLabelCertificationDecisionParametersV1>)
    ensures
        !spec_is_certification_action(action_type) ==> r == Err::<GreenLabelCertificationDecisionParametersV1, CustomError>(
            CustomError::GreenLabelCertificationActionMismatch),
        spec_is_certification_action(action_type) ==> r == Ok::<GreenLabelCertificationDecisionParametersV1, CustomError>(
            spec_decision_parameters(*config, config_key, *project, project_key, certification_state_key, action_type,
                expected_certification_status, proposal_id)),
{
    if !(action_type == GovernanceActionTypeV1::GreenLabelApproveCertification
        || action_type == GovernanceActionTypeV1::GreenLabelRejectCertification
        || action_type == GovernanceActionTypeV1::GreenLabelRevokeCertification) {
        return Err(CustomError::GreenLabelCertificationActionMismatch);
    }
    Ok(GreenLabelCertificationDecisionParametersV1 {
        schema_version: GREEN_LABEL_CERTIFICATION_SCHEMA_VERSION,
        green_label_config: config_key,
        green_label_project: project_key,
        certification_state: certification_state_key,
        action_type,
        project_authority: project.project_owner,
        bond_tier: project.bond_tier,
        bond_vault: project.bond_vault,
        usdc_mint: config.usdc_mint,
        observation_end_ts: project.observation_end_ts,
        expected_project_status: project.status,
        expected_certification_status,
        proposal_id,
    })
}

/// Opens a pending certification for a project that has not yet earned the
/// label; a state that already names a project, a project past observation
/// or a nonpositive time fails and changes nothing.
pub fn record_green_label_certification_state_init(
    certification_state: &mut GreenLabelCertificationStateV1,
    project_key: Pubkey,
    config_key: Pubkey,
    project_status: GreenLabelStatus,
    now: i64,
    bump: u8,
) -> (r: ProgramResult<()>)
    ensures
        old(certification_state).green_label_project != Key32::zero() ==> {
            &&& r == Err::<(), CustomError>(CustomError::GreenLabelCertificationStateMismatch)
            &&& *final(certification_state) == *old(certification_state)
        },
        old(certification_state).green_label_project == Key32::zero()
            && project_status != GreenLabelStatus::PendingBondDeposit
            && project_status != GreenLabelStatus::PendingObservation ==> {
            &&& r == Err::<(), CustomError>(CustomError::InvalidGreenLabelStatus)
            &&& *final(certification_state) == *old(certification_state)
        },
        old(certification_state).green_label_project == Key32::zero()
            && (project_status == GreenLabelStatus::PendingBondDeposit
            || project_status == GreenLabelStatus::PendingObservation) && now <= 0 ==> {
            &&& r == Err::<(), CustomError>(CustomError::InvalidGreenLabelCertificationSchema)
            &&& *final(certification_state) == *old(certification_state)
        },
        old(certification_state).green_label_project == Key32::zero()
            && (project_status == GreenLabelStatus::PendingBondDeposit
            || project_status == GreenLabelStatus::PendingObservation) && now > 0 ==> {
            &&& r == Ok::<(), CustomError>(())
            &&& *final(certification_state) == (GreenLabelCertificationStateV1 {
                green_label_project: project_key,
                green_label_config: config_key,
                certification_status: GreenLabelCertificationStatusV1::Pending,
                last_governance_proposal: Key32::zero(),
                last_execution_queue: Key32::zero(),
                last_execution_record: Key32::zero(),
                last_action_type: GovernanceActionTypeV1::GreenLabelApproveCertification,
                decision_at: 0,
                created_at: now,
                updated_at: now,
                schema_version: GREEN_LABEL_CERTIFICATION_SCHEMA_VERSION,
                bump,
            })
        },
{
    if !certification_state.green_label_project.is_zero() {
        return Err(CustomError::GreenLabelCertificationStateMismatch);
    }
    if !(project_status == GreenLabelStatus::PendingBondDeposit || project_status == GreenLabelStatus::PendingObservation) {
        return Err(CustomError::InvalidGreenLabelStatus);
    }
    if now <= 0 {
        return Err(CustomError::InvalidGreenLabelCertificationSchema);
    }
    certification_state.green_label_project = project_key;
    certification_state.green_label_config = config_key;
    certification_state.certification_status = GreenLabelCertificationStatusV1::Pending;
    certification_state.last_governance_proposal = Key32::default();
    certification_state.last_execution_queue = Key32::default();
    certification_state.last_execution_record = Key32::default();
    certification_state.last_action_type = GovernanceActionTypeV1::GreenLabelApproveCertification;
    certification_state.decision_at = 0;
    certification_state.created_at = now;
    certification_state.updated_at = now;
    certification_state.schema_version = GREEN_LABEL_CERTIFICATION_SCHEMA_VERSION;
    certification_state.bump = bump;
    Ok(())
}

/// The certification status machine: a pending certification is approved
/// or rejected, an approved one may be revoked, nothing else.
pub open spec fn spec_certification_transition_allowed(
    current: GreenLabelCertificationStatusV1,
    next: GreenLabelCertificationStatusV1,
) -> bool {
    ||| current == GreenLabelCertificationStatusV1::Pending && next == GreenLabelCertificationStatusV1::Approved
    ||| current == GreenLabelCertificationStatusV1::Pending && next == GreenLabelCertificationStatusV1::Rejected
    ||| current == GreenLabelCertificationStatusV1::Approved && next == GreenLabelCertificationStatusV1::Revoked
}

/// Checks a certification status change.
pub fn validate_green_label_certification_status_transition(
    current: GreenLabelCertificationStatusV1,
    next: GreenLabelCertificationStatusV1,
) -> (r: ProgramResult<()>)
    ensures
        spec_certification_transition_allowed(current, next) ==> r == Ok::<(), CustomError>(()),
        !spec_certification_transition_allowed(current, next)
            ==> r == Err::<(), CustomError>(CustomError::GreenLabelCertificationAlreadyFinalized),
{
    let valid = (current == GreenLabelCertificationStatusV1::Pending && next == GreenLabelCertificationStatusV1::Approved)
        || (current == GreenLabelCertificationStatusV1::Pending && next == GreenLabelCertificationStatusV1::Rejected)
        || (current == GreenLabelCertificationStatusV1::Approved && next == GreenLabelCertificationStatusV1::Revoked);
    if !valid {
        return Err(CustomError::GreenLabelCertificationAlreadyFinalized);
    }
    Ok(())
}

/// Proof that rejected and revoked certifications are final, and that only
/// a pending certification can be approved.
pub proof fn law_certification_decisions_are_final(
    current: GreenLabelCertificationStatusV1,
    next: GreenLabelCertificationStatusV1,
)
    ensures
        current == GreenLabelCertificationStatusV1::Rejected ==> !spec_certification_transition_allowed(current, next),
        current == GreenLabelCertificationStatusV1::Revoked ==> !spec_certification_transition_allowed(current, next),
        next == GreenLabelCertificationStatusV1::Approved && spec_certification_transition_allowed(current, next)
            ==> current == GreenLabelCertificationStatusV1::Pending,
        next == GreenLabelCertificationStatusV1::Revoked && spec_certification_transition_allowed(current, next)
            ==> current == GreenLabelCertificationStatusV1::Approved,
{
}

/// The outcome of the business checks of an approval.
pub open spec fn spec_approve_business(
    config: GreenLabelConfigV1,
    project: GreenLabelProjectV1,
    certification_state: GreenLabelCertificationStateV1,
    provided_bond_vault: Pubkey,
    green_bond_vault: TokenAccount,
    provided_usdc_mint: Pubkey,
    usdc_decimals: u8,
    now: i64,
) -> ProgramResult<()> {
    if certification_state.certification_status != GreenLabelCertificationStatusV1::Pending {
        Err(CustomError::GreenLabelCertificationAlreadyFinalized)
    } else if project.status != GreenLabelStatus::PendingObservation {
        Err(CustomError::InvalidGreenLabelStatus)
    } else if now < project.observation_end_ts {
        Err(CustomError::GreenLabelObservationPeriodNotComplete)
    } else if project.active_dispute != Key32::zero() {
        Err(CustomError::GreenLabelUnresolvedDispute)
    } else if project.bond_vault == Key32::zero() || project.bond_vault_authority == Key32::zero()
        || project.total_bond_amount == 0 || provided_bond_vault != project.bond_vault {
        Err(CustomError::InvalidGreenLabelBondVaultState)
    } else if green_bond_vault.mint != config.usdc_mint {
        Err(CustomError::InvalidGreenLabelMint)
    } else if green_bond_vault.owner != project.bond_vault_authority {
        Err(CustomError::InvalidGreenLabelBondVaultState)
    } else if provided_usdc_mint != config.usdc_mint || usdc_decimals != GREEN_LABEL_USDC_DECIMALS {
        Err(CustomError::InvalidGreenLabelMint)
    } else if green_bond_vault.amount < project.total_bond_amount {
        Err(CustomError::GreenLabelInsufficientBondVaultBalance)
    } else {
        Ok(())
    }
}

/// A project is approved only while its certification is pending, after its
/// observation period has ended with no dispute open, and while its USDC bond
/// vault still holds the whole bond.
pub fn validate_green_label_approve_certification_business_v1(
    config: &GreenLabelConfigV1,
    project: &GreenLabelProjectV1,
    certification_state: &GreenLabelCertificationStateV1,
    provided_bond_vault: Pubkey,
    green_bond_vault: &TokenAccount,
    provided_usdc_mint: Pubkey,
    usdc_decimals: u8,
    now: i64,
) -> (r: ProgramResult<()>)
    ensures
        r == spec_approve_business(*config, *project, *certification_state, provided_bond_vault, *green_bond_vault,
            provided_usdc_mint, usdc_decimals, now),
{
    if certification_state.certification_status != GreenLabelCertificationStatusV1::Pending {
        return Err(CustomError::GreenLabelCertificationAlreadyFinalized);
    }
    if project.status != GreenLabelStatus::PendingObservation {
        return Err(CustomError::InvalidGreenLabelStatus);
    }
    if now < project.observation_end_ts {
        return Err(CustomError::GreenLabelObservationPeriodNotComplete);
    }
    if !project.active_dispute.is_zero() {
        return Err(CustomError::GreenLabelUnresolvedDispute);
    }
    if project.bond_vault.is_zero() || project.bond_vault_authority.is_zero() || project.total_bond_amount == 0 {
        return Err(CustomError::InvalidGreenLabelBondVaultState);
    }
    if provided_bond_vault != project.bond_vault {
        return Err(CustomError::InvalidGreenLabelBondVaultState);
    }
    if green_bond_vault.mint != config.usdc_mint {
        return Err(CustomError::InvalidGreenLabelMint);
    }
    if green_bond_vault.owner != project.bond_vault_authority {
        return Err(CustomError::InvalidGreenLabelBondVaultState);
    }
    if provided_usdc_mint != config.usdc_mint {
        return Err(CustomError::InvalidGreenLabelMint);
    }
    if usdc_decimals != GREEN_LABEL_USDC_DECIMALS {
        return Err(CustomError::InvalidGreenLabelMint);
    }
    if green_bond_vault.amount < project.total_bond_amount {
        return Err(CustomError::GreenLabelInsufficientBondVaultBalance);
    }
    Ok(())
}

/// A certification is rejected only while pending, before the project holds
/// the label.
pub fn validate_green_label_reject_certification_business_v1(
    project_status: GreenLabelStatus,
    certification_status: GreenLabelCertificationStatusV1,
) -> (r: ProgramResult<()>)
    ensures
        certification_status != GreenLabelCertificationStatusV1::Pending
            ==> r == Err::<(), CustomError>(CustomError::GreenLabelCertificationAlreadyFinalized),
        certification_status == GreenLabelCertificationStatusV1::Pending
            && project_status != GreenLabelStatus::PendingBondDeposit
            && project_status != GreenLabelStatus::PendingObservation
            ==> r == Err::<(), CustomError>(CustomError::InvalidGreenLabelStatus),
        certification_status == GreenLabelCertificationStatusV1::Pending
            && (project_status == GreenLabelStatus::PendingBondDeposit
            || project_status == GreenLabelStatus::PendingObservation) ==> r == Ok::<(), CustomError>(()),
{
    if certification_status != GreenLabelCertificationStatusV1::Pending {
        return Err(CustomError::GreenLabelCertificationAlreadyFinalized);
    }
    if !(project_status == GreenLabelStatus::PendingBondDeposit || project_status == GreenLabelStatus::PendingObservation) {
        return Err(CustomError::InvalidGreenLabelStatus);
    }
    Ok(())
}

/// A certification is revoked only once approved, while the project holds
/// the label.
pub fn validate_green_label_revoke_certification_business_v1(
    project_status: GreenLabelStatus,
    certification_status: GreenLabelCertificationStatusV1,
) -> (r: ProgramResult<()>)
    ensures
        certification_status != GreenLabelCertificationStatusV1::Approved
            ==> r == Err::<(), CustomError>(CustomError::GreenLabelCertificationNotApproved),
        certification_status == GreenLabelCertificationStatusV1::Approved
            && project_status != GreenLabelStatus::ActiveGreenLabel
            ==> r == Err::<(), CustomError>(CustomError::InvalidGreenLabelStatus),
        certification_status == GreenLabelCertificationStatusV1::Approved
            && project_status == GreenLabelStatus::ActiveGreenLabel ==> r == Ok::<(), CustomError>(()),
{
    if certification_status != GreenLabelCertificationStatusV1::Approved {
        return Err(CustomError::GreenLabelCertificationNotApproved);
    }
    if project_status != GreenLabelStatus::ActiveGreenLabel {
        return Err(CustomError::InvalidGreenLabelStatus);
    }
    Ok(())
}

/// The parameters half of a certification's execution context: the
/// certification state is this project's, and the parameters describe this
/// project, state, decision and proposal exactly.
pub open spec fn spec_certification_parameters(
    green_label_config: GreenLabelConfigV1,
    green_label_project: GreenLabelProjectV1,
    green_label_project_key: Pubkey,
    certification_state: GreenLabelCertificationStateV1,
    certification_state_key: Pubkey,
    governance_proposal: GovernanceProposalV1,
    expected_governance_action: GovernanceActionTypeV1,
    p: GreenLabelCertificationDecisionParametersV1,
) -> ProgramResult<()> {
    if certification_state.green_label_project != green_label_project_key
        || certification_state.green_label_config != p.green_label_config {
        Err(CustomError::GreenLabelCertificationStateMismatch)
    } else if certification_state.schema_version != GREEN_LABEL_CERTIFICATION_SCHEMA_VERSION {
        Err(CustomError::InvalidGreenLabelCertificationSchema)
    } else if p.green_label_project != green_label_project_key || p.certification_state != certification_state_key
        || p.green_label_config != certification_state.green_label_config {
        Err(CustomError::GreenLabelCertificationTargetMismatch)
    } else if p.action_type != expected_governance_action {
        Err(CustomError::GreenLabelCertificationActionMismatch)
    } else if p.project_authority != green_label_project.project_owner {
        Err(CustomError::InvalidGreenLabelProjectOwner)
    } else if p.bond_tier != green_label_project.bond_tier || p.bond_vault != green_label_project.bond_vault {
        Err(CustomError::GreenLabelCertificationParametersMismatch)
    } else if p.usdc_mint != green_label_config.usdc_mint {
        Err(CustomError::InvalidGreenLabelMint)
    } else if p.observation_end_ts != green_label_project.observation_end_ts
        || p.expected_project_status != green_label_project.status
        || p.expected_certification_status != certification_state.certification_status {
        Err(CustomError::GreenLabelCertificationParametersMismatch)
    } else if p.proposal_id != governance_proposal.proposal_id {
        Err(CustomError::InvalidProposalId)
    } else {
        Ok(())
    }
}

/// The errors certification decisions report.
pub open spec fn spec_certification_errors() -> ActionErrors {
    ActionErrors {
        action: CustomError::GreenLabelCertificationActionMismatch,
        target: CustomError::GreenLabelCertificationTargetMismatch,
        parameters: CustomError::GreenLabelCertificationParametersMismatch,
    }
}

/// The outcome of checking a certification's whole execution context.
pub open spec fn spec_certification_context(
    security_governance_config: GovernanceConfigV1,
    security_governance_config_key: Pubkey,
    green_label_config: GreenLabelConfigV1,
    green_label_project: GreenLabelProjectV1,
    green_label_project_key: Pubkey,
    certification_state: GreenLabelCertificationStateV1,
    certification_state_key: Pubkey,
    protocol_module_registry: ProtocolModuleRegistryV1,
    protocol_module_registry_key: Pubkey,
    governance_proposal: GovernanceProposalV1,
    governance_proposal_key: Pubkey,
    governance_proposal_action: GovernanceProposalActionV1,
    governance_proposal_action_key: Pubkey,
    governance_decision_adapter: UniversalGovernanceDecisionAdapterV1,
    governance_decision_adapter_key: Pubkey,
    proposal_decision: ProposalDecisionV1,
    proposal_decision_key: Pubkey,
    execution_queue_item: ExecutionQueueItemV1,
    execution_queue_item_key: Pubkey,
    expected_governance_action: GovernanceActionTypeV1,
    expected_proposal_type: ProposalType,
    expected_security_action: ActionType,
    parameters: GreenLabelCertificationDecisionParametersV1,
) -> ProgramResult<()> {
    let governance = spec_action_governance(security_governance_config, security_governance_config_key,
        green_label_config, protocol_module_registry, protocol_module_registry_key, governance_proposal,
        governance_proposal_key, governance_proposal_action, governance_proposal_action_key, green_label_project_key,
        expected_governance_action, expected_security_action, spec_certification_errors());
    let params = spec_certification_parameters(green_label_config, green_label_project, green_label_project_key,
        certification_state, certification_state_key, governance_proposal, expected_governance_action, parameters);
    if governance is Err {
        governance
    } else if params is Err {
        params
    } else {
        match spec_decision_parameters_hash(parameters) {
            Err(e) => Err(e),
            Ok(h) => if governance_proposal_action.parameters_hash != h {
                Err(CustomError::GreenLabelCertificationParametersMismatch)
            } else {
                spec_action_security(green_label_project_key, governance_proposal, governance_proposal_key,
                    governance_proposal_action, governance_decision_adapter, governance_decision_adapter_key,
                    proposal_decision, proposal_decision_key, execution_queue_item, execution_queue_item_key,
                    expected_proposal_type, expected_security_action, None, spec_certification_errors())
            },
        }
    }
}

fn validate_certification_parameters(
    green_label_config: &GreenLabelConfigV1,
    green_label_project: &GreenLabelProjectV1,
    green_label_project_key: Pubkey,
    certification_state: &GreenLabelCertificationStateV1,
    certification_state_key: Pubkey,
    governance_proposal: &GovernanceProposalV1,
    expected_governance_action: GovernanceActionTypeV1,
    parameters: &GreenLabelCertificationDecisionParametersV1,
) -> (r: ProgramResult<()>)
    ensures
        r == spec_certification_parameters(*green_label_config, *green_label_project, green_label_project_key,
            *certification_state, certification_state_key, *governance_proposal, expected_governance_action, *parameters),
{
    if certification_state.green_label_project != green_label_project_key {
        return Err(CustomError::GreenLabelCertificationStateMismatch);
    }
    if certification_state.green_label_config != parameters.green_label_config {
        return Err(CustomError::GreenLabelCertificationStateMismatch);
    }
    if certification_state.schema_version != GREEN_LABEL_CERTIFICATION_SCHEMA_VERSION {
        return Err(CustomError::InvalidGreenLabelCertificationSchema);
    }
    if parameters.green_label_project != green_label_project_key {
        return Err(CustomError::GreenLabelCertificationTargetMismatch);
    }
    if parameters.certification_state != certification_state_key {
        return Err(CustomError::GreenLabelCertificationTargetMismatch);
    }
    if parameters.green_label_config != certification_state.green_label_config {
        return Err(CustomError::GreenLabelCertificationTargetMismatch);
    }
    if parameters.action_type != expected_governance_action {
        return Err(CustomError::GreenLabelCertificationActionMismatch);
    }
    if parameters.project_authority != green_label_project.project_owner {
        return Err(CustomError::InvalidGreenLabelProjectOwner);
    }
    if parameters.bond_tier != green_label_project.bond_tier {
        return Err(CustomError::GreenLabelCertificationParametersMismatch);
    }
    if parameters.bond_vault != green_label_project.bond_vault {
        return Err(CustomError::GreenLabelCertificationParametersMismatch);
    }
    if parameters.usdc_mint != green_label_config.usdc_mint {
        return Err(CustomError::InvalidGreenLabelMint);
    }
    if parameters.observation_end_ts != green_label_project.observation_end_ts {
        return Err(CustomError::GreenLabelCertificationParametersMismatch);
    }
    if parameters.expected_project_status != green_label_project.status {
        return Err(CustomError::GreenLabelCertificationParametersMismatch);
    }
    if parameters.expected_certification_status != certification_state.certification_status {
        return Err(CustomError::GreenLabelCertificationParametersMismatch);
    }
    if parameters.proposal_id != governance_proposal.proposal_id {
        return Err(CustomError::InvalidProposalId);
    }
    Ok(())
}

/// Checks that a certification decision on a project was passed by
/// governance, hashed from parameters that describe the project as it stands,
/// approved by the Security Layer under the matching proposal type, and
/// executed there for this project in this program.
pub fn validate_green_label_certification_execution_context_v1(
    security_governance_config: &GovernanceConfigV1,
    security_governance_config_key: Pubkey,
    green_label_config: &GreenLabelConfigV1,
    green_label_project: &GreenLabelProjectV1,
    green_label_project_key: Pubkey,
    certification_state: &GreenLabelCertificationStateV1,
    certification_state_key: Pubkey,
    protocol_module_registry: &ProtocolModuleRegistryV1,
    protocol_module_registry_key: Pubkey,
    governance_proposal: &GovernanceProposalV1,
    governance_proposal_key: Pubkey,
    governance_proposal_action: &GovernanceProposalActionV1,
    governance_proposal_action_key: Pubkey,
    governance_decision_adapter: &UniversalGovernanceDecisionAdapterV1,
    governance_decision_adapter_key: Pubkey,
    proposal_decision: &ProposalDecisionV1,
    proposal_decision_key: Pubkey,
    execution_queue_item: &ExecutionQueueItemV1,
    execution_queue_item_key: Pubkey,
    expected_governance_action: GovernanceActionTypeV1,
    expected_proposal_type: ProposalType,
    expected_security_action: ActionType,
    parameters: &GreenLabelCertificationDecisionParametersV1,
) -> (r: ProgramResult<()>)
    ensures
        r == spec_certification_context(*security_governance_config, security_governance_config_key,
            *green_label_config, *green_label_project, green_label_project_key, *certification_state,
            certification_state_key, *protocol_module_registry, protocol_module_registry_key, *governance_proposal,
            governance_proposal_key, *governance_proposal_action, governance_proposal_action_key,
            *governance_decision_adapter, governance_decision_adapter_key, *proposal_decision, proposal_decision_key,
            *execution_queue_item, execution_queue_item_key, expected_governance_action, expected_proposal_type,
            expected_security_action, *parameters),
{
    let errors = ActionErrors {
        action: CustomError::GreenLabelCertificationActionMismatch,
        target: CustomError::GreenLabelCertificationTargetMismatch,
        parameters: CustomError::GreenLabelCertificationParametersMismatch,
    };
    validate_action_governance(security_governance_config, security_governance_config_key, green_label_config,
        protocol_module_registry, protocol_module_registry_key, governance_proposal, governance_proposal_key,
        governance_proposal_action, governance_proposal_action_key, green_label_project_key, expected_governance_action,
        expected_security_action, errors)?;
    validate_certification_parameters(green_label_config, green_label_project, green_label_project_key,
        certification_state, certification_state_key, governance_proposal, expected_governance_action, parameters)?;
    let parameters_hash = hash_green_label_certification_decision_parameters_v1(parameters)?;
    if governance_proposal_action.parameters_hash != parameters_hash {
        return Err(CustomError::GreenLabelCertificationParametersMismatch);
    }
    validate_action_security(green_label_project_key, governance_proposal, governance_proposal_key,
        governance_proposal_action, governance_decision_adapter, governance_decision_adapter_key, proposal_decision,
        proposal_decision_key, execution_queue_item, execution_queue_item_key, expected_proposal_type,
        expected_security_action, None, errors)
}

/// The certification state after a decision.
pub open spec fn spec_decided_state(
    state: GreenLabelCertificationStateV1,
    next_certification_status: GreenLabelCertificationStatusV1,
    governance_proposal: Pubkey,
    execution_queue_item: Pubkey,
    execution_record_key: Pubkey,
    governance_action_type: GovernanceActionTypeV1,
    executed_at: i64,
) -> GreenLabelCertificationStateV1 {
    GreenLabelCertificationStateV1 {
        certification_status: next_certification_status,
        last_governance_proposal: governance_proposal,
        last_execution_queue: execution_queue_item,
        last_execution_record: execution_record_key,
        last_action_type: governance_action_type,
        decision_at: executed_at,
        updated_at: executed_at,
        ..state
    }
}

/// The accounts a certification decision came through.
#[derive(Clone, Copy, Debug, PartialEq, Eq, Structural)]
pub struct CertificationAccounts {
    pub execution_queue_item: Pubkey,
    pub proposal_decision: Pubkey,
    pub governance_proposal: Pubkey,
    pub governance_proposal_action: Pubkey,
    pub project_key: Pubkey,
    pub certification_state_key: Pubkey,
    pub module_registry: Pubkey,
}

/// The execution record of a certification decision.
pub open spec fn spec_certification_record(
    record: GreenLabelCertificationExecutionRecordV1,
    a: CertificationAccounts,
    execution_type: GreenLabelCertificationExecutionTypeV1,
    next_certification_status: GreenLabelCertificationStatusV1,
    governance_action_type: GovernanceActionTypeV1,
    parameters_hash: Hash32,
    canonical_governance_payload_hash: Hash32,
    project_status_before: GreenLabelStatus,
    project_status_after: GreenLabelStatus,
    certification_status_before: GreenLabelCertificationStatusV1,
    executor: Pubkey,
    executed_at: i64,
    bump: u8,
) -> GreenLabelCertificationExecutionRecordV1 {
    GreenLabelCertificationExecutionRecordV1 {
        execution_queue_item: a.execution_queue_item,
        proposal_decision: a.proposal_decision,
        governance_proposal: a.governance_proposal,
        governance_proposal_action: a.governance_proposal_action,
        green_label_project: a.project_key,
        certification_state: a.certification_state_key,
        module_registry: a.module_registry,
        execution_type,
        governance_action_type,
        target_account: a.project_key,
        parameters_hash,
        canonical_governance_payload_hash,
        project_status_before,
        project_status_after,
        certification_status_before,
        certification_status_after: next_certification_status,
        executor,
        executed_at,
        schema_version: GREEN_LABEL_CERTIFICATION_SCHEMA_VERSION,
        bump,
    }
}

/// The checks of a decision record before the parameters are hashed.
pub open spec fn spec_decision_record_checks(
    state: GreenLabelCertificationStateV1,
    record: GreenLabelCertificationExecutionRecordV1,
    project_key: Pubkey,
    certification_state_key: Pubkey,
    next_certification_status: GreenLabelCertificationStatusV1,
    parameters: GreenLabelCertificationDecisionParametersV1,
    certification_status_before: GreenLabelCertificationStatusV1,
) -> ProgramResult<()> {
    if record.execution_queue_item != Key32::zero() {
        Err(CustomError::GreenLabelCertificationExecutionAlreadyCompleted)
    } else if state.green_label_project != project_key || parameters.certification_state != certification_state_key
        || certification_status_before != state.certification_status {
        Err(CustomError::GreenLabelCertificationStateMismatch)
    } else if !spec_certification_transition_allowed(state.certification_status, next_certification_status) {
        Err(CustomError::GreenLabelCertificationAlreadyFinalized)
    } else {
        spec_validate_decision_parameters(parameters)
    }
}

/// What recording a certification decision does: on a failed check nothing
/// changes; otherwise the state takes the decision and the execution record
/// is written.
pub open spec fn spec_decision_recorded(
    old_state: GreenLabelCertificationStateV1,
    old_record: GreenLabelCertificationExecutionRecordV1,
    new_state: GreenLabelCertificationStateV1,
    new_record: GreenLabelCertificationExecutionRecordV1,
    r: ProgramResult<()>,
    a: CertificationAccounts,
    execution_record_key: Pubkey,
    execution_type: GreenLabelCertificationExecutionTypeV1,
    next_certification_status: GreenLabelCertificationStatusV1,
    governance_action_type: GovernanceActionTypeV1,
    parameters: GreenLabelCertificationDecisionParametersV1,
    canonical_governance_payload_hash: Hash32,
    project_status_before: GreenLabelStatus,
    project_status_after: GreenLabelStatus,
    certification_status_before: GreenLabelCertificationStatusV1,
    executor: Pubkey,
    executed_at: i64,
    bump: u8,
) -> bool {
    match spec_decision_record_checks(old_state, old_record, a.project_key, a.certification_state_key,
        next_certification_status, parameters, certification_status_before) {
        Err(e) => r == Err::<(), CustomError>(e) && new_state == old_state && new_record == old_record,
        Ok(_) => r == Ok::<(), CustomError>(())
            && new_state == spec_decided_state(old_state, next_certification_status, a.governance_proposal,
                a.execution_queue_item, execution_record_key, governance_action_type, executed_at)
            && new_record == spec_certification_record(old_record, a, execution_type, next_certification_status,
                governance_action_type, spec_decision_parameters_hash(parameters)->Ok_0,
                canonical_governance_payload_hash, project_status_before, project_status_after,
                certification_status_before, executor, executed_at, bump),
    }
}

/// Records a certification decision: the state moves to the next status and
/// remembers the decision; the execution record is written once. A record
/// already written, a state of another project, parameters of another state,
/// a stale status, a transition the status machine forbids, or invalid
/// parameters fail and change nothing.
pub fn record_green_label_certification_decision_v1(
    certification_state: &mut GreenLabelCertificationStateV1,
    execution_record: &mut GreenLabelCertificationExecutionRecordV1,
    execution_queue_item: Pubkey,
    proposal_decision: Pubkey,
    governance_proposal: Pubkey,
    governance_proposal_action: Pubkey,
    project_key: Pubkey,
    certification_state_key: Pubkey,
    module_registry: Pubkey,
    execution_record_key: Pubkey,
    execution_type: GreenLabelCertificationExecutionTypeV1,
    next_certification_status: GreenLabelCertificationStatusV1,
    governance_action_type: GovernanceActionTypeV1,
    parameters: GreenLabelCertificationDecisionParametersV1,
    canonical_governance_payload_hash: Hash32,
    project_status_before: GreenLabelStatus,
    project_status_after: GreenLabelStatus,
    certification_status_before: GreenLabelCertificationStatusV1,
    executor: Pubkey,
    executed_at: i64,
    bump: u8,
) -> (r: ProgramResult<()>)
    ensures
        spec_decision_recorded(*old(certification_state), *old(execution_record), *final(certification_state),
            *final(execution_record), r, CertificationAccounts {
                execution_queue_item,
                proposal_decision,
                governance_proposal,
                governance_proposal_action,
                project_key,
                certification_state_key,
                module_registry,
            }, execution_record_key, execution_type, next_certification_status, governance_action_type, parameters,
            canonical_governance_payload_hash, project_status_before, project_status_after, certification_status_before,
            executor, executed_at, bump),
{
    if !execution_record.execution_queue_item.is_zero() {
        return Err(CustomError::GreenLabelCertificationExecutionAlreadyCompleted);
    }
    if certification_state.green_label_project != project_key {
        return Err(CustomError::GreenLabelCertificationStateMismatch);
    }
    if parameters.certification_state != certification_state_key {
        return Err(CustomError::GreenLabelCertificationStateMismatch);
    }
    if certification_status_before != certification_state.certification_status {
        return Err(CustomError::GreenLabelCertificationStateMismatch);
    }
    validate_green_label_certification_status_transition(certification_state.certification_status, next_certification_status)?;
    let parameters_hash = hash_green_label_certification_decision_parameters_v1(&parameters)?;
    certification_state.certification_status = next_certification_status;
    certification_state.last_governance_proposal = governance_proposal;
    certification_state.last_execution_queue = execution_queue_item;
    certification_state.last_execution_record = execution_record_key;
    certification_state.last_action_type = governance_action_type;
    certification_state.decision_at = executed_at;
    certification_state.updated_at = executed_at;
    execution_record.execution_queue_item = execution_queue_item;
    execution_record.proposal_decision = proposal_decision;
    execution_record.governance_proposal = governance_proposal;
    execution_record.governance_proposal_action = governance_proposal_action;
    execution_record.green_label_project = project_key;
    execution_record.certification_state = certification_state_key;
    execution_record.module_registry = module_registry;
    execution_record.execution_type = execution_type;
    execution_record.governance_action_type = governance_action_type;
    execution_record.target_account = project_key;
    execution_record.parameters_hash = parameters_hash;
    execution_record.canonical_governance_payload_hash = canonical_governance_payload_hash;
    execution_record.project_status_before = project_status_before;
    execution_record.project_status_after = project_status_after;
    execution_record.certification_status_before = certification_status_before;
    execution_record.certification_status_after = next_certification_status;
    execution_record.executor = executor;
    execution_record.executed_at = executed_at;
    execution_record.schema_version = GREEN_LABEL_CERTIFICATION_SCHEMA_VERSION;
    execution_record.bump = bump;
    Ok(())
}

/// Records an approval: the project's move to ActiveGreenLabel must be an
/// allowed status change, and then the project holds the label from `now`
/// and the certification becomes Approved. The project is updated before the
/// certification is recorded, so a failing record leaves the project
/// updated; a refused status change changes nothing.
pub fn record_green_label_approve_certification_v1(
    project: &mut GreenLabelProjectV1,
    certification_state: &mut GreenLabelCertificationStateV1,
    execution_record: &mut GreenLabelCertificationExecutionRecordV1,
    execution_queue_item: Pubkey,
    proposal_decision: Pubkey,
    governance_proposal: Pubkey,
    governance_proposal_action: Pubkey,
    project_key: Pubkey,
    certification_state_key: Pubkey,
    module_registry: Pubkey,
    execution_record_key: Pubkey,
    parameters: GreenLabelCertificationDecisionParametersV1,
    canonical_governance_payload_hash: Hash32,
    project_status_before: GreenLabelStatus,
    certification_status_before: GreenLabelCertificationStatusV1,
    executor: Pubkey,
    now: i64,
    bump: u8,
) -> (r: ProgramResult<()>)
    ensures
        spec_status_transition(old(project).status, GreenLabelStatus::ActiveGreenLabel, false) is Err ==> {
            &&& r == spec_status_transition(old(project).status, GreenLabelStatus::ActiveGreenLabel, false)
            &&& *final(project) == *old(project)
            &&& *final(certification_state) == *old(certification_state)
            &&& *final(execution_record) == *old(execution_record)
        },
        spec_status_transition(old(project).status, GreenLabelStatus::ActiveGreenLabel, false) is Ok ==> {
            &&& *final(project) == (GreenLabelProjectV1 {
                status: GreenLabelStatus::ActiveGreenLabel,
                approved_at: now,
                ..*old(project)
            })
            &&& spec_decision_recorded(*old(certification_state), *old(execution_record), *final(certification_state),
                *final(execution_record), r, CertificationAccounts {
                    execution_queue_item,
                    proposal_decision,
                    governance_proposal,
                    governance_proposal_action,
                    project_key,
                    certification_state_key,
                    module_registry,
                }, execution_record_key, GreenLabelCertificationExecutionTypeV1::Approve,
                GreenLabelCertificationStatusV1::Approved, GovernanceActionTypeV1::GreenLabelApproveCertification,
                parameters, canonical_governance_payload_hash, project_status_before, GreenLabelStatus::ActiveGreenLabel,
                certification_status_before, executor, now, bump)
        },
{
    validate_green_label_status_transition(project.status, GreenLabelStatus::ActiveGreenLabel, false)?;
    project.status = GreenLabelStatus::ActiveGreenLabel;
    project.approved_at = now;
    record_green_label_certification_decision_v1(
        certification_state,
        execution_record,
        execution_queue_item,
        proposal_decision,
        governance_proposal,
        governance_proposal_action,
        project_key,
        certification_state_key,
        module_registry,
        execution_record_key,
        GreenLabelCertificationExecutionTypeV1::Approve,
        GreenLabelCertificationStatusV1::Approved,
        GovernanceActionTypeV1::GreenLabelApproveCertification,
        parameters,
        canonical_governance_payload_hash,
        project_status_before,
        GreenLabelStatus::ActiveGreenLabel,
        certification_status_before,
        executor,
        now,
        bump,
    )
}

/// Proof that a certification decision is recorded at most once: once a
/// decision carried by a nonzero queued item is recorded, every later
/// recording against the same execution record is refused.
pub proof fn law_certification_recorded_once(
    state: GreenLabelCertificationStateV1,
    record: GreenLabelCertificationExecutionRecordV1,
    a: CertificationAccounts,
    execution_type: GreenLabelCertificationExecutionTypeV1,
    next_certification_status: GreenLabelCertificationStatusV1,
    governance_action_type: GovernanceActionTypeV1,
    parameters_hash: Hash32,
    canonical_governance_payload_hash: Hash32,
    project_status_before: GreenLabelStatus,
    project_status_after: GreenLabelStatus,
    certification_status_before: GreenLabelCertificationStatusV1,
    executor: Pubkey,
    executed_at: i64,
    bump: u8,
    later_state: GreenLabelCertificationStateV1,
    later_project_key: Pubkey,
    later_state_key: Pubkey,
    later_next: GreenLabelCertificationStatusV1,
    later_parameters: GreenLabelCertificationDecisionParametersV1,
    later_before: GreenLabelCertificationStatusV1,
)
    requires
        a.execution_queue_item != Key32::zero(),
    ensures
        spec_decision_record_checks(later_state, spec_certification_record(record, a, execution_type,
            next_certification_status, governance_action_type, parameters_hash, canonical_governance_payload_hash,
            project_status_before, project_status_after, certification_status_before, executor, executed_at, bump),
            later_project_key, later_state_key, later_next, later_parameters, later_before)
            == Err::<(), CustomError>(CustomError::GreenLabelCertificationExecutionAlreadyCompleted),
{
}

/// `spec_decision_parameters_head` written as its pieces.
proof fn lemma_decision_parameters_head_parts(p: GreenLabelCertificationDecisionParametersV1)
    ensures
        spec_decision_parameters_head(p) == u16_part(p.schema_version) + key_part(p.green_label_config) + key_part(p.green_label_project) + key_part(p.certification_state) + byte_part(spec_governance_action_type_v1_tag(p.action_type)) + key_part(p.project_authority) + byte_part(spec_bond_tier_tag(p.bond_tier)),
{
    reveal(spec_decision_parameters_head);
    reveal(byte_part);
    reveal(key_part);
    reveal(u16_part);
}

/// The encoding `spec_decision_parameters_head` has a fixed length and determines its fields.
proof fn lemma_decision_parameters_head_injective(p: GreenLabelCertificationDecisionParametersV1, q: GreenLabelCertificationDecisionParametersV1)
    ensures
        spec_decision_parameters_head(p).len() == 132,
        spec_decision_parameters_head(p) == spec_decision_parameters_head(q) ==> p.schema_version == q.schema_version && p.green_label_config == q.green_label_config && p.green_label_project == q.green_label_project && p.certification_state == q.certification_state && p.action_type == q.action_type && p.project_authority == q.project_authority && p.bond_tier == q.bond_tier,
{
    lemma_decision_parameters_head_parts(p);
    lemma_decision_parameters_head_parts(q);
    lemma_u16_part(p.schema_version, q.schema_version);
    lemma_u16_part(q.schema_version, p.schema_version);
    lemma_key_part(p.green_label_config, q.green_label_config);
    lemma_key_part(q.green_label_config, p.green_label_config);
    lemma_key_part(p.green_label_project, q.green_label_project);
    lemma_key_part(q.green_label_project, p.green_label_project);
    lemma_key_part(p.certification_state, q.certification_state);
    lemma_key_part(q.certification_state, p.certification_state);
    lemma_byte_part(spec_governance_action_type_v1_tag(p.action_type), spec_governance_action_type_v1_tag(q.action_type));
    lemma_byte_part(spec_governance_action_type_v1_tag(q.action_type), spec_governance_action_type_v1_tag(p.action_type));
    lemma_key_part(p.project_authority, q.project_authority);
    lemma_key_part(q.project_authority, p.project_authority);
    lemma_byte_part(spec_bond_tier_tag(p.bond_tier), spec_bond_tier_tag(q.bond_tier));
    lemma_byte_part(spec_bond_tier_tag(q.bond_tier), spec_bond_tier_tag(p.bond_tier));
    if spec_decision_parameters_head(p) == spec_decision_parameters_head(q) {
        lemma_concat_split(u16_part(p.schema_version) + key_part(p.green_label_config) + key_part(p.green_label_project) + key_part(p.certification_state) + byte_part(spec_governance_action_type_v1_tag(p.action_type)) + key_part(p.project_authority), byte_part(spec_bond_tier_tag(p.bond_tier)),
            u16_part(q.schema_version) + key_part(q.green_label_config) + key_part(q.green_label_project) + key_part(q.certification_state) + byte_part(spec_governance_action_type_v1_tag(q.action_type)) + key_part(q.project_authority), byte_part(spec_bond_tier_tag(q.bond_tier)));
        lemma_concat_split(u16_part(p.schema_version) + key_part(p.green_label_config) + key_part(p.green_label_project) + key_part(p.certification_state) + byte_part(spec_governance_action_type_v1_tag(p.action_type)), key_part(p.project_authority),
            u16_part(q.schema_version) + key_part(q.green_label_config) + key_part(q.green_label_project) + key_part(q.certification_state) + byte_part(spec_governance_action_type_v1_tag(q.action_type)), key_part(q.project_authority));
        lemma_concat_split(u16_part(p.schema_version) + key_part(p.green_label_config) + key_part(p.green_label_project) + key_part(p.certification_state), byte_part(spec_governance_action_type_v1_tag(p.action_type)),
            u16_part(q.schema_version) + key_part(q.green_label_config) + key_part(q.green_label_project) + key_part(q.certification_state), byte_part(spec_governance_action_type_v1_tag(q.action_type)));
        lemma_concat_split(u16_part(p.schema_version) + key_part(p.green_label_config) + key_part(p.green_label_project), key_part(p.certification_state),
            u16_part(q.schema_version) + key_part(q.green_label_config) + key_part(q.green_label_project), key_part(q.certification_state));
        lemma_concat_split(u16_part(p.schema_version) + key_part(p.green_label_config), key_part(p.green_label_project),
            u16_part(q.schema_version) + key_part(q.green_label_config), key_part(q.green_label_project));
        lemma_concat_split(u16_part(p.schema_version), key_part(p.green_label_config),
            u16_part(q.schema_version), key_part(q.green_label_config));
        lemma_governance_action_type_v1_tag_injective(p.action_type, q.action_type);
        lemma_bond_tier_tag_injective(p.bond_tier, q.bond_tier);
    }
}

/// `spec_decision_parameters_tail` written as its pieces.
proof fn lemma_decision_parameters_tail_parts(p: GreenLabelCertificationDecisionParametersV1)
    ensures
        spec_decision_parameters_tail(p) == key_part(p.bond_vault) + key_part(p.usdc_mint) + i64_part(p.observation_end_ts) + byte_part(spec_green_label_status_tag(p.expected_project_status)) + byte_part(spec_green_label_certification_status_v1_tag(p.expected_certification_status)) + u64_part(p.proposal_id),
{
    reveal(spec_decision_parameters_tail);
    reveal(byte_part);
    reveal(i64_part);
    reveal(key_part);
    reveal(u64_part);
}

/// The encoding `spec_decision_parameters_tail` has a fixed length and determines its fields.
proof fn lemma_decision_parameters_tail_injective(p: GreenLabelCertificationDecisionParametersV1, q: GreenLabelCertificationDecisionParametersV1)
    ensures
        spec_decision_parameters_tail(p).len() == 82,
        spec_decision_parameters_tail(p) == spec_decision_parameters_tail(q) ==> p.bond_vault == q.bond_vault && p.usdc_mint == q.usdc_mint && p.observation_end_ts == q.observation_end_ts && p.expected_project_status == q.expected_project_status && p.expected_certification_status == q.expected_certification_status && p.proposal_id == q.proposal_id,
{
    lemma_decision_parameters_tail_parts(p);
    lemma_decision_parameters_tail_parts(q);
    lemma_key_part(p.bond_vault, q.bond_vault);
    lemma_key_part(q.bond_vault, p.bond_vault);
    lemma_key_part(p.usdc_mint, q.usdc_mint);
    lemma_key_part(q.usdc_mint, p.usdc_mint);
    lemma_i64_part(p.observation_end_ts, q.observation_end_ts);
    lemma_i64_part(q.observation_end_ts, p.observation_end_ts);
    lemma_byte_part(spec_green_label_status_tag(p.expected_project_status), spec_green_label_status_tag(q.expected_project_status));
    lemma_byte_part(spec_green_label_status_tag(q.expected_project_status), spec_green_label_status_tag(p.expected_project_status));
    lemma_byte_part(spec_green_label_certification_status_v1_tag(p.expected_certification_status), spec_green_label_certification_status_v1_tag(q.expected_certification_status));
    lemma_byte_part(spec_green_label_certification_status_v1_tag(q.expected_certification_status), spec_green_label_certification_status_v1_tag(p.expected_certification_status));
    lemma_u64_part(p.proposal_id, q.proposal_id);
    lemma_u64_part(q.proposal_id, p.proposal_id);
    if spec_decision_parameters_tail(p) == spec_decision_parameters_tail(q) {
        lemma_concat_split(key_part(p.bond_vault) + key_part(p.usdc_mint) + i64_part(p.observation_end_ts) + byte_part(spec_green_label_status_tag(p.expected_project_status)) + byte_part(spec_green_label_certification_status_v1_tag(p.expected_certification_status)), u64_part(p.proposal_id),
            key_part(q.bond_vault) + key_part(q.usdc_mint) + i64_part(q.observation_end_ts) + byte_part(spec_green_label_status_tag(q.expected_project_status)) + byte_part(spec_green_label_certification_status_v1_tag(q.expected_certification_status)), u64_part(q.proposal_id));
        lemma_concat_split(key_part(p.bond_vault) + key_part(p.usdc_mint) + i64_part(p.observation_end_ts) + byte_part(spec_green_label_status_tag(p.expected_project_status)), byte_part(spec_green_label_certification_status_v1_tag(p.expected_certification_status)),
            key_part(q.bond_vault) + key_part(q.usdc_mint) + i64_part(q.observation_end_ts) + byte_part(spec_green_label_status_tag(q.expected_project_status)), byte_part(spec_green_label_certification_status_v1_tag(q.expected_certification_status)));
        lemma_concat_split(key_part(p.bond_vault) + key_part(p.usdc_mint) + i64_part(p.observation_end_ts), byte_part(spec_green_label_status_tag(p.expected_project_status)),
            key_part(q.bond_vault) + key_part(q.usdc_mint) + i64_part(q.observation_end_ts), byte_part(spec_green_label_status_tag(q.expected_project_status)));
        lemma_concat_split(key_part(p.bond_vault) + key_part(p.usdc_mint), i64_part(p.observation_end_ts),
            key_part(q.bond_vault) + key_part(q.usdc_mint), i64_part(q.observation_end_ts));
        lemma_concat_split(key_part(p.bond_vault), key_part(p.usdc_mint),
            key_part(q.bond_vault), key_part(q.usdc_mint));
        lemma_green_label_status_tag_injective(p.expected_project_status, q.expected_project_status);
        lemma_green_label_certification_status_v1_tag_injective(p.expected_certification_status, q.expected_certification_status);
    }
}

/// Parameters with the same encoding are the same parameters.
proof fn lemma_decision_parameters_bytes_injective(p: GreenLabelCertificationDecisionParametersV1, q: GreenLabelCertificationDecisionParametersV1)
    ensures
        spec_decision_parameters_bytes(p) == spec_decision_parameters_bytes(q) ==> p == q,
{
    if spec_decision_parameters_bytes(p) == spec_decision_parameters_bytes(q) {
        lemma_decision_parameters_head_injective(p, q);
        lemma_decision_parameters_head_injective(q, p);
        lemma_decision_parameters_tail_injective(p, q);
        lemma_decision_parameters_tail_injective(q, p);
        lemma_concat_split(spec_decision_parameters_head(p), spec_decision_parameters_tail(p), spec_decision_parameters_head(q), spec_decision_parameters_tail(q));
    }
}

/// The certification decision parameters are bound by what is hashed: two
/// parameter values give the same hash pre-image (the decision domain
/// followed by their encoding) only when they are equal in every field.
pub proof fn law_decision_parameters_preimage_is_injective(p: GreenLabelCertificationDecisionParametersV1, q: GreenLabelCertificationDecisionParametersV1)
    ensures
        (spec_domain(Domain::GreenLabelCertificationDecision) + spec_decision_parameters_bytes(p) == spec_domain(Domain::GreenLabelCertificationDecision) + spec_decision_parameters_bytes(q)) == (p == q),
{
    if spec_domain(Domain::GreenLabelCertificationDecision) + spec_decision_parameters_bytes(p) == spec_domain(Domain::GreenLabelCertificationDecision) + spec_decision_parameters_bytes(q) {
        lemma_concat_split(spec_domain(Domain::GreenLabelCertificationDecision), spec_decision_parameters_bytes(p), spec_domain(Domain::GreenLabelCertificationDecision), spec_decision_parameters_bytes(q));
        lemma_decision_parameters_bytes_injective(p, q);
    }
}

} // verus!
