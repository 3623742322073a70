//! Protocol authority control: the one-way switch from the bootstrap
//! authority to DAO control, and the DAO-governed unpause of the Security Layer.
use vstd::prelude::*;
use crate::codec::{bool_part, byte_part, key_part, lemma_bool_part, lemma_byte_part, lemma_concat_split, lemma_key_part, lemma_u16_part, lemma_u64_part, u16_part, u64_part};
use crate::tags::{lemma_governance_action_type_v1_tag_injective, lemma_protocol_authority_mode_v1_tag_injective};
use crate::codec::{bool_byte, key_bytes, le_u16, le_u32, le_u64, push_bool, push_bytes, push_key, push_u16, push_u32, push_u64, push_u8};
use crate::constants::PROTOCOL_AUTHORITY_SCHEMA_VERSION_V1;
use crate::domains::{push_domain, spec_domain, Domain};
use crate::error::{and_then, guard, CustomError, ProgramResult};
use crate::governance::{
    canonical_governance_payload_hash_for_action_v1, map_governance_action_to_module,
    map_governance_action_to_security_action, security_proposal_type_for_action,
    spec_action_module, spec_canonical_payload_hash, spec_proposal_type_for_action,
    spec_security_action, spec_validate_proposal_action, validate_governance_proposal_action_v1,
};
use crate::hashing::{hash_encoded, spec_hash_encoded};
use crate::keys::{Hash32, Key32, Pubkey};
use crate::module_registry::{spec_validate_registry, validate_protocol_module_registry_v1};
use crate::pda::{
    is_derived_address, program_id, seed_and_key_address, single_seed_address, spec_program_address, spec_program_id,
    spec_seed, Seed,
};
use crate::state::{
    ActionType, ExecutionQueueItemV1, ExecutionStatus, GovernanceActionTypeV1, GovernanceConfigV1,
    GovernanceProposalActionV1, GovernanceProposalStatusV1, GovernanceProposalV1, ProposalDecision,
    ProposalDecisionV1, ProtocolActivateDaoControlParametersV1, ProtocolAuthorityControlV1,
    ProtocolAuthorityModeV1, ProtocolDaoControlActivationRecordV1, ProtocolModuleIdV1,
    ProtocolModuleRegistryV1, ProtocolSecurityUnpauseExecutionRecordV1,
    ProtocolUnpauseSecurityParametersV1, UniversalGovernanceDecisionAdapterV1,
};
use crate::tags::{
    governance_action_type_v1_tag, protocol_authority_mode_v1_tag, spec_governance_action_type_v1_tag,
    spec_protocol_authority_mode_v1_tag,
};

verus! {

/// The stable code of an authority mode.
pub open spec fn spec_mode_code(mode: ProtocolAuthorityModeV1) -> u8 {
    match mode {
        ProtocolAuthorityModeV1::Bootstrap => 1,
        ProtocolAuthorityModeV1::DaoControlled => 2,
    }
}

/// The authority-control address and bump bound to a governance config, if
/// one exists.
pub open spec fn spec_authority_control_address(governance_config: Pubkey) -> Option<(Pubkey, u8)> {
    spec_program_address(seq![spec_seed(Seed::ProtocolAuthorityControlV1), key_bytes(governance_config)])
}

/// The address of the Security Layer governance config, if one exists.
pub open spec fn spec_governance_config_address() -> Option<Pubkey> {
    match spec_program_address(seq![spec_seed(Seed::GovernanceConfigV1)]) {
        Some((address, _)) => Some(address),
        None => None,
    }
}

pub fn protocol_authority_mode_stable_code_v1(mode: ProtocolAuthorityModeV1) -> (code: u8)
    ensures
        code == spec_mode_code(mode),
{
    match mode {
        ProtocolAuthorityModeV1::Bootstrap => 1,
        ProtocolAuthorityModeV1::DaoControlled => 2,
    }
}

/// The mode with stable code `code`; `InvalidProtocolAuthorityMode` otherwise.
pub fn protocol_authority_mode_from_stable_code_v1(code: u8) -> (r: ProgramResult<ProtocolAuthorityModeV1>)
    ensures
        code == 1 ==> r == Ok::<ProtocolAuthorityModeV1, CustomError>(ProtocolAuthorityModeV1::Bootstrap),
        code == 2 ==> r == Ok::<ProtocolAuthorityModeV1, CustomError>(ProtocolAuthorityModeV1::DaoControlled),
        code != 1 && code != 2 ==> r == Err::<ProtocolAuthorityModeV1, CustomError>(CustomError::InvalidProtocolAuthorityMode),
{
    match code {
        1 => Ok(ProtocolAuthorityModeV1::Bootstrap),
        2 => Ok(ProtocolAuthorityModeV1::DaoControlled),
        _ => Err(CustomError::InvalidProtocolAuthorityMode),
    }
}

/// The authority-control address and bump bound to `governance_config`.
/// Deriving it fails only where no bump seed gives an address, which the
/// `requires` leaves out.
pub fn expected_protocol_authority_control_key_and_bump(governance_config: Pubkey) -> (r: (Pubkey, u8))
    requires
        spec_authority_control_address(governance_config) is Some,
    ensures
        Some(r) == spec_authority_control_address(governance_config),
{
    try_expected_protocol_authority_control_key_and_bump(governance_config).unwrap()
}

/// The authority-control address and bump bound to `governance_config`, or
/// `None` where no bump seed gives one.
pub fn try_expected_protocol_authority_control_key_and_bump(governance_config: Pubkey) -> (r: Option<(Pubkey, u8)>)
    ensures
        r == spec_authority_control_address(governance_config),
{
    seed_and_key_address(Seed::ProtocolAuthorityControlV1, governance_config)
}

/// Only Bootstrap -> DaoControlled is allowed.
pub fn validate_protocol_authority_mode_transition_v1(
    current_mode: ProtocolAuthorityModeV1,
    next_mode: ProtocolAuthorityModeV1,
) -> (r: ProgramResult<()>)
    ensures
        r == guard(
            current_mode == ProtocolAuthorityModeV1::Bootstrap && next_mode == ProtocolAuthorityModeV1::DaoControlled,
            CustomError::InvalidProtocolAuthorityModeTransition,
            Ok(()),
        ),
{
    if current_mode == ProtocolAuthorityModeV1::Bootstrap && next_mode == ProtocolAuthorityModeV1::DaoControlled {
        Ok(())
    } else {
        Err(CustomError::InvalidProtocolAuthorityModeTransition)
    }
}

/// The outcome of checking that an authority-control account belongs to a governance config.
pub open spec fn spec_binding(
    governance_config: GovernanceConfigV1,
    control: ProtocolAuthorityControlV1,
    control_key: Pubkey,
    governance_config_key: Pubkey,
) -> ProgramResult<()> {
    guard(control.schema_version == PROTOCOL_AUTHORITY_SCHEMA_VERSION_V1, CustomError::InvalidProtocolAuthoritySchema,
    guard(control.governance_config == governance_config_key, CustomError::ProtocolAuthorityControlMismatch,
    guard(control.bootstrap_authority == governance_config.authority, CustomError::ProtocolAuthorityControlMismatch,
    guard(control.emergency_guardian == governance_config.emergency_guardian, CustomError::ProtocolAuthorityControlMismatch,
    guard(spec_authority_control_address(governance_config_key) == Some((control_key, control.bump)),
        CustomError::ProtocolAuthorityControlMismatch,
    Ok(()))))))
}

/// An authority-control account must carry the current schema, name the
/// governance config, mirror its authority and guardian, and sit at its address.
pub fn validate_protocol_authority_control_binding_v1(
    governance_config: &GovernanceConfigV1,
    authority_control: &ProtocolAuthorityControlV1,
    authority_control_key: Pubkey,
    governance_config_key: Pubkey,
) -> (r: ProgramResult<()>)
    ensures
        r == spec_binding(*governance_config, *authority_control, authority_control_key, governance_config_key),
{
    if authority_control.schema_version != PROTOCOL_AUTHORITY_SCHEMA_VERSION_V1 {
        return Err(CustomError::InvalidProtocolAuthoritySchema);
    }
    if authority_control.governance_config != governance_config_key {
        return Err(CustomError::ProtocolAuthorityControlMismatch);
    }
    if authority_control.bootstrap_authority != governance_config.authority {
        return Err(CustomError::ProtocolAuthorityControlMismatch);
    }
    if authority_control.emergency_guardian != governance_config.emergency_guardian {
        return Err(CustomError::ProtocolAuthorityControlMismatch);
    }
    let expected = seed_and_key_address(Seed::ProtocolAuthorityControlV1, governance_config_key);
    if !is_derived_address(expected, authority_control_key, authority_control.bump) {
        return Err(CustomError::ProtocolAuthorityControlMismatch);
    }
    let _ = protocol_authority_mode_stable_code_v1(authority_control.mode);
    Ok(())
}

/// The legacy (bootstrap) authority may act only while the protocol is in
/// Bootstrap mode and the control account mirrors the governance config.
pub fn validate_legacy_security_authority_allowed_v1(
    governance_config: &GovernanceConfigV1,
    authority_control: &ProtocolAuthorityControlV1,
    authority: Pubkey,
) -> (r: ProgramResult<()>)
    ensures
        r == guard(authority == governance_config.authority, CustomError::UnauthorizedSecurityAuthority,
            guard(authority_control.schema_version == PROTOCOL_AUTHORITY_SCHEMA_VERSION_V1, CustomError::InvalidProtocolAuthoritySchema,
            guard(authority_control.bootstrap_authority == governance_config.authority, CustomError::ProtocolAuthorityControlMismatch,
            guard(authority_control.emergency_guardian == governance_config.emergency_guardian, CustomError::ProtocolAuthorityControlMismatch,
            guard(authority_control.mode == ProtocolAuthorityModeV1::Bootstrap, CustomError::ProtocolAuthorityControlNotBootstrap,
            Ok(())))))),
{
    if authority != governance_config.authority {
        return Err(CustomError::UnauthorizedSecurityAuthority);
    }
    if authority_control.schema_version != PROTOCOL_AUTHORITY_SCHEMA_VERSION_V1 {
        return Err(CustomError::InvalidProtocolAuthoritySchema);
    }
    if authority_control.bootstrap_authority != governance_config.authority {
        return Err(CustomError::ProtocolAuthorityControlMismatch);
    }
    if authority_control.emergency_guardian != governance_config.emergency_guardian {
        return Err(CustomError::ProtocolAuthorityControlMismatch);
    }
    if authority_control.mode != ProtocolAuthorityModeV1::Bootstrap {
        return Err(CustomError::ProtocolAuthorityControlNotBootstrap);
    }
    Ok(())
}

/// Creates the authority-control account in Bootstrap mode, bound to the
/// governance config; only the governance authority may.
pub fn initialize_protocol_authority_control_state(
    governance_config: &GovernanceConfigV1,
    authority_control: &mut ProtocolAuthorityControlV1,
    authority_control_key: Pubkey,
    authority: Pubkey,
    now_ts: i64,
    bump: u8,
) -> (r: ProgramResult<()>)
    ensures
        r == guard(authority == governance_config.authority, CustomError::UnauthorizedSecurityAuthority,
            guard(old(authority_control).governance_config == Key32::zero(), CustomError::ProtocolAuthorityControlMismatch,
            guard(match spec_governance_config_address() {
                    Some(governance_config_key) =>
                        spec_authority_control_address(governance_config_key) == Some((authority_control_key, bump)),
                    None => false,
                },
                CustomError::ProtocolAuthorityControlMismatch,
            Ok(())))),
        r is Err ==> *final(authority_control) == *old(authority_control),
        r is Ok ==> *final(authority_control) == (ProtocolAuthorityControlV1 {
            governance_config: spec_governance_config_address().unwrap(),
            mode: ProtocolAuthorityModeV1::Bootstrap,
            bootstrap_authority: governance_config.authority,
            emergency_guardian: governance_config.emergency_guardian,
            activation_governance_proposal: Key32::zero(),
            activation_proposal_decision: Key32::zero(),
            activation_execution_queue_item: Key32::zero(),
            activated_at: 0,
            schema_version: PROTOCOL_AUTHORITY_SCHEMA_VERSION_V1,
            bump,
            reserved: final(authority_control).reserved,
        }),
        r is Ok ==> final(authority_control).reserved@ == Seq::new(64, |i: int| 0u8),
{
    if authority != governance_config.authority {
        return Err(CustomError::UnauthorizedSecurityAuthority);
    }
    if authority_control.governance_config != Key32::default() {
        return Err(CustomError::ProtocolAuthorityControlMismatch);
    }
    let governance_config_key = match single_seed_address(Seed::GovernanceConfigV1) {
        Some((address, _)) => address,
        None => return Err(CustomError::ProtocolAuthorityControlMismatch),
    };
    let expected = seed_and_key_address(Seed::ProtocolAuthorityControlV1, governance_config_key);
    if !is_derived_address(expected, authority_control_key, bump) {
        return Err(CustomError::ProtocolAuthorityControlMismatch);
    }
    authority_control.governance_config = governance_config_key;
    authority_control.mode = ProtocolAuthorityModeV1::Bootstrap;
    authority_control.bootstrap_authority = governance_config.authority;
    authority_control.emergency_guardian = governance_config.emergency_guardian;
    authority_control.activation_governance_proposal = Key32::default();
    authority_control.activation_proposal_decision = Key32::default();
    authority_control.activation_execution_queue_item = Key32::default();
    authority_control.activated_at = 0;
    authority_control.schema_version = PROTOCOL_AUTHORITY_SCHEMA_VERSION_V1;
    authority_control.bump = bump;
    authority_control.reserved = [0u8; 64];
    assert(authority_control.reserved@ =~= Seq::new(64, |i: int| 0u8));
    let _ = now_ts;
    Ok(())
}

/// The outcome of checking DAO-activation parameters.
pub open spec fn spec_validate_activate_parameters(p: ProtocolActivateDaoControlParametersV1) -> ProgramResult<()> {
    guard(p.schema_version == PROTOCOL_AUTHORITY_SCHEMA_VERSION_V1, CustomError::InvalidProtocolAuthoritySchema,
    guard(p.expected_mode == ProtocolAuthorityModeV1::Bootstrap && p.next_mode == ProtocolAuthorityModeV1::DaoControlled,
        CustomError::InvalidProtocolAuthorityModeTransition,
    guard(p.action_type == GovernanceActionTypeV1::ProtocolActivateDaoControl, CustomError::ProtocolAuthorityActionMismatch,
    guard(p.authority_control != Key32::zero() && p.governance_config != Key32::zero()
        && p.current_authority != Key32::zero() && p.emergency_guardian != Key32::zero()
        && p.governance_proposal != Key32::zero() && p.governance_proposal_action != Key32::zero()
        && p.proposal_decision != Key32::zero() && p.execution_queue_item != Key32::zero(),
        CustomError::ProtocolAuthorityParametersMismatch,
    Ok(())))))
}

pub fn validate_protocol_activate_dao_control_parameters_v1(parameters: &ProtocolActivateDaoControlParametersV1) -> (r: ProgramResult<()>)
    ensures
        r == spec_validate_activate_parameters(*parameters),
{
    if parameters.schema_version != PROTOCOL_AUTHORITY_SCHEMA_VERSION_V1 {
        return Err(CustomError::InvalidProtocolAuthoritySchema);
    }
    validate_protocol_authority_mode_transition_v1(parameters.expected_mode, parameters.next_mode)?;
    if parameters.action_type != GovernanceActionTypeV1::ProtocolActivateDaoControl {
        return Err(CustomError::ProtocolAuthorityActionMismatch);
    }
    if !(parameters.authority_control != Key32::default() && parameters.governance_config != Key32::default()
        && parameters.current_authority != Key32::default() && parameters.emergency_guardian != Key32::default()
        && parameters.governance_proposal != Key32::default() && parameters.governance_proposal_action != Key32::default()
        && parameters.proposal_decision != Key32::default() && parameters.execution_queue_item != Key32::default()) {
        return Err(CustomError::ProtocolAuthorityParametersMismatch);
    }
    Ok(())
}

/// The DAO-activation parameters for the given accounts.
pub open spec fn spec_activate_parameters(
    authority_control: Pubkey,
    governance_config: Pubkey,
    current_authority: Pubkey,
    emergency_guardian: Pubkey,
    governance_proposal: Pubkey,
    governance_proposal_action: Pubkey,
    proposal_decision: Pubkey,
    execution_queue_item: Pubkey,
) -> ProtocolActivateDaoControlParametersV1 {
    ProtocolActivateDaoControlParametersV1 {
        schema_version: PROTOCOL_AUTHORITY_SCHEMA_VERSION_V1,
        authority_control,
        governance_config,
        expected_mode: ProtocolAuthorityModeV1::Bootstrap,
        next_mode: ProtocolAuthorityModeV1::DaoControlled,
        current_authority,
        emergency_guardian,
        governance_proposal,
        governance_proposal_action,
        proposal_decision,
        execution_queue_item,
        action_type: GovernanceActionTypeV1::ProtocolActivateDaoControl,
    }
}

/// Builds the DAO-activation parameters; every key must be set.
#[allow(clippy::too_many_arguments)]
pub fn build_protocol_activate_dao_control_parameters_v1(
    authority_control: Pubkey,
    governance_config: Pubkey,
    current_authority: Pubkey,
    emergency_guardian: Pubkey,
    governance_proposal: Pubkey,
    governance_proposal_action: Pubkey,
    proposal_decision: Pubkey,
    execution_queue_item: Pubkey,
) -> (r: ProgramResult<ProtocolActivateDaoControlParametersV1>)
    ensures
        ({
            let p = spec_activate_parameters(authority_control, governance_config, current_authority,
                emergency_guardian, governance_proposal, governance_proposal_action, proposal_decision, execution_queue_item);
            match spec_validate_activate_parameters(p) {
                Ok(_) => r == Ok::<ProtocolActivateDaoControlParametersV1, CustomError>(p),
                Err(e) => r == Err::<ProtocolActivateDaoControlParametersV1, CustomError>(e),
            }
        }),
{
    let parameters = ProtocolActivateDaoControlParametersV1 {
        schema_version: PROTOCOL_AUTHORITY_SCHEMA_VERSION_V1,
        authority_control,
        governance_config,
        expected_mode: ProtocolAuthorityModeV1::Bootstrap,
        next_mode: ProtocolAuthorityModeV1::DaoControlled,
        current_authority,
        emergency_guardian,
        governance_proposal,
        governance_proposal_action,
        proposal_decision,
        execution_queue_item,
        action_type: GovernanceActionTypeV1::ProtocolActivateDaoControl,
    };
    validate_protocol_activate_dao_control_parameters_v1(&parameters)?;
    Ok(parameters)
}

/// What DAO-activation parameters are hashed as: the domain separator and
/// the parameters.
#[derive(Clone, Debug, PartialEq, Eq)]
pub struct ProtocolActivateDaoControlHashEnvelopeV1 {
    pub domain_separator: Vec<u8>,
    pub parameters: ProtocolActivateDaoControlParametersV1,
}

/// Borsh encoding of the DAO-activation hash envelope: the domain separator as
/// a byte vector, then the parameters.
pub open spec fn spec_activate_envelope_bytes(p: ProtocolActivateDaoControlParametersV1) -> Seq<u8> {
    le_u32(spec_domain(Domain::ProtocolActivateDaoControl).len() as u32)
        + spec_domain(Domain::ProtocolActivateDaoControl)
        + spec_activate_parameters_bytes(p)
}

/// Borsh encoding of DAO-activation parameters.
pub open spec fn spec_activate_parameters_bytes(p: ProtocolActivateDaoControlParametersV1) -> Seq<u8> {
    le_u16(p.schema_version)
        + key_bytes(p.authority_control)
        + key_bytes(p.governance_config)
        + seq![spec_protocol_authority_mode_v1_tag(p.expected_mode)]
        + seq![spec_protocol_authority_mode_v1_tag(p.next_mode)]
        + key_bytes(p.current_authority)
        + key_bytes(p.emergency_guardian)
        + key_bytes(p.governance_proposal)
        + key_bytes(p.governance_proposal_action)
        + key_bytes(p.proposal_decision)
        + key_bytes(p.execution_queue_item)
        + seq![spec_governance_action_type_v1_tag(p.action_type)]
}

/// Hashes valid DAO-activation parameters under their domain separator.
pub fn hash_protocol_activate_dao_control_parameters_v1(parameters: &ProtocolActivateDaoControlParametersV1) -> (r: ProgramResult<Hash32>)
    ensures
        match spec_validate_activate_parameters(*parameters) {
            Ok(_) => r == Ok::<Hash32, CustomError>(spec_hash_encoded(spec_activate_envelope_bytes(*parameters))),
            Err(e) => r == Err::<Hash32, CustomError>(e),
        },
{
    validate_protocol_activate_dao_control_parameters_v1(parameters)?;
    let mut domain: Vec<u8> = Vec::new();
    push_domain(&mut domain, Domain::ProtocolActivateDaoControl);
    let envelope = ProtocolActivateDaoControlHashEnvelopeV1 { domain_separator: domain, parameters: *parameters };
    let mut bytes: Vec<u8> = Vec::new();
    envelope.serialize(&mut bytes)?;
    assert(bytes@ =~= spec_activate_envelope_bytes(*parameters));
    Ok(hash_encoded(&bytes))
}

impl ProtocolActivateDaoControlHashEnvelopeV1 {
    /// Appends the Borsh encoding of the envelope to `out`.
    pub fn serialize(&self, out: &mut Vec<u8>) -> (r: ProgramResult<()>)
        requires
            self.domain_separator@.len() <= u32::MAX,
        ensures
            r is Ok,
            final(out)@ == old(out)@ + le_u32(self.domain_separator@.len() as u32) + self.domain_separator@
                + spec_activate_parameters_bytes(self.parameters),
    {
        let p = &self.parameters;
        push_u32(out, self.domain_separator.len() as u32);
        push_bytes(out, self.domain_separator.as_slice());
        push_u16(out, p.schema_version);
        push_key(out, p.authority_control);
        push_key(out, p.governance_config);
        push_u8(out, protocol_authority_mode_v1_tag(p.expected_mode));
        push_u8(out, protocol_authority_mode_v1_tag(p.next_mode));
        push_key(out, p.current_authority);
        push_key(out, p.emergency_guardian);
        push_key(out, p.governance_proposal);
        push_key(out, p.governance_proposal_action);
        push_key(out, p.proposal_decision);
        push_key(out, p.execution_queue_item);
        push_u8(out, governance_action_type_v1_tag(p.action_type));
        assert(out@ =~= old(out)@ + le_u32(self.domain_separator@.len() as u32) + self.domain_separator@
            + spec_activate_parameters_bytes(self.parameters));
        Ok(())
    }
}

/// The outcome of checking Security Layer unpause parameters.
pub open spec fn spec_validate_unpause_parameters(p: ProtocolUnpauseSecurityParametersV1) -> ProgramResult<()> {
    guard(p.schema_version == PROTOCOL_AUTHORITY_SCHEMA_VERSION_V1, CustomError::InvalidProtocolAuthoritySchema,
    guard(p.expected_mode == ProtocolAuthorityModeV1::DaoControlled && p.expected_paused && !p.next_paused,
        CustomError::ProtocolAuthorityParametersMismatch,
    guard(p.action_type == GovernanceActionTypeV1::ProtocolUnpauseSecurity, CustomError::ProtocolAuthorityActionMismatch,
    guard(p.authority_control != Key32::zero() && p.governance_config != Key32::zero()
        && p.governance_proposal != Key32::zero() && p.governance_proposal_action != Key32::zero()
        && p.proposal_decision != Key32::zero() && p.execution_queue_item != Key32::zero() && p.proposal_id > 0,
        CustomError::ProtocolAuthorityParametersMismatch,
    Ok(())))))
}

pub fn validate_protocol_unpause_security_parameters_v1(parameters: &ProtocolUnpauseSecurityParametersV1) -> (r: ProgramResult<()>)
    ensures
        r == spec_validate_unpause_parameters(*parameters),
{
    if parameters.schema_version != PROTOCOL_AUTHORITY_SCHEMA_VERSION_V1 {
        return Err(CustomError::InvalidProtocolAuthoritySchema);
    }
    if !(parameters.expected_mode == ProtocolAuthorityModeV1::DaoControlled && parameters.expected_paused
        && !parameters.next_paused) {
        return Err(CustomError::ProtocolAuthorityParametersMismatch);
    }
    if parameters.action_type != GovernanceActionTypeV1::ProtocolUnpauseSecurity {
        return Err(CustomError::ProtocolAuthorityActionMismatch);
    }
    if !(parameters.authority_control != Key32::default() && parameters.governance_config != Key32::default()
        && parameters.governance_proposal != Key32::default() && parameters.governance_proposal_action != Key32::default()
        && parameters.proposal_decision != Key32::default() && parameters.execution_queue_item != Key32::default()
        && parameters.proposal_id > 0) {
        return Err(CustomError::ProtocolAuthorityParametersMismatch);
    }
    Ok(())
}

/// The unpause parameters for the given accounts and proposal.
pub open spec fn spec_unpause_parameters(
    authority_control: Pubkey,
    governance_config: Pubkey,
    governance_proposal: Pubkey,
    governance_proposal_action: Pubkey,
    proposal_decision: Pubkey,
    execution_queue_item: Pubkey,
    proposal_id: u64,
) -> ProtocolUnpauseSecurityParametersV1 {
    ProtocolUnpauseSecurityParametersV1 {
        schema_version: PROTOCOL_AUTHORITY_SCHEMA_VERSION_V1,
        authority_control,
        governance_config,
        expected_mode: ProtocolAuthorityModeV1::DaoControlled,
        expected_paused: true,
        next_paused: false,
        action_type: GovernanceActionTypeV1::ProtocolUnpauseSecurity,
        governance_proposal,
        governance_proposal_action,
        proposal_decision,
        execution_queue_item,
        proposal_id,
    }
}

/// Builds the unpause parameters; every key must be set and the id positive.
pub fn build_protocol_unpause_security_parameters_v1(
    authority_control: Pubkey,
    governance_config: Pubkey,
    governance_proposal: Pubkey,
    governance_proposal_action: Pubkey,
    proposal_decision: Pubkey,
    execution_queue_item: Pubkey,
    proposal_id: u64,
) -> (r: ProgramResult<ProtocolUnpauseSecurityParametersV1>)
    ensures
        ({
            let p = spec_unpause_parameters(authority_control, governance_config, governance_proposal,
                governance_proposal_action, proposal_decision, execution_queue_item, proposal_id);
            match spec_validate_unpause_parameters(p) {
                Ok(_) => r == Ok::<ProtocolUnpauseSecurityParametersV1, CustomError>(p),
                Err(e) => r == Err::<ProtocolUnpauseSecurityParametersV1, CustomError>(e),
            }
        }),
{
    let parameters = ProtocolUnpauseSecurityParametersV1 {
        schema_version: PROTOCOL_AUTHORITY_SCHEMA_VERSION_V1,
        authority_control,
        governance_config,
        expected_mode: ProtocolAuthorityModeV1::DaoControlled,
        expected_paused: true,
        next_paused: false,
        action_type: GovernanceActionTypeV1::ProtocolUnpauseSecurity,
        governance_proposal,
        governance_proposal_action,
        proposal_decision,
        execution_queue_item,
        proposal_id,
    };
    validate_protocol_unpause_security_parameters_v1(&parameters)?;
    Ok(parameters)
}

/// What unpause parameters are hashed as: the domain separator and the
/// parameters.
#[derive(Clone, Debug, PartialEq, Eq)]
pub struct ProtocolUnpauseSecurityHashEnvelopeV1 {
    pub domain_separator: Vec<u8>,
    pub parameters: ProtocolUnpauseSecurityParametersV1,
}

/// Borsh encoding of the unpause hash envelope.
pub open spec fn spec_unpause_envelope_bytes(p: ProtocolUnpauseSecurityParametersV1) -> Seq<u8> {
    le_u32(spec_domain(Domain::ProtocolUnpauseSecurity).len() as u32)
        + spec_domain(Domain::ProtocolUnpauseSecurity)
        + spec_unpause_parameters_bytes(p)
}

/// Borsh encoding of unpause parameters.
pub open spec fn spec_unpause_parameters_bytes(p: ProtocolUnpauseSecurityParametersV1) -> Seq<u8> {
    le_u16(p.schema_version)
        + key_bytes(p.authority_control)
        + key_bytes(p.governance_config)
        + seq![spec_protocol_authority_mode_v1_tag(p.expected_mode)]
        + bool_byte(p.expected_paused)
        + bool_byte(p.next_paused)
        + seq![spec_governance_action_type_v1_tag(p.action_type)]
        + key_bytes(p.governance_proposal)
        + key_bytes(p.governance_proposal_action)
        + key_bytes(p.proposal_decision)
        + key_bytes(p.execution_queue_item)
        + le_u64(p.proposal_id)
}

/// Hashes valid unpause parameters under their domain separator.
pub fn hash_protocol_unpause_security_parameters_v1(parameters: &ProtocolUnpauseSecurityParametersV1) -> (r: ProgramResult<Hash32>)
    ensures
        match spec_validate_unpause_parameters(*parameters) {
            Ok(_) => r == Ok::<Hash32, CustomError>(spec_hash_encoded(spec_unpause_envelope_bytes(*parameters))),
            Err(e) => r == Err::<Hash32, CustomError>(e),
        },
{
    validate_protocol_unpause_security_parameters_v1(parameters)?;
    let mut domain: Vec<u8> = Vec::new();
    push_domain(&mut domain, Domain::ProtocolUnpauseSecurity);
    let envelope = ProtocolUnpauseSecurityHashEnvelopeV1 { domain_separator: domain, parameters: *parameters };
    let mut bytes: Vec<u8> = Vec::new();
    envelope.serialize(&mut bytes)?;
    assert(bytes@ =~= spec_unpause_envelope_bytes(*parameters));
    Ok(hash_encoded(&bytes))
}

/// The first part of the unpause parameters' encoding: up to the action type.
pub open spec fn spec_unpause_parameters_head(p: ProtocolUnpauseSecurityParametersV1) -> Seq<u8> {
    le_u16(p.schema_version) + key_bytes(p.authority_control) + key_bytes(p.governance_config)
        + seq![spec_protocol_authority_mode_v1_tag(p.expected_mode)] + bool_byte(p.expected_paused)
        + bool_byte(p.next_paused) + seq![spec_governance_action_type_v1_tag(p.action_type)]
}

/// The rest of the unpause parameters' encoding.
pub open spec fn spec_unpause_parameters_tail(p: ProtocolUnpauseSecurityParametersV1) -> Seq<u8> {
    key_bytes(p.governance_proposal) + key_bytes(p.governance_proposal_action) + key_bytes(p.proposal_decision)
        + key_bytes(p.execution_queue_item) + le_u64(p.proposal_id)
}

fn push_unpause_parameters_head(out: &mut Vec<u8>, p: &ProtocolUnpauseSecurityParametersV1)
    ensures
        final(out)@ == old(out)@ + spec_unpause_parameters_head(*p),
{
    push_u16(out, p.schema_version);
    push_key(out, p.authority_control);
    push_key(out, p.governance_config);
    push_u8(out, protocol_authority_mode_v1_tag(p.expected_mode));
    push_bool(out, p.expected_paused);
    push_bool(out, p.next_paused);
    push_u8(out, governance_action_type_v1_tag(p.action_type));
    assert(out@ =~= old(out)@ + spec_unpause_parameters_head(*p));
}

fn push_unpause_parameters_tail(out: &mut Vec<u8>, p: &ProtocolUnpauseSecurityParametersV1)
    ensures
        final(out)@ == old(out)@ + spec_unpause_parameters_tail(*p),
{
    push_key(out, p.governance_proposal);
    push_key(out, p.governance_proposal_action);
    push_key(out, p.proposal_decision);
    push_key(out, p.execution_queue_item);
    push_u64(out, p.proposal_id);
    assert(out@ =~= old(out)@ + spec_unpause_parameters_tail(*p));
}

fn push_unpause_parameters(out: &mut Vec<u8>, p: &ProtocolUnpauseSecurityParametersV1)
    ensures
        final(out)@ == old(out)@ + spec_unpause_parameters_bytes(*p),
{
    push_unpause_parameters_head(out, p);
    push_unpause_parameters_tail(out, p);
    assert(spec_unpause_parameters_bytes(*p) =~= spec_unpause_parameters_head(*p) + spec_unpause_parameters_tail(*p));
    assert(out@ =~= old(out)@ + spec_unpause_parameters_bytes(*p));
}

impl ProtocolUnpauseSecurityHashEnvelopeV1 {
    /// Appends the Borsh encoding of the envelope to `out`.
    pub fn serialize(&self, out: &mut Vec<u8>) -> (r: ProgramResult<()>)
        requires
            self.domain_separator@.len() <= u32::MAX,
        ensures
            r is Ok,
            final(out)@ == old(out)@ + le_u32(self.domain_separator@.len() as u32) + self.domain_separator@
                + spec_unpause_parameters_bytes(self.parameters),
    {
        push_u32(out, self.domain_separator.len() as u32);
        push_bytes(out, self.domain_separator.as_slice());
        push_unpause_parameters(out, &self.parameters);
        assert(out@ =~= old(out)@ + le_u32(self.domain_separator@.len() as u32) + self.domain_separator@
            + spec_unpause_parameters_bytes(self.parameters));
        Ok(())
    }
}

/// First part of the governance chain: authority control, a passed proposal,
/// its action (type, module, target program, Security Layer action) and the
/// Protocol module registry.
pub open spec fn spec_chain_proposal_part(
    governance_config: GovernanceConfigV1,
    authority_control: ProtocolAuthorityControlV1,
    registry: ProtocolModuleRegistryV1,
    proposal: GovernanceProposalV1,
    action: GovernanceProposalActionV1,
    authority_control_key: Pubkey,
    governance_config_key: Pubkey,
    registry_key: Pubkey,
    proposal_key: Pubkey,
    expected_action: GovernanceActionTypeV1,
    expected_security_action: ActionType,
) -> ProgramResult<()> {
    if spec_binding(governance_config, authority_control, authority_control_key, governance_config_key) is Err {
        spec_binding(governance_config, authority_control, authority_control_key, governance_config_key)
    } else if proposal.status != GovernanceProposalStatusV1::Passed {
        Err(CustomError::InvalidGovernanceProposal)
    } else if spec_validate_proposal_action(proposal, action, proposal_key) is Err {
        spec_validate_proposal_action(proposal, action, proposal_key)
    } else if action.action_type != expected_action {
        Err(CustomError::ProtocolAuthorityActionMismatch)
    } else if action.module_id != ProtocolModuleIdV1::Protocol {
        Err(CustomError::GovernanceActionModuleMismatch)
    } else if spec_action_module(action.action_type) != ProtocolModuleIdV1::Protocol {
        Err(CustomError::GovernanceActionModuleMismatch)
    } else if action.target_program != spec_program_id() {
        Err(CustomError::ProtocolAuthorityTargetMismatch)
    } else if spec_security_action(action.action_type) != expected_security_action {
        Err(CustomError::ProtocolAuthorityActionMismatch)
    } else {
        spec_validate_registry(registry, registry_key, governance_config_key, ProtocolModuleIdV1::Protocol, spec_program_id())
    }
}

/// Second part of the governance chain: the canonical payload hash and the
/// decision adapter.
pub open spec fn spec_chain_adapter_part(
    proposal: GovernanceProposalV1,
    action: GovernanceProposalActionV1,
    adapter: UniversalGovernanceDecisionAdapterV1,
    proposal_key: Pubkey,
    proposal_decision_key: Pubkey,
    expected_security_action: ActionType,
) -> ProgramResult<()> {
    let canonical = spec_canonical_payload_hash(action);
    if canonical != action.canonical_payload_hash {
        Err(CustomError::ProtocolAuthorityParametersMismatch)
    } else if proposal.payload_hash != canonical {
        Err(CustomError::ProtocolAuthorityParametersMismatch)
    } else if adapter.governance_proposal != proposal_key {
        Err(CustomError::InvalidGovernanceDecisionAdapter)
    } else if adapter.proposal_decision != proposal_decision_key {
        Err(CustomError::InvalidGovernanceDecisionAdapter)
    } else if adapter.action_type != expected_security_action {
        Err(CustomError::ProtocolAuthorityActionMismatch)
    } else if adapter.target_program != action.target_program {
        Err(CustomError::ProtocolAuthorityTargetMismatch)
    } else if adapter.target_account != action.target_account {
        Err(CustomError::ProtocolAuthorityTargetMismatch)
    } else if adapter.payload_hash != canonical {
        Err(CustomError::ProtocolAuthorityParametersMismatch)
    } else if !adapter.executed {
        Err(CustomError::InvalidGovernanceDecisionAdapter)
    } else {
        Ok(())
    }
}

/// Last part of the governance chain: the Security Layer decision and queue item.
pub open spec fn spec_chain_queue_part(
    proposal: GovernanceProposalV1,
    action: GovernanceProposalActionV1,
    decision: ProposalDecisionV1,
    queue: ExecutionQueueItemV1,
    expected_security_action: ActionType,
    expected_queue_status: ExecutionStatus,
) -> ProgramResult<()> {
    if spec_proposal_type_for_action(expected_security_action) is None {
        Err(CustomError::InvalidActionForProposalType)
    } else if !(decision.proposal_id == proposal.proposal_id && decision.proposer == proposal.proposer
        && decision.proposal_type == spec_proposal_type_for_action(expected_security_action)->Some_0
        && decision.decision == ProposalDecision::Approved) {
        Err(CustomError::InvalidProposalDecision)
    } else if !(queue.proposal_id == proposal.proposal_id && queue.proposer == proposal.proposer
        && queue.action_type == expected_security_action && queue.decision == ProposalDecision::Approved
        && queue.status == expected_queue_status) {
        Err(CustomError::InvalidExecutionStatus)
    } else if queue.target_program != action.target_program {
        Err(CustomError::ProtocolAuthorityTargetMismatch)
    } else if queue.target_account != action.target_account {
        Err(CustomError::ProtocolAuthorityTargetMismatch)
    } else if queue.payload_hash != spec_canonical_payload_hash(action) {
        Err(CustomError::ProtocolAuthorityParametersMismatch)
    } else {
        Ok(())
    }
}

/// The outcome of checking the whole governance chain behind a protocol
/// action; on success it yields the canonical payload hash.
pub open spec fn spec_common_chain(
    governance_config: GovernanceConfigV1,
    authority_control: ProtocolAuthorityControlV1,
    registry: ProtocolModuleRegistryV1,
    proposal: GovernanceProposalV1,
    action: GovernanceProposalActionV1,
    adapter: UniversalGovernanceDecisionAdapterV1,
    decision: ProposalDecisionV1,
    queue: ExecutionQueueItemV1,
    authority_control_key: Pubkey,
    governance_config_key: Pubkey,
    registry_key: Pubkey,
    proposal_key: Pubkey,
    proposal_decision_key: Pubkey,
    expected_action: GovernanceActionTypeV1,
    expected_security_action: ActionType,
    expected_queue_status: ExecutionStatus,
) -> ProgramResult<Hash32> {
    and_then(spec_chain_proposal_part(governance_config, authority_control, registry, proposal, action,
        authority_control_key, governance_config_key, registry_key, proposal_key, expected_action, expected_security_action),
    and_then(spec_chain_adapter_part(proposal, action, adapter, proposal_key, proposal_decision_key, expected_security_action),
    and_then(spec_chain_queue_part(proposal, action, decision, queue, expected_security_action, expected_queue_status),
    Ok(spec_canonical_payload_hash(action)))))
}

/// Checks the governance chain behind a protocol action and returns the
/// canonical payload hash it authorizes.
#[allow(clippy::too_many_arguments)]
pub fn validate_common_protocol_governance_chain_v1(
    governance_config: &GovernanceConfigV1,
    authority_control: &ProtocolAuthorityControlV1,
    protocol_module_registry: &ProtocolModuleRegistryV1,
    governance_proposal: &GovernanceProposalV1,
    governance_proposal_action: &GovernanceProposalActionV1,
    governance_decision_adapter: &UniversalGovernanceDecisionAdapterV1,
    proposal_decision: &ProposalDecisionV1,
    execution_queue_item: &ExecutionQueueItemV1,
    authority_control_key: Pubkey,
    governance_config_key: Pubkey,
    protocol_module_registry_key: Pubkey,
    governance_proposal_key: Pubkey,
    governance_proposal_action_key: Pubkey,
    proposal_decision_key: Pubkey,
    execution_queue_item_key: Pubkey,
    expected_action: GovernanceActionTypeV1,
    expected_security_action: ActionType,
    expected_queue_status: ExecutionStatus,
) -> (r: ProgramResult<Hash32>)
    ensures
        r == spec_common_chain(*governance_config, *authority_control, *protocol_module_registry,
            *governance_proposal, *governance_proposal_action, *governance_decision_adapter,
            *proposal_decision, *execution_queue_item, authority_control_key, governance_config_key,
            protocol_module_registry_key, governance_proposal_key, proposal_decision_key,
            expected_action, expected_security_action, expected_queue_status),
{
    validate_protocol_authority_control_binding_v1(governance_config, authority_control, authority_control_key, governance_config_key)?;
    if governance_proposal.status != GovernanceProposalStatusV1::Passed {
        return Err(CustomError::InvalidGovernanceProposal);
    }
    validate_governance_proposal_action_v1(governance_proposal, governance_proposal_action, governance_proposal_key)?;
    if governance_proposal_action.action_type != expected_action {
        return Err(CustomError::ProtocolAuthorityActionMismatch);
    }
    if governance_proposal_action.module_id != ProtocolModuleIdV1::Protocol {
        return Err(CustomError::GovernanceActionModuleMismatch);
    }
    if map_governance_action_to_module(governance_proposal_action.action_type) != ProtocolModuleIdV1::Protocol {
        return Err(CustomError::GovernanceActionModuleMismatch);
    }
    if governance_proposal_action.target_program != program_id() {
        return Err(CustomError::ProtocolAuthorityTargetMismatch);
    }
    let expected_action_from_mapping = map_governance_action_to_security_action(governance_proposal_action.action_type)?;
    if expected_action_from_mapping != expected_security_action {
        return Err(CustomError::ProtocolAuthorityActionMismatch);
    }
    validate_protocol_module_registry_v1(protocol_module_registry, protocol_module_registry_key,
        governance_config_key, ProtocolModuleIdV1::Protocol, program_id())?;
    let canonical_hash = canonical_governance_payload_hash_for_action_v1(governance_proposal_action)?;
    if canonical_hash != governance_proposal_action.canonical_payload_hash {
        return Err(CustomError::ProtocolAuthorityParametersMismatch);
    }
    if governance_proposal.payload_hash != canonical_hash {
        return Err(CustomError::ProtocolAuthorityParametersMismatch);
    }
    if governance_decision_adapter.governance_proposal != governance_proposal_key {
        return Err(CustomError::InvalidGovernanceDecisionAdapter);
    }
    if governance_decision_adapter.proposal_decision != proposal_decision_key {
        return Err(CustomError::InvalidGovernanceDecisionAdapter);
    }
    if governance_decision_adapter.action_type != expected_security_action {
        return Err(CustomError::ProtocolAuthorityActionMismatch);
    }
    if governance_decision_adapter.target_program != governance_proposal_action.target_program {
        return Err(CustomError::ProtocolAuthorityTargetMismatch);
    }
    if governance_decision_adapter.target_account != governance_proposal_action.target_account {
        return Err(CustomError::ProtocolAuthorityTargetMismatch);
    }
    if governance_decision_adapter.payload_hash != canonical_hash {
        return Err(CustomError::ProtocolAuthorityParametersMismatch);
    }
    if !governance_decision_adapter.executed {
        return Err(CustomError::InvalidGovernanceDecisionAdapter);
    }
    let expected_proposal_type = security_proposal_type_for_action(expected_security_action)?;
    if !(proposal_decision.proposal_id == governance_proposal.proposal_id
        && proposal_decision.proposer == governance_proposal.proposer
        && proposal_decision.proposal_type == expected_proposal_type
        && proposal_decision.decision == ProposalDecision::Approved) {
        return Err(CustomError::InvalidProposalDecision);
    }
    if !(execution_queue_item.proposal_id == governance_proposal.proposal_id
        && execution_queue_item.proposer == governance_proposal.proposer
        && execution_queue_item.action_type == expected_security_action
        && execution_queue_item.decision == ProposalDecision::Approved
        && execution_queue_item.status == expected_queue_status) {
        return Err(CustomError::InvalidExecutionStatus);
    }
    if execution_queue_item.target_program != governance_proposal_action.target_program {
        return Err(CustomError::ProtocolAuthorityTargetMismatch);
    }
    if execution_queue_item.target_account != governance_proposal_action.target_account {
        return Err(CustomError::ProtocolAuthorityTargetMismatch);
    }
    if execution_queue_item.payload_hash != canonical_hash {
        return Err(CustomError::ProtocolAuthorityParametersMismatch);
    }
    let _ = governance_proposal_action_key;
    let _ = execution_queue_item_key;
    Ok(canonical_hash)
}

/// The checks of DAO activation before the governance chain, and the hash of
/// the activation parameters they yield.
pub open spec fn spec_activate_precheck(
    governance_config: GovernanceConfigV1,
    authority_control: ProtocolAuthorityControlV1,
    action: GovernanceProposalActionV1,
    activation_record: ProtocolDaoControlActivationRecordV1,
    authority_control_key: Pubkey,
    governance_config_key: Pubkey,
    proposal_key: Pubkey,
    action_key: Pubkey,
    proposal_decision_key: Pubkey,
    queue_key: Pubkey,
    current_authority: Pubkey,
) -> ProgramResult<Hash32> {
    let p = spec_activate_parameters(authority_control_key, governance_config_key, current_authority,
        governance_config.emergency_guardian, proposal_key, action_key, proposal_decision_key, queue_key);
    if activation_record.authority_control != Key32::zero() {
        Err(CustomError::ProtocolAuthorityReceiptAlreadyExists)
    } else if authority_control.mode != ProtocolAuthorityModeV1::Bootstrap {
        Err(CustomError::ProtocolAuthorityControlNotBootstrap)
    } else if current_authority != governance_config.authority {
        Err(CustomError::UnauthorizedSecurityAuthority)
    } else if current_authority != authority_control.bootstrap_authority {
        Err(CustomError::UnauthorizedSecurityAuthority)
    } else if action.target_account != authority_control_key {
        Err(CustomError::ProtocolAuthorityTargetMismatch)
    } else if spec_validate_activate_parameters(p) is Err {
        Err(spec_validate_activate_parameters(p)->Err_0)
    } else if action.parameters_hash != spec_hash_encoded(spec_activate_envelope_bytes(p)) {
        Err(CustomError::ProtocolAuthorityParametersMismatch)
    } else {
        Ok(spec_hash_encoded(spec_activate_envelope_bytes(p)))
    }
}

/// Switches the protocol from the bootstrap authority to DAO control, once,
/// after a passed and executed governance proposal; records the activation.
#[allow(clippy::too_many_arguments)]
pub fn execute_activate_protocol_dao_control_state(
    governance_config: &GovernanceConfigV1,
    authority_control: &mut ProtocolAuthorityControlV1,
    protocol_module_registry: &ProtocolModuleRegistryV1,
    governance_proposal: &GovernanceProposalV1,
    governance_proposal_action: &GovernanceProposalActionV1,
    governance_decision_adapter: &UniversalGovernanceDecisionAdapterV1,
    proposal_decision: &ProposalDecisionV1,
    execution_queue_item: &ExecutionQueueItemV1,
    activation_record: &mut ProtocolDaoControlActivationRecordV1,
    authority_control_key: Pubkey,
    governance_config_key: Pubkey,
    protocol_module_registry_key: Pubkey,
    governance_proposal_key: Pubkey,
    governance_proposal_action_key: Pubkey,
    proposal_decision_key: Pubkey,
    execution_queue_item_key: Pubkey,
    current_authority: Pubkey,
    executor: Pubkey,
    now_ts: i64,
    record_bump: u8,
) -> (r: ProgramResult<()>)
    ensures
        ({
            let pre = spec_activate_precheck(*governance_config, *old(authority_control), *governance_proposal_action,
                *old(activation_record), authority_control_key, governance_config_key, governance_proposal_key,
                governance_proposal_action_key, proposal_decision_key, execution_queue_item_key, current_authority);
            let chain = spec_common_chain(*governance_config, *old(authority_control), *protocol_module_registry,
                *governance_proposal, *governance_proposal_action, *governance_decision_adapter, *proposal_decision,
                *execution_queue_item, authority_control_key, governance_config_key, protocol_module_registry_key,
                governance_proposal_key, proposal_decision_key, GovernanceActionTypeV1::ProtocolActivateDaoControl,
                ActionType::ProtocolActivateDaoControl, ExecutionStatus::Executed);
            if pre is Err {
                r == Err::<(), CustomError>(pre->Err_0)
                    && *final(authority_control) == *old(authority_control)
                    && *final(activation_record) == *old(activation_record)
            } else if chain is Err {
                r == Err::<(), CustomError>(chain->Err_0)
                    && *final(authority_control) == *old(authority_control)
                    && *final(activation_record) == *old(activation_record)
            } else {
                &&& r is Ok
                &&& *final(activation_record) == (ProtocolDaoControlActivationRecordV1 {
                    authority_control: authority_control_key,
                    governance_config: governance_config_key,
                    governance_proposal: governance_proposal_key,
                    proposal_decision: proposal_decision_key,
                    execution_queue_item: execution_queue_item_key,
                    governance_proposal_action: governance_proposal_action_key,
                    current_authority,
                    emergency_guardian: governance_config.emergency_guardian,
                    mode_before: ProtocolAuthorityModeV1::Bootstrap,
                    mode_after: ProtocolAuthorityModeV1::DaoControlled,
                    parameters_hash: pre->Ok_0,
                    canonical_governance_payload_hash: chain->Ok_0,
                    executor,
                    executed_at: now_ts,
                    schema_version: PROTOCOL_AUTHORITY_SCHEMA_VERSION_V1,
                    bump: record_bump,
                    reserved: final(activation_record).reserved,
                })
                &&& final(activation_record).reserved@ == Seq::new(64, |i: int| 0u8)
                &&& *final(authority_control) == (ProtocolAuthorityControlV1 {
                    mode: ProtocolAuthorityModeV1::DaoControlled,
                    activation_governance_proposal: governance_proposal_key,
                    activation_proposal_decision: proposal_decision_key,
                    activation_execution_queue_item: execution_queue_item_key,
                    activated_at: now_ts,
                    ..*old(authority_control)
                })
            }
        }),
{
    if activation_record.authority_control != Key32::default() {
        return Err(CustomError::ProtocolAuthorityReceiptAlreadyExists);
    }
    if authority_control.mode != ProtocolAuthorityModeV1::Bootstrap {
        return Err(CustomError::ProtocolAuthorityControlNotBootstrap);
    }
    if current_authority != governance_config.authority {
        return Err(CustomError::UnauthorizedSecurityAuthority);
    }
    if current_authority != authority_control.bootstrap_authority {
        return Err(CustomError::UnauthorizedSecurityAuthority);
    }
    if governance_proposal_action.target_account != authority_control_key {
        return Err(CustomError::ProtocolAuthorityTargetMismatch);
    }
    let parameters = build_protocol_activate_dao_control_parameters_v1(
        authority_control_key,
        governance_config_key,
        current_authority,
        governance_config.emergency_guardian,
        governance_proposal_key,
        governance_proposal_action_key,
        proposal_decision_key,
        execution_queue_item_key,
    )?;
    let parameters_hash = hash_protocol_activate_dao_control_parameters_v1(&parameters)?;
    if governance_proposal_action.parameters_hash != parameters_hash {
        return Err(CustomError::ProtocolAuthorityParametersMismatch);
    }
    let canonical_hash = validate_common_protocol_governance_chain_v1(
        governance_config,
        authority_control,
        protocol_module_registry,
        governance_proposal,
        governance_proposal_action,
        governance_decision_adapter,
        proposal_decision,
        execution_queue_item,
        authority_control_key,
        governance_config_key,
        protocol_module_registry_key,
        governance_proposal_key,
        governance_proposal_action_key,
        proposal_decision_key,
        execution_queue_item_key,
        GovernanceActionTypeV1::ProtocolActivateDaoControl,
        ActionType::ProtocolActivateDaoControl,
        ExecutionStatus::Executed,
    )?;
    activation_record.authority_control = authority_control_key;
    activation_record.governance_config = governance_config_key;
    activation_record.governance_proposal = governance_proposal_key;
    activation_record.proposal_decision = proposal_decision_key;
    activation_record.execution_queue_item = execution_queue_item_key;
    activation_record.governance_proposal_action = governance_proposal_action_key;
    activation_record.current_authority = current_authority;
    activation_record.emergency_guardian = governance_config.emergency_guardian;
    activation_record.mode_before = ProtocolAuthorityModeV1::Bootstrap;
    activation_record.mode_after = ProtocolAuthorityModeV1::DaoControlled;
    activation_record.parameters_hash = parameters_hash;
    activation_record.canonical_governance_payload_hash = canonical_hash;
    activation_record.executor = executor;
    activation_record.executed_at = now_ts;
    activation_record.schema_version = PROTOCOL_AUTHORITY_SCHEMA_VERSION_V1;
    activation_record.bump = record_bump;
    activation_record.reserved = [0u8; 64];
    assert(activation_record.reserved@ =~= Seq::new(64, |i: int| 0u8));
    authority_control.mode = ProtocolAuthorityModeV1::DaoControlled;
    authority_control.activation_governance_proposal = governance_proposal_key;
    authority_control.activation_proposal_decision = proposal_decision_key;
    authority_control.activation_execution_queue_item = execution_queue_item_key;
    authority_control.activated_at = now_ts;
    Ok(())
}

/// The checks of a DAO-governed unpause before the governance chain, and the
/// hash of the unpause parameters they yield.
pub open spec fn spec_unpause_precheck(
    governance_config: GovernanceConfigV1,
    authority_control: ProtocolAuthorityControlV1,
    proposal: GovernanceProposalV1,
    action: GovernanceProposalActionV1,
    queue: ExecutionQueueItemV1,
    unpause_record: ProtocolSecurityUnpauseExecutionRecordV1,
    authority_control_key: Pubkey,
    governance_config_key: Pubkey,
    proposal_key: Pubkey,
    action_key: Pubkey,
    proposal_decision_key: Pubkey,
    queue_key: Pubkey,
    now_ts: i64,
) -> ProgramResult<Hash32> {
    let p = spec_unpause_parameters(authority_control_key, governance_config_key, proposal_key, action_key,
        proposal_decision_key, queue_key, proposal.proposal_id);
    if unpause_record.authority_control != Key32::zero() {
        Err(CustomError::ProtocolAuthorityReceiptAlreadyExists)
    } else if authority_control.mode != ProtocolAuthorityModeV1::DaoControlled {
        Err(CustomError::ProtocolAuthorityControlNotDaoControlled)
    } else if !governance_config.is_paused {
        Err(CustomError::ProtocolSecurityUnpauseNotEligible)
    } else if now_ts < queue.execute_after {
        Err(CustomError::ExecutionDelayNotMet)
    } else if action.target_account != governance_config_key {
        Err(CustomError::ProtocolAuthorityTargetMismatch)
    } else if spec_validate_unpause_parameters(p) is Err {
        Err(spec_validate_unpause_parameters(p)->Err_0)
    } else if action.parameters_hash != spec_hash_encoded(spec_unpause_envelope_bytes(p)) {
        Err(CustomError::ProtocolAuthorityParametersMismatch)
    } else {
        Ok(spec_hash_encoded(spec_unpause_envelope_bytes(p)))
    }
}

/// Unpauses the Security Layer under DAO control after a passed governance
/// proposal whose queue item is still queued; marks the item executed and
/// records the unpause.
#[allow(clippy::too_many_arguments)]
pub fn execute_protocol_unpause_security_state(
    governance_config: &mut GovernanceConfigV1,
    authority_control: &ProtocolAuthorityControlV1,
    protocol_module_registry: &ProtocolModuleRegistryV1,
    governance_proposal: &GovernanceProposalV1,
    governance_proposal_action: &GovernanceProposalActionV1,
    governance_decision_adapter: &UniversalGovernanceDecisionAdapterV1,
    proposal_decision: &ProposalDecisionV1,
    execution_queue_item: &mut ExecutionQueueItemV1,
    unpause_record: &mut ProtocolSecurityUnpauseExecutionRecordV1,
    authority_control_key: Pubkey,
    governance_config_key: Pubkey,
    protocol_module_registry_key: Pubkey,
    governance_proposal_key: Pubkey,
    governance_proposal_action_key: Pubkey,
    proposal_decision_key: Pubkey,
    execution_queue_item_key: Pubkey,
    executor: Pubkey,
    now_ts: i64,
    record_bump: u8,
) -> (r: ProgramResult<()>)
    ensures
        ({
            let pre = spec_unpause_precheck(*old(governance_config), *authority_control, *governance_proposal,
                *governance_proposal_action, *old(execution_queue_item), *old(unpause_record), authority_control_key,
                governance_config_key, governance_proposal_key, governance_proposal_action_key, proposal_decision_key,
                execution_queue_item_key, now_ts);
            let chain = spec_common_chain(*old(governance_config), *authority_control, *protocol_module_registry,
                *governance_proposal, *governance_proposal_action, *governance_decision_adapter, *proposal_decision,
                *old(execution_queue_item), authority_control_key, governance_config_key, protocol_module_registry_key,
                governance_proposal_key, proposal_decision_key, GovernanceActionTypeV1::ProtocolUnpauseSecurity,
                ActionType::ProtocolUnpauseSecurity, ExecutionStatus::Queued);
            let unchanged = *final(governance_config) == *old(governance_config)
                && *final(execution_queue_item) == *old(execution_queue_item)
                && *final(unpause_record) == *old(unpause_record);
            if pre is Err {
                r == Err::<(), CustomError>(pre->Err_0) && unchanged
            } else if chain is Err {
                r == Err::<(), CustomError>(chain->Err_0) && unchanged
            } else {
                &&& r is Ok
                &&& *final(unpause_record) == (ProtocolSecurityUnpauseExecutionRecordV1 {
                    authority_control: authority_control_key,
                    governance_config: governance_config_key,
                    governance_proposal: governance_proposal_key,
                    proposal_decision: proposal_decision_key,
                    execution_queue_item: execution_queue_item_key,
                    governance_proposal_action: governance_proposal_action_key,
                    paused_before: true,
                    paused_after: false,
                    parameters_hash: pre->Ok_0,
                    canonical_governance_payload_hash: chain->Ok_0,
                    executor,
                    executed_at: now_ts,
                    schema_version: PROTOCOL_AUTHORITY_SCHEMA_VERSION_V1,
                    bump: record_bump,
                    reserved: final(unpause_record).reserved,
                })
                &&& final(unpause_record).reserved@ == Seq::new(64, |i: int| 0u8)
                &&& *final(execution_queue_item) == (ExecutionQueueItemV1 {
                    status: ExecutionStatus::Executed,
                    executed_at: now_ts,
                    ..*old(execution_queue_item)
                })
                &&& *final(governance_config) == (GovernanceConfigV1 { is_paused: false, ..*old(governance_config) })
            }
        }),
{
    if unpause_record.authority_control != Key32::default() {
        return Err(CustomError::ProtocolAuthorityReceiptAlreadyExists);
    }
    if authority_control.mode != ProtocolAuthorityModeV1::DaoControlled {
        return Err(CustomError::ProtocolAuthorityControlNotDaoControlled);
    }
    if !governance_config.is_paused {
        return Err(CustomError::ProtocolSecurityUnpauseNotEligible);
    }
    if now_ts < execution_queue_item.execute_after {
        return Err(CustomError::ExecutionDelayNotMet);
    }
    if governance_proposal_action.target_account != governance_config_key {
        return Err(CustomError::ProtocolAuthorityTargetMismatch);
    }
    let parameters = build_protocol_unpause_security_parameters_v1(
        authority_control_key,
        governance_config_key,
        governance_proposal_key,
        governance_proposal_action_key,
        proposal_decision_key,
        execution_queue_item_key,
        governance_proposal.proposal_id,
    )?;
    let parameters_hash = hash_protocol_unpause_security_parameters_v1(&parameters)?;
    if governance_proposal_action.parameters_hash != parameters_hash {
        return Err(CustomError::ProtocolAuthorityParametersMismatch);
    }
    let canonical_hash = validate_common_protocol_governance_chain_v1(
        governance_config,
        authority_control,
        protocol_module_registry,
        governance_proposal,
        governance_proposal_action,
        governance_decision_adapter,
        proposal_decision,
        execution_queue_item,
        authority_control_key,
        governance_config_key,
        protocol_module_registry_key,
        governance_proposal_key,
        governance_proposal_action_key,
        proposal_decision_key,
        execution_queue_item_key,
        GovernanceActionTypeV1::ProtocolUnpauseSecurity,
        ActionType::ProtocolUnpauseSecurity,
        ExecutionStatus::Queued,
    )?;
    unpause_record.authority_control = authority_control_key;
    unpause_record.governance_config = governance_config_key;
    unpause_record.governance_proposal = governance_proposal_key;
    unpause_record.proposal_decision = proposal_decision_key;
    unpause_record.execution_queue_item = execution_queue_item_key;
    unpause_record.governance_proposal_action = governance_proposal_action_key;
    unpause_record.paused_before = true;
    unpause_record.paused_after = false;
    unpause_record.parameters_hash = parameters_hash;
    unpause_record.canonical_governance_payload_hash = canonical_hash;
    unpause_record.executor = executor;
    unpause_record.executed_at = now_ts;
    unpause_record.schema_version = PROTOCOL_AUTHORITY_SCHEMA_VERSION_V1;
    unpause_record.bump = record_bump;
    unpause_record.reserved = [0u8; 64];
    assert(unpause_record.reserved@ =~= Seq::new(64, |i: int| 0u8));
    execution_queue_item.status = ExecutionStatus::Executed;
    execution_queue_item.executed_at = now_ts;
    governance_config.is_paused = false;
    Ok(())
}

/// DAO control is one-way: an authority control already in DaoControlled mode
/// can never be activated again, and a successful activation leaves it
/// DaoControlled.
pub proof fn law_dao_activation_is_one_way(
    governance_config: GovernanceConfigV1,
    authority_control: ProtocolAuthorityControlV1,
    action: GovernanceProposalActionV1,
    activation_record: ProtocolDaoControlActivationRecordV1,
    authority_control_key: Pubkey,
    governance_config_key: Pubkey,
    proposal_key: Pubkey,
    action_key: Pubkey,
    proposal_decision_key: Pubkey,
    queue_key: Pubkey,
    current_authority: Pubkey,
)
    requires
        authority_control.mode == ProtocolAuthorityModeV1::DaoControlled,
    ensures
        spec_activate_precheck(governance_config, authority_control, action, activation_record, authority_control_key,
            governance_config_key, proposal_key, action_key, proposal_decision_key, queue_key, current_authority) is Err,
{
}

/// A DAO-governed unpause requires DAO control, a paused layer and the queue
/// item's delay to have passed.
pub proof fn law_unpause_requires_dao_control_and_delay(
    governance_config: GovernanceConfigV1,
    authority_control: ProtocolAuthorityControlV1,
    proposal: GovernanceProposalV1,
    action: GovernanceProposalActionV1,
    queue: ExecutionQueueItemV1,
    unpause_record: ProtocolSecurityUnpauseExecutionRecordV1,
    authority_control_key: Pubkey,
    governance_config_key: Pubkey,
    proposal_key: Pubkey,
    action_key: Pubkey,
    proposal_decision_key: Pubkey,
    queue_key: Pubkey,
    now_ts: i64,
)
    requires
        spec_unpause_precheck(governance_config, authority_control, proposal, action, queue, unpause_record,
            authority_control_key, governance_config_key, proposal_key, action_key, proposal_decision_key, queue_key,
            now_ts) is Ok,
    ensures
        authority_control.mode == ProtocolAuthorityModeV1::DaoControlled,
        governance_config.is_paused,
        now_ts >= queue.execute_after,
        unpause_record.authority_control == Key32::zero(),
{
}

/// `spec_activate_parameters_bytes` written as its pieces.
proof fn lemma_activate_parameters_bytes_parts(p: ProtocolActivateDaoControlParametersV1)
    ensures
        spec_activate_parameters_bytes(p) == u16_part(p.schema_version) + key_part(p.authority_control) + key_part(p.governance_config) + byte_part(spec_protocol_authority_mode_v1_tag(p.expected_mode)) + byte_part(spec_protocol_authority_mode_v1_tag(p.next_mode)) + key_part(p.current_authority) + key_part(p.emergency_guardian) + key_part(p.governance_proposal) + key_part(p.governance_proposal_action) + key_part(p.proposal_decision) + key_part(p.execution_queue_item) + byte_part(spec_governance_action_type_v1_tag(p.action_type)),
{
    reveal(byte_part);
    reveal(key_part);
    reveal(u16_part);
}

/// The encoding `spec_activate_parameters_bytes` has a fixed length and determines its fields.
proof fn lemma_activate_parameters_bytes_injective(p: ProtocolActivateDaoControlParametersV1, q: ProtocolActivateDaoControlParametersV1)
    ensures
        spec_activate_parameters_bytes(p).len() == 261,
        spec_activate_parameters_bytes(p) == spec_activate_parameters_bytes(q) ==> p.schema_version == q.schema_version && p.authority_control == q.authority_control && p.governance_config == q.governance_config && p.expected_mode == q.expected_mode && p.next_mode == q.next_mode && p.current_authority == q.current_authority && p.emergency_guardian == q.emergency_guardian && p.governance_proposal == q.governance_proposal && p.governance_proposal_action == q.governance_proposal_action && p.proposal_decision == q.proposal_decision && p.execution_queue_item == q.execution_queue_item && p.action_type == q.action_type,
{
    lemma_activate_parameters_bytes_parts(p);
    lemma_activate_parameters_bytes_parts(q);
    lemma_u16_part(p.schema_version, q.schema_version);
    lemma_u16_part(q.schema_version, p.schema_version);
    lemma_key_part(p.authority_control, q.authority_control);
    lemma_key_part(q.authority_control, p.authority_control);
    lemma_key_part(p.governance_config, q.governance_config);
    lemma_key_part(q.governance_config, p.governance_config);
    lemma_byte_part(spec_protocol_authority_mode_v1_tag(p.expected_mode), spec_protocol_authority_mode_v1_tag(q.expected_mode));
    lemma_byte_part(spec_protocol_authority_mode_v1_tag(q.expected_mode), spec_protocol_authority_mode_v1_tag(p.expected_mode));
    lemma_byte_part(spec_protocol_authority_mode_v1_tag(p.next_mode), spec_protocol_authority_mode_v1_tag(q.next_mode));
    lemma_byte_part(spec_protocol_authority_mode_v1_tag(q.next_mode), spec_protocol_authority_mode_v1_tag(p.next_mode));
    lemma_key_part(p.current_authority, q.current_authority);
    lemma_key_part(q.current_authority, p.current_authority);
    lemma_key_part(p.emergency_guardian, q.emergency_guardian);
    lemma_key_part(q.emergency_guardian, p.emergency_guardian);
    lemma_key_part(p.governance_proposal, q.governance_proposal);
    lemma_key_part(q.governance_proposal, p.governance_proposal);
    lemma_key_part(p.governance_proposal_action, q.governance_proposal_action);
    lemma_key_part(q.governance_proposal_action, p.governance_proposal_action);
    lemma_key_part(p.proposal_decision, q.proposal_decision);
    lemma_key_part(q.proposal_decision, p.proposal_decision);
    lemma_key_part(p.execution_queue_item, q.execution_queue_item);
    lemma_key_part(q.execution_queue_item, p.execution_queue_item);
    lemma_byte_part(spec_governance_action_type_v1_tag(p.action_type), spec_governance_action_type_v1_tag(q.action_type));
    lemma_byte_part(spec_governance_action_type_v1_tag(q.action_type), spec_governance_action_type_v1_tag(p.action_type));
    if spec_activate_parameters_bytes(p) == spec_activate_parameters_bytes(q) {
        lemma_concat_split(u16_part(p.schema_version) + key_part(p.authority_control) + key_part(p.governance_config) + byte_part(spec_protocol_authority_mode_v1_tag(p.expected_mode)) + byte_part(spec_protocol_authority_mode_v1_tag(p.next_mode)) + key_part(p.current_authority) + key_part(p.emergency_guardian) + key_part(p.governance_proposal) + key_part(p.governance_proposal_action) + key_part(p.proposal_decision) + key_part(p.execution_queue_item), byte_part(spec_governance_action_type_v1_tag(p.action_type)),
            u16_part(q.schema_version) + key_part(q.authority_control) + key_part(q.governance_config) + byte_part(spec_protocol_authority_mode_v1_tag(q.expected_mode)) + byte_part(spec_protocol_authority_mode_v1_tag(q.next_mode)) + key_part(q.current_authority) + key_part(q.emergency_guardian) + key_part(q.governance_proposal) + key_part(q.governance_proposal_action) + key_part(q.proposal_decision) + key_part(q.execution_queue_item), byte_part(spec_governance_action_type_v1_tag(q.action_type)));
        lemma_concat_split(u16_part(p.schema_version) + key_part(p.authority_control) + key_part(p.governance_config) + byte_part(spec_protocol_authority_mode_v1_tag(p.expected_mode)) + byte_part(spec_protocol_authority_mode_v1_tag(p.next_mode)) + key_part(p.current_authority) + key_part(p.emergency_guardian) + key_part(p.governance_proposal) + key_part(p.governance_proposal_action) + key_part(p.proposal_decision), key_part(p.execution_queue_item),
            u16_part(q.schema_version) + key_part(q.authority_control) + key_part(q.governance_config) + byte_part(spec_protocol_authority_mode_v1_tag(q.expected_mode)) + byte_part(spec_protocol_authority_mode_v1_tag(q.next_mode)) + key_part(q.current_authority) + key_part(q.emergency_guardian) + key_part(q.governance_proposal) + key_part(q.governance_proposal_action) + key_part(q.proposal_decision), key_part(q.execution_queue_item));
        lemma_concat_split(u16_part(p.schema_version) + key_part(p.authority_control) + key_part(p.governance_config) + byte_part(spec_protocol_authority_mode_v1_tag(p.expected_mode)) + byte_part(spec_protocol_authority_mode_v1_tag(p.next_mode)) + key_part(p.current_authority) + key_part(p.emergency_guardian) + key_part(p.governance_proposal) + key_part(p.governance_proposal_action), key_part(p.proposal_decision),
            u16_part(q.schema_version) + key_part(q.authority_control) + key_part(q.governance_config) + byte_part(spec_protocol_authority_mode_v1_tag(q.expected_mode)) + byte_part(spec_protocol_authority_mode_v1_tag(q.next_mode)) + key_part(q.current_authority) + key_part(q.emergency_guardian) + key_part(q.governance_proposal) + key_part(q.governance_proposal_action), key_part(q.proposal_decision));
        lemma_concat_split(u16_part(p.schema_version) + key_part(p.authority_control) + key_part(p.governance_config) + byte_part(spec_protocol_authority_mode_v1_tag(p.expected_mode)) + byte_part(spec_protocol_authority_mode_v1_tag(p.next_mode)) + key_part(p.current_authority) + key_part(p.emergency_guardian) + key_part(p.governance_proposal), key_part(p.governance_proposal_action),
            u16_part(q.schema_version) + key_part(q.authority_control) + key_part(q.governance_config) + byte_part(spec_protocol_authority_mode_v1_tag(q.expected_mode)) + byte_part(spec_protocol_authority_mode_v1_tag(q.next_mode)) + key_part(q.current_authority) + key_part(q.emergency_guardian) + key_part(q.governance_proposal), key_part(q.governance_proposal_action));
        lemma_concat_split(u16_part(p.schema_version) + key_part(p.authority_control) + key_part(p.governance_config) + byte_part(spec_protocol_authority_mode_v1_tag(p.expected_mode)) + byte_part(spec_protocol_authority_mode_v1_tag(p.next_mode)) + key_part(p.current_authority) + key_part(p.emergency_guardian), key_part(p.governance_proposal),
            u16_part(q.schema_version) + key_part(q.authority_control) + key_part(q.governance_config) + byte_part(spec_protocol_authority_mode_v1_tag(q.expected_mode)) + byte_part(spec_protocol_authority_mode_v1_tag(q.next_mode)) + key_part(q.current_authority) + key_part(q.emergency_guardian), key_part(q.governance_proposal));
        lemma_concat_split(u16_part(p.schema_version) + key_part(p.authority_control) + key_part(p.governance_config) + byte_part(spec_protocol_authority_mode_v1_tag(p.expected_mode)) + byte_part(spec_protocol_authority_mode_v1_tag(p.next_mode)) + key_part(p.current_authority), key_part(p.emergency_guardian),
            u16_part(q.schema_version) + key_part(q.authority_control) + key_part(q.governance_config) + byte_part(spec_protocol_authority_mode_v1_tag(q.expected_mode)) + byte_part(spec_protocol_authority_mode_v1_tag(q.next_mode)) + key_part(q.current_authority), key_part(q.emergency_guardian));
        lemma_concat_split(u16_part(p.schema_version) + key_part(p.authority_control) + key_part(p.governance_config) + byte_part(spec_protocol_authority_mode_v1_tag(p.expected_mode)) + byte_part(spec_protocol_authority_mode_v1_tag(p.next_mode)), key_part(p.current_authority),
            u16_part(q.schema_version) + key_part(q.authority_control) + key_part(q.governance_config) + byte_part(spec_protocol_authority_mode_v1_tag(q.expected_mode)) + byte_part(spec_protocol_authority_mode_v1_tag(q.next_mode)), key_part(q.current_authority));
        lemma_concat_split(u16_part(p.schema_version) + key_part(p.authority_control) + key_part(p.governance_config) + byte_part(spec_protocol_authority_mode_v1_tag(p.expected_mode)), byte_part(spec_protocol_authority_mode_v1_tag(p.next_mode)),
            u16_part(q.schema_version) + key_part(q.authority_control) + key_part(q.governance_config) + byte_part(spec_protocol_authority_mode_v1_tag(q.expected_mode)), byte_part(spec_protocol_authority_mode_v1_tag(q.next_mode)));
        lemma_concat_split(u16_part(p.schema_version) + key_part(p.authority_control) + key_part(p.governance_config), byte_part(spec_protocol_authority_mode_v1_tag(p.expected_mode)),
            u16_part(q.schema_version) + key_part(q.authority_control) + key_part(q.governance_config), byte_part(spec_protocol_authority_mode_v1_tag(q.expected_mode)));
        lemma_concat_split(u16_part(p.schema_version) + key_part(p.authority_control), key_part(p.governance_config),
            u16_part(q.schema_version) + key_part(q.authority_control), key_part(q.governance_config));
        lemma_concat_split(u16_part(p.schema_version), key_part(p.authority_control),
            u16_part(q.schema_version), key_part(q.authority_control));
        lemma_protocol_authority_mode_v1_tag_injective(p.expected_mode, q.expected_mode);
        lemma_protocol_authority_mode_v1_tag_injective(p.next_mode, q.next_mode);
        lemma_governance_action_type_v1_tag_injective(p.action_type, q.action_type);
    }
}

/// The DAO-activation parameters are bound by what is hashed: two parameter
/// values give the same hashed envelope only when they are equal in every
/// field.
pub proof fn law_activate_parameters_preimage_is_injective(p: ProtocolActivateDaoControlParametersV1, q: ProtocolActivateDaoControlParametersV1)
    ensures
        (spec_activate_envelope_bytes(p) == spec_activate_envelope_bytes(q)) == (p == q),
{
    if spec_activate_envelope_bytes(p) == spec_activate_envelope_bytes(q) {
        lemma_concat_split(le_u32(spec_domain(Domain::ProtocolActivateDaoControl).len() as u32) + spec_domain(Domain::ProtocolActivateDaoControl), spec_activate_parameters_bytes(p), le_u32(spec_domain(Domain::ProtocolActivateDaoControl).len() as u32) + spec_domain(Domain::ProtocolActivateDaoControl), spec_activate_parameters_bytes(q));
        lemma_activate_parameters_bytes_injective(p, q);
    }
}

/// `spec_unpause_parameters_bytes` written as its pieces.
proof fn lemma_unpause_parameters_bytes_parts(p: ProtocolUnpauseSecurityParametersV1)
    ensures
        spec_unpause_parameters_bytes(p) == u16_part(p.schema_version) + key_part(p.authority_control) + key_part(p.governance_config) + byte_part(spec_protocol_authority_mode_v1_tag(p.expected_mode)) + bool_part(p.expected_paused) + bool_part(p.next_paused) + byte_part(spec_governance_action_type_v1_tag(p.action_type)) + key_part(p.governance_proposal) + key_part(p.governance_proposal_action) + key_part(p.proposal_decision) + key_part(p.execution_queue_item) + u64_part(p.proposal_id),
{
    reveal(bool_part);
    reveal(byte_part);
    reveal(key_part);
    reveal(u16_part);
    reveal(u64_part);
}

/// The encoding `spec_unpause_parameters_bytes` has a fixed length and determines its fields.
proof fn lemma_unpause_parameters_bytes_injective(p: ProtocolUnpauseSecurityParametersV1, q: ProtocolUnpauseSecurityParametersV1)
    ensures
        spec_unpause_parameters_bytes(p).len() == 206,
        spec_unpause_parameters_bytes(p) == spec_unpause_parameters_bytes(q) ==> p.schema_version == q.schema_version && p.authority_control == q.authority_control && p.governance_config == q.governance_config && p.expected_mode == q.expected_mode && p.expected_paused == q.expected_paused && p.next_paused == q.next_paused && p.action_type == q.action_type && p.governance_proposal == q.governance_proposal && p.governance_proposal_action == q.governance_proposal_action && p.proposal_decision == q.proposal_decision && p.execution_queue_item == q.execution_queue_item && p.proposal_id == q.proposal_id,
{
    lemma_unpause_parameters_bytes_parts(p);
    lemma_unpause_parameters_bytes_parts(q);
    lemma_u16_part(p.schema_version, q.schema_version);
    lemma_u16_part(q.schema_version, p.schema_version);
    lemma_key_part(p.authority_control, q.authority_control);
    lemma_key_part(q.authority_control, p.authority_control);
    lemma_key_part(p.governance_config, q.governance_config);
    lemma_key_part(q.governance_config, p.governance_config);
    lemma_byte_part(spec_protocol_authority_mode_v1_tag(p.expected_mode), spec_protocol_authority_mode_v1_tag(q.expected_mode));
    lemma_byte_part(spec_protocol_authority_mode_v1_tag(q.expected_mode), spec_protocol_authority_mode_v1_tag(p.expected_mode));
    lemma_bool_part(p.expected_paused, q.expected_paused);
    lemma_bool_part(q.expected_paused, p.expected_paused);
    lemma_bool_part(p.next_paused, q.next_paused);
    lemma_bool_part(q.next_paused, p.next_paused);
    lemma_byte_part(spec_governance_action_type_v1_tag(p.action_type), spec_governance_action_type_v1_tag(q.action_type));
    lemma_byte_part(spec_governance_action_type_v1_tag(q.action_type), spec_governance_action_type_v1_tag(p.action_type));
    lemma_key_part(p.governance_proposal, q.governance_proposal);
    lemma_key_part(q.governance_proposal, p.governance_proposal);
    lemma_key_part(p.governance_proposal_action, q.governance_proposal_action);
    lemma_key_part(q.governance_proposal_action, p.governance_proposal_action);
    lemma_key_part(p.proposal_decision, q.proposal_decision);
    lemma_key_part(q.proposal_decision, p.proposal_decision);
    lemma_key_part(p.execution_queue_item, q.execution_queue_item);
    lemma_key_part(q.execution_queue_item, p.execution_queue_item);
    lemma_u64_part(p.proposal_id, q.proposal_id);
    lemma_u64_part(q.proposal_id, p.proposal_id);
    if spec_unpause_parameters_bytes(p) == spec_unpause_parameters_bytes(q) {
        lemma_concat_split(u16_part(p.schema_version) + key_part(p.authority_control) + key_part(p.governance_config) + byte_part(spec_protocol_authority_mode_v1_tag(p.expected_mode)) + bool_part(p.expected_paused) + bool_part(p.next_paused) + byte_part(spec_governance_action_type_v1_tag(p.action_type)) + key_part(p.governance_proposal) + key_part(p.governance_proposal_action) + key_part(p.proposal_decision) + key_part(p.execution_queue_item), u64_part(p.proposal_id),
            u16_part(q.schema_version) + key_part(q.authority_control) + key_part(q.governance_config) + byte_part(spec_protocol_authority_mode_v1_tag(q.expected_mode)) + bool_part(q.expected_paused) + bool_part(q.next_paused) + byte_part(spec_governance_action_type_v1_tag(q.action_type)) + key_part(q.governance_proposal) + key_part(q.governance_proposal_action) + key_part(q.proposal_decision) + key_part(q.execution_queue_item), u64_part(q.proposal_id));
        lemma_concat_split(u16_part(p.schema_version) + key_part(p.authority_control) + key_part(p.governance_config) + byte_part(spec_protocol_authority_mode_v1_tag(p.expected_mode)) + bool_part(p.expected_paused) + bool_part(p.next_paused) + byte_part(spec_governance_action_type_v1_tag(p.action_type)) + key_part(p.governance_proposal) + key_part(p.governance_proposal_action) + key_part(p.proposal_decision), key_part(p.execution_queue_item),
            u16_part(q.schema_version) + key_part(q.authority_control) + key_part(q.governance_config) + byte_part(spec_protocol_authority_mode_v1_tag(q.expected_mode)) + bool_part(q.expected_paused) + bool_part(q.next_paused) + byte_part(spec_governance_action_type_v1_tag(q.action_type)) + key_part(q.governance_proposal) + key_part(q.governance_proposal_action) + key_part(q.proposal_decision), key_part(q.execution_queue_item));
        lemma_concat_split(u16_part(p.schema_version) + key_part(p.authority_control) + key_part(p.governance_config) + byte_part(spec_protocol_authority_mode_v1_tag(p.expected_mode)) + bool_part(p.expected_paused) + bool_part(p.next_paused) + byte_part(spec_governance_action_type_v1_tag(p.action_type)) + key_part(p.governance_proposal) + key_part(p.governance_proposal_action), key_part(p.proposal_decision),
            u16_part(q.schema_version) + key_part(q.authority_control) + key_part(q.governance_config) + byte_part(spec_protocol_authority_mode_v1_tag(q.expected_mode)) + bool_part(q.expected_paused) + bool_part(q.next_paused) + byte_part(spec_governance_action_type_v1_tag(q.action_type)) + key_part(q.governance_proposal) + key_part(q.governance_proposal_action), key_part(q.proposal_decision));
        lemma_concat_split(u16_part(p.schema_version) + key_part(p.authority_control) + key_part(p.governance_config) + byte_part(spec_protocol_authority_mode_v1_tag(p.expected_mode)) + bool_part(p.expected_paused) + bool_part(p.next_paused) + byte_part(spec_governance_action_type_v1_tag(p.action_type)) + key_part(p.governance_proposal), key_part(p.governance_proposal_action),
            u16_part(q.schema_version) + key_part(q.authority_control) + key_part(q.governance_config) + byte_part(spec_protocol_authority_mode_v1_tag(q.expected_mode)) + bool_part(q.expected_paused) + bool_part(q.next_paused) + byte_part(spec_governance_action_type_v1_tag(q.action_type)) + key_part(q.governance_proposal), key_part(q.governance_proposal_action));
        lemma_concat_split(u16_part(p.schema_version) + key_part(p.authority_control) + key_part(p.governance_config) + byte_part(spec_protocol_authority_mode_v1_tag(p.expected_mode)) + bool_part(p.expected_paused) + bool_part(p.next_paused) + byte_part(spec_governance_action_type_v1_tag(p.action_type)), key_part(p.governance_proposal),
            u16_part(q.schema_version) + key_part(q.authority_control) + key_part(q.governance_config) + byte_part(spec_protocol_authority_mode_v1_tag(q.expected_mode)) + bool_part(q.expected_paused) + bool_part(q.next_paused) + byte_part(spec_governance_action_type_v1_tag(q.action_type)), key_part(q.governance_proposal));
        lemma_concat_split(u16_part(p.schema_version) + key_part(p.authority_control) + key_part(p.governance_config) + byte_part(spec_protocol_authority_mode_v1_tag(p.expected_mode)) + bool_part(p.expected_paused) + bool_part(p.next_paused), byte_part(spec_governance_action_type_v1_tag(p.action_type)),
            u16_part(q.schema_version) + key_part(q.authority_control) + key_part(q.governance_config) + byte_part(spec_protocol_authority_mode_v1_tag(q.expected_mode)) + bool_part(q.expected_paused) + bool_part(q.next_paused), byte_part(spec_governance_action_type_v1_tag(q.action_type)));
        lemma_concat_split(u16_part(p.schema_version) + key_part(p.authority_control) + key_part(p.governance_config) + byte_part(spec_protocol_authority_mode_v1_tag(p.expected_mode)) + bool_part(p.expected_paused), bool_part(p.next_paused),
            u16_part(q.schema_version) + key_part(q.authority_control) + key_part(q.governance_config) + byte_part(spec_protocol_authority_mode_v1_tag(q.expected_mode)) + bool_part(q.expected_paused), bool_part(q.next_paused));
        lemma_concat_split(u16_part(p.schema_version) + key_part(p.authority_control) + key_part(p.governance_config) + byte_part(spec_protocol_authority_mode_v1_tag(p.expected_mode)), bool_part(p.expected_paused),
            u16_part(q.schema_version) + key_part(q.authority_control) + key_part(q.governance_config) + byte_part(spec_protocol_authority_mode_v1_tag(q.expected_mode)), bool_part(q.expected_paused));
        lemma_concat_split(u16_part(p.schema_version) + key_part(p.authority_control) + key_part(p.governance_config), byte_part(spec_protocol_authority_mode_v1_tag(p.expected_mode)),
            u16_part(q.schema_version) + key_part(q.authority_control) + key_part(q.governance_config), byte_part(spec_protocol_authority_mode_v1_tag(q.expected_mode)));
        lemma_concat_split(u16_part(p.schema_version) + key_part(p.authority_control), key_part(p.governance_config),
            u16_part(q.schema_version) + key_part(q.authority_control), key_part(q.governance_config));
        lemma_concat_split(u16_part(p.schema_version), key_part(p.authority_control),
            u16_part(q.schema_version), key_part(q.authority_control));
        lemma_protocol_authority_mode_v1_tag_injective(p.expected_mode, q.expected_mode);
        lemma_governance_action_type_v1_tag_injective(p.action_type, q.action_type);
    }
}

/// The unpause parameters are bound by what is hashed: two parameter values
/// give the same hashed envelope only when they are equal in every field.
pub proof fn law_unpause_parameters_preimage_is_injective(p: ProtocolUnpauseSecurityParametersV1, q: ProtocolUnpauseSecurityParametersV1)
    ensures
        (spec_unpause_envelope_bytes(p) == spec_unpause_envelope_bytes(q)) == (p == q),
{
    if spec_unpause_envelope_bytes(p) == spec_unpause_envelope_bytes(q) {
        lemma_concat_split(le_u32(spec_domain(Domain::ProtocolUnpauseSecurity).len() as u32) + spec_domain(Domain::ProtocolUnpauseSecurity), spec_unpause_parameters_bytes(p), le_u32(spec_domain(Domain::ProtocolUnpauseSecurity).len() as u32) + spec_domain(Domain::ProtocolUnpauseSecurity), spec_unpause_parameters_bytes(q));
        lemma_unpause_parameters_bytes_injective(p, q);
    }
}

} // verus!
