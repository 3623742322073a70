use my_first_solana_program::authority_control::{ProtocolActivateDaoControlHashEnvelopeV1, ProtocolUnpauseSecurityHashEnvelopeV1, build_protocol_activate_dao_control_parameters_v1, build_protocol_unpause_security_parameters_v1, hash_protocol_activate_dao_control_parameters_v1, hash_protocol_unpause_security_parameters_v1, protocol_authority_mode_from_stable_code_v1, protocol_authority_mode_stable_code_v1, validate_legacy_security_authority_allowed_v1, validate_protocol_authority_mode_transition_v1};
use my_first_solana_program::constants::PROTOCOL_AUTHORITY_SCHEMA_VERSION_V1;
use my_first_solana_program::error::CustomError;
use my_first_solana_program::hashing::hash_encoded;
use my_first_solana_program::keys::{Key32, Pubkey};
use my_first_solana_program::state::{GovernanceConfigV1, ProtocolAuthorityControlV1, ProtocolAuthorityModeV1, ProtocolDaoControlActivationRecordV1, ProtocolSecurityUnpauseExecutionRecordV1};

/// The 64-bit word whose eight bytes are all 1.
const BYTE_WORD: u64 = 0x0101_0101_0101_0101;

const AUTHORITY: Pubkey = Key32 { w0: BYTE_WORD * 1, w1: BYTE_WORD * 1, w2: BYTE_WORD * 1, w3: BYTE_WORD * 1 };
const GUARDIAN: Pubkey = Key32 { w0: BYTE_WORD * 2, w1: BYTE_WORD * 2, w2: BYTE_WORD * 2, w3: BYTE_WORD * 2 };
const OTHER: Pubkey = Key32 { w0: BYTE_WORD * 3, w1: BYTE_WORD * 3, w2: BYTE_WORD * 3, w3: BYTE_WORD * 3 };
const SECURITY_CONFIG: Pubkey = Key32 { w0: BYTE_WORD * 4, w1: BYTE_WORD * 4, w2: BYTE_WORD * 4, w3: BYTE_WORD * 4 };
const AUTHORITY_CONTROL: Pubkey = Key32 { w0: BYTE_WORD * 5, w1: BYTE_WORD * 5, w2: BYTE_WORD * 5, w3: BYTE_WORD * 5 };
const PROPOSAL: Pubkey = Key32 { w0: BYTE_WORD * 6, w1: BYTE_WORD * 6, w2: BYTE_WORD * 6, w3: BYTE_WORD * 6 };
const ACTION: Pubkey = Key32 { w0: BYTE_WORD * 7, w1: BYTE_WORD * 7, w2: BYTE_WORD * 7, w3: BYTE_WORD * 7 };
const DECISION: Pubkey = Key32 { w0: BYTE_WORD * 8, w1: BYTE_WORD * 8, w2: BYTE_WORD * 8, w3: BYTE_WORD * 8 };
const QUEUE: Pubkey = Key32 { w0: BYTE_WORD * 9, w1: BYTE_WORD * 9, w2: BYTE_WORD * 9, w3: BYTE_WORD * 9 };

fn governance_config(paused: bool) -> GovernanceConfigV1 {
    GovernanceConfigV1 {
        authority: AUTHORITY,
        min_execution_delay_seconds: 60,
        proposal_count: 1,
        emergency_guardian: GUARDIAN,
        is_paused: paused,
        bump: 250,
    }
}

fn authority_control(mode: ProtocolAuthorityModeV1) -> ProtocolAuthorityControlV1 {
    ProtocolAuthorityControlV1 {
        governance_config: SECURITY_CONFIG,
        mode,
        bootstrap_authority: AUTHORITY,
        emergency_guardian: GUARDIAN,
        activation_governance_proposal: Pubkey::default(),
        activation_proposal_decision: Pubkey::default(),
        activation_execution_queue_item: Pubkey::default(),
        activated_at: 0,
        schema_version: PROTOCOL_AUTHORITY_SCHEMA_VERSION_V1,
        bump: 1,
        reserved: [0u8; 64],
    }
}

#[test]
fn protocol_authority_mode_codes_are_fixed() {
    assert_eq!(
        protocol_authority_mode_stable_code_v1(ProtocolAuthorityModeV1::Bootstrap),
        1
    );
    assert_eq!(
        protocol_authority_mode_stable_code_v1(ProtocolAuthorityModeV1::DaoControlled),
        2
    );
    assert_eq!(
        protocol_authority_mode_from_stable_code_v1(1).unwrap(),
        ProtocolAuthorityModeV1::Bootstrap
    );
    assert_eq!(
        protocol_authority_mode_from_stable_code_v1(2).unwrap(),
        ProtocolAuthorityModeV1::DaoControlled
    );
    assert_eq!(
        protocol_authority_mode_from_stable_code_v1(9).unwrap_err(),
        CustomError::InvalidProtocolAuthorityMode
    );
}

#[test]
fn protocol_authority_mode_transition_is_one_way() {
    validate_protocol_authority_mode_transition_v1(
        ProtocolAuthorityModeV1::Bootstrap,
        ProtocolAuthorityModeV1::DaoControlled,
    )
    .unwrap();
    assert_eq!(
        validate_protocol_authority_mode_transition_v1(
            ProtocolAuthorityModeV1::DaoControlled,
            ProtocolAuthorityModeV1::Bootstrap
        )
        .unwrap_err(),
        CustomError::InvalidProtocolAuthorityModeTransition
    );
}

#[test]
fn protocol_authority_account_sizes_are_exact() {
    assert_eq!(ProtocolAuthorityControlV1::INIT_SPACE, 268);
    assert_eq!(ProtocolDaoControlActivationRecordV1::INIT_SPACE, 429);
    assert_eq!(ProtocolSecurityUnpauseExecutionRecordV1::INIT_SPACE, 365);
}

#[test]
fn legacy_security_authority_allowed_only_in_bootstrap() {
    let config = governance_config(false);
    let bootstrap_control = authority_control(ProtocolAuthorityModeV1::Bootstrap);
    validate_legacy_security_authority_allowed_v1(&config, &bootstrap_control, AUTHORITY)
        .unwrap();

    let dao_control = authority_control(ProtocolAuthorityModeV1::DaoControlled);
    assert_eq!(
        validate_legacy_security_authority_allowed_v1(&config, &dao_control, AUTHORITY)
            .unwrap_err(),
        CustomError::ProtocolAuthorityControlNotBootstrap
    );
    assert_eq!(
        validate_legacy_security_authority_allowed_v1(&config, &bootstrap_control, OTHER)
            .unwrap_err(),
        CustomError::UnauthorizedSecurityAuthority
    );
}

#[test]
fn activation_parameters_hash_is_deterministic_and_bound() {
    let params = build_protocol_activate_dao_control_parameters_v1(
        AUTHORITY_CONTROL,
        SECURITY_CONFIG,
        AUTHORITY,
        GUARDIAN,
        PROPOSAL,
        ACTION,
        DECISION,
        QUEUE,
    )
    .unwrap();
    let hash = hash_protocol_activate_dao_control_parameters_v1(&params).unwrap();
    assert_eq!(
        hash,
        hash_protocol_activate_dao_control_parameters_v1(&params).unwrap()
    );

    let mut changed = params;
    changed.current_authority = OTHER;
    assert_ne!(
        hash,
        hash_protocol_activate_dao_control_parameters_v1(&changed).unwrap()
    );
}

#[test]
fn unpause_parameters_hash_is_deterministic_and_bound() {
    let params = build_protocol_unpause_security_parameters_v1(
        AUTHORITY_CONTROL,
        SECURITY_CONFIG,
        PROPOSAL,
        ACTION,
        DECISION,
        QUEUE,
        7,
    )
    .unwrap();
    let hash = hash_protocol_unpause_security_parameters_v1(&params).unwrap();
    assert_eq!(
        hash,
        hash_protocol_unpause_security_parameters_v1(&params).unwrap()
    );

    let mut changed = params;
    changed.proposal_id = 8;
    assert_ne!(
        hash,
        hash_protocol_unpause_security_parameters_v1(&changed).unwrap()
    );
}


#[test]
fn parameter_hashes_are_hashes_of_their_domain_envelopes() {
    let activate = build_protocol_activate_dao_control_parameters_v1(
        AUTHORITY_CONTROL,
        SECURITY_CONFIG,
        AUTHORITY,
        GUARDIAN,
        PROPOSAL,
        ACTION,
        DECISION,
        QUEUE,
    )
    .unwrap();
    let mut bytes = Vec::new();
    ProtocolActivateDaoControlHashEnvelopeV1 {
        domain_separator: b"alpha_protocol_activate_dao_control_v1".to_vec(),
        parameters: activate,
    }
    .serialize(&mut bytes)
    .unwrap();
    assert_eq!(&bytes[0..4], &[38, 0, 0, 0]);
    assert_eq!(
        hash_encoded(&bytes),
        hash_protocol_activate_dao_control_parameters_v1(&activate).unwrap()
    );

    let unpause = build_protocol_unpause_security_parameters_v1(
        AUTHORITY_CONTROL,
        SECURITY_CONFIG,
        PROPOSAL,
        ACTION,
        DECISION,
        QUEUE,
        7,
    )
    .unwrap();
    let mut bytes = Vec::new();
    ProtocolUnpauseSecurityHashEnvelopeV1 {
        domain_separator: b"alpha_protocol_unpause_security_v1".to_vec(),
        parameters: unpause,
    }
    .serialize(&mut bytes)
    .unwrap();
    assert_eq!(
        hash_encoded(&bytes),
        hash_protocol_unpause_security_parameters_v1(&unpause).unwrap()
    );
    let mut wrong = Vec::new();
    ProtocolUnpauseSecurityHashEnvelopeV1 {
        domain_separator: b"alpha_protocol_activate_dao_control_v1".to_vec(),
        parameters: unpause,
    }
    .serialize(&mut wrong)
    .unwrap();
    assert_ne!(
        hash_encoded(&wrong),
        hash_protocol_unpause_security_parameters_v1(&unpause).unwrap()
    );
}
