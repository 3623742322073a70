use std::collections::BTreeSet;
use my_first_solana_program::constants::PROTOCOL_MODULE_REGISTRY_V1_SCHEMA_VERSION;
use my_first_solana_program::error::CustomError;
use my_first_solana_program::keys::{Key32, Pubkey};
use my_first_solana_program::module_registry::{expected_protocol_module_registry_key_and_bump, protocol_module_from_stable_code_v1, protocol_module_stable_code_v1, record_protocol_module_registry_init, validate_protocol_module_registry_v1};
use my_first_solana_program::pda::program_id;
use my_first_solana_program::state::{ProtocolModuleIdV1, ProtocolModuleRegistryV1};

/// The 64-bit word whose eight bytes are all 1.
const BYTE_WORD: u64 = 0x0101_0101_0101_0101;

const SECURITY_CONFIG: Pubkey = Key32 { w0: BYTE_WORD * 1, w1: BYTE_WORD * 1, w2: BYTE_WORD * 1, w3: BYTE_WORD * 1 };
const AUTHORITY: Pubkey = Key32 { w0: BYTE_WORD * 2, w1: BYTE_WORD * 2, w2: BYTE_WORD * 2, w3: BYTE_WORD * 2 };
const WRONG_AUTHORITY: Pubkey = Key32 { w0: BYTE_WORD * 3, w1: BYTE_WORD * 3, w2: BYTE_WORD * 3, w3: BYTE_WORD * 3 };

const ALL_MODULES: [ProtocolModuleIdV1; 6] = [
    ProtocolModuleIdV1::Treasury,
    ProtocolModuleIdV1::GreenLabel,
    ProtocolModuleIdV1::VictimRelief,
    ProtocolModuleIdV1::ScamRegistry,
    ProtocolModuleIdV1::Contributor,
    ProtocolModuleIdV1::Protocol,
];

fn blank_registry() -> ProtocolModuleRegistryV1 {
    ProtocolModuleRegistryV1 {
        security_governance_config: Pubkey::default(),
        module_id: ProtocolModuleIdV1::Treasury,
        module_code: 0,
        program_id: Pubkey::default(),
        enabled: false,
        schema_version: 0,
        created_at: 0,
        updated_at: 0,
        bump: 0,
    }
}

fn initialized_registry(module_id: ProtocolModuleIdV1) -> (ProtocolModuleRegistryV1, Pubkey) {
    let mut registry = blank_registry();
    let (registry_key, bump) = expected_protocol_module_registry_key_and_bump(module_id);
    record_protocol_module_registry_init(
        &mut registry,
        registry_key,
        SECURITY_CONFIG,
        AUTHORITY,
        AUTHORITY,
        module_id,
        PROTOCOL_MODULE_REGISTRY_V1_SCHEMA_VERSION,
        100,
        bump,
    )
    .unwrap();
    (registry, registry_key)
}

#[test]
fn module_stable_codes_are_unique() {
    let mut codes = BTreeSet::new();
    for module_id in ALL_MODULES {
        assert!(codes.insert(protocol_module_stable_code_v1(module_id)));
    }
    assert_eq!(codes.len(), ALL_MODULES.len());
}

#[test]
fn module_stable_code_roundtrips() {
    for module_id in ALL_MODULES {
        let code = protocol_module_stable_code_v1(module_id);
        assert_eq!(
            protocol_module_from_stable_code_v1(code).unwrap(),
            module_id
        );
    }
}

#[test]
fn unknown_module_code_fails() {
    let err = protocol_module_from_stable_code_v1(99).unwrap_err();
    assert_eq!(err, CustomError::InvalidProtocolModuleCode);
}

#[test]
fn module_code_snapshot_is_fixed() {
    assert_eq!(
        ALL_MODULES.map(protocol_module_stable_code_v1),
        [1, 2, 3, 4, 5, 6]
    );
}

#[test]
fn all_modules_initialize_with_expected_pda() {
    for module_id in ALL_MODULES {
        let (registry, registry_key) = initialized_registry(module_id);
        assert_eq!(registry.module_id, module_id);
        assert_eq!(
            registry.module_code,
            protocol_module_stable_code_v1(module_id)
        );
        assert_eq!(registry.program_id, program_id());
        assert!(registry.enabled);
        validate_protocol_module_registry_v1(
            &registry,
            registry_key,
            SECURITY_CONFIG,
            module_id,
            program_id(),
        )
        .unwrap();
    }
}

#[test]
fn wrong_bootstrap_authority_fails() {
    let module_id = ProtocolModuleIdV1::Treasury;
    let (registry_key, bump) = expected_protocol_module_registry_key_and_bump(module_id);
    let mut registry = blank_registry();
    let err = record_protocol_module_registry_init(
        &mut registry,
        registry_key,
        SECURITY_CONFIG,
        AUTHORITY,
        WRONG_AUTHORITY,
        module_id,
        PROTOCOL_MODULE_REGISTRY_V1_SCHEMA_VERSION,
        100,
        bump,
    )
    .unwrap_err();

    assert_eq!(err, CustomError::UnauthorizedSecurityAuthority);
}

#[test]
fn invalid_schema_fails() {
    let module_id = ProtocolModuleIdV1::Treasury;
    let (registry_key, bump) = expected_protocol_module_registry_key_and_bump(module_id);
    let mut registry = blank_registry();
    let err = record_protocol_module_registry_init(
        &mut registry,
        registry_key,
        SECURITY_CONFIG,
        AUTHORITY,
        AUTHORITY,
        module_id,
        2,
        100,
        bump,
    )
    .unwrap_err();

    assert_eq!(err, CustomError::InvalidProtocolModuleRegistrySchema);
}

#[test]
fn duplicate_module_registry_fails() {
    let module_id = ProtocolModuleIdV1::Treasury;
    let (mut registry, registry_key) = initialized_registry(module_id);
    let bump = registry.bump;
    let err = record_protocol_module_registry_init(
        &mut registry,
        registry_key,
        SECURITY_CONFIG,
        AUTHORITY,
        AUTHORITY,
        module_id,
        PROTOCOL_MODULE_REGISTRY_V1_SCHEMA_VERSION,
        100,
        bump,
    )
    .unwrap_err();

    assert_eq!(err, CustomError::ProtocolModuleRegistryMismatch);
}

#[test]
fn validation_rejects_wrong_module() {
    let (registry, registry_key) = initialized_registry(ProtocolModuleIdV1::Treasury);
    let err = validate_protocol_module_registry_v1(
        &registry,
        registry_key,
        SECURITY_CONFIG,
        ProtocolModuleIdV1::Contributor,
        program_id(),
    )
    .unwrap_err();

    assert_eq!(err, CustomError::ProtocolModuleRegistryMismatch);
}

#[test]
fn validation_rejects_wrong_module_code() {
    let (mut registry, registry_key) = initialized_registry(ProtocolModuleIdV1::Treasury);
    registry.module_code = 99;
    let err = validate_protocol_module_registry_v1(
        &registry,
        registry_key,
        SECURITY_CONFIG,
        ProtocolModuleIdV1::Treasury,
        program_id(),
    )
    .unwrap_err();

    assert_eq!(err, CustomError::InvalidProtocolModuleCode);
}

#[test]
fn validation_rejects_wrong_program() {
    let (mut registry, registry_key) = initialized_registry(ProtocolModuleIdV1::Treasury);
    registry.program_id = Pubkey::new_from_array([9; 32]);
    let err = validate_protocol_module_registry_v1(
        &registry,
        registry_key,
        SECURITY_CONFIG,
        ProtocolModuleIdV1::Treasury,
        program_id(),
    )
    .unwrap_err();

    assert_eq!(err, CustomError::ProtocolModuleProgramMismatch);
}

#[test]
fn validation_rejects_wrong_governance_config() {
    let (registry, registry_key) = initialized_registry(ProtocolModuleIdV1::Treasury);
    let err = validate_protocol_module_registry_v1(
        &registry,
        registry_key,
        Pubkey::new_from_array([8; 32]),
        ProtocolModuleIdV1::Treasury,
        program_id(),
    )
    .unwrap_err();

    assert_eq!(
        err,
        CustomError::ProtocolModuleGovernanceConfigMismatch
    );
}

#[test]
fn validation_rejects_disabled_registry() {
    let (mut registry, registry_key) = initialized_registry(ProtocolModuleIdV1::Treasury);
    registry.enabled = false;
    let err = validate_protocol_module_registry_v1(
        &registry,
        registry_key,
        SECURITY_CONFIG,
        ProtocolModuleIdV1::Treasury,
        program_id(),
    )
    .unwrap_err();

    assert_eq!(err, CustomError::ProtocolModuleDisabled);
}

#[test]
fn validation_rejects_wrong_schema() {
    let (mut registry, registry_key) = initialized_registry(ProtocolModuleIdV1::Treasury);
    registry.schema_version = 2;
    let err = validate_protocol_module_registry_v1(
        &registry,
        registry_key,
        SECURITY_CONFIG,
        ProtocolModuleIdV1::Treasury,
        program_id(),
    )
    .unwrap_err();

    assert_eq!(err, CustomError::InvalidProtocolModuleRegistrySchema);
}

#[test]
fn validation_rejects_wrong_pda_or_bump() {
    let (mut registry, registry_key) = initialized_registry(ProtocolModuleIdV1::Treasury);
    registry.bump = registry.bump.wrapping_add(1);
    let err = validate_protocol_module_registry_v1(
        &registry,
        registry_key,
        SECURITY_CONFIG,
        ProtocolModuleIdV1::Treasury,
        program_id(),
    )
    .unwrap_err();

    assert_eq!(err, CustomError::ProtocolModuleRegistryMismatch);

    let (registry, _) = initialized_registry(ProtocolModuleIdV1::Treasury);
    let err = validate_protocol_module_registry_v1(
        &registry,
        Pubkey::new_from_array([7; 32]),
        SECURITY_CONFIG,
        ProtocolModuleIdV1::Treasury,
        program_id(),
    )
    .unwrap_err();

    assert_eq!(err, CustomError::ProtocolModuleRegistryMismatch);
}
