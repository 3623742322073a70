//! The protocol module registry: one account per protocol module, bound to the
//! Security Layer governance config and to this program.
use vstd::prelude::*;
use crate::constants::PROTOCOL_MODULE_REGISTRY_V1_SCHEMA_VERSION;
use crate::error::{CustomError, ProgramResult};
use crate::keys::{Key32, Pubkey};
use crate::pda::{
    is_derived_address, seed_and_code_address, single_seed_address, spec_program_address, spec_program_id, spec_seed, Seed,
    program_id,
};
use crate::state::{ProtocolModuleIdV1, ProtocolModuleRegistryV1};

verus! {

/// The fixed one-byte code of each module.
pub open spec fn spec_module_code(module_id: ProtocolModuleIdV1) -> u8 {
    match module_id {
        ProtocolModuleIdV1::Treasury => 1,
        ProtocolModuleIdV1::GreenLabel => 2,
        ProtocolModuleIdV1::VictimRelief => 3,
        ProtocolModuleIdV1::ScamRegistry => 4,
        ProtocolModuleIdV1::Contributor => 5,
        ProtocolModuleIdV1::Protocol => 6,
    }
}

/// The registry address and bump of a module, if one exists.
pub open spec fn spec_registry_address(module_id: ProtocolModuleIdV1) -> Option<(Pubkey, u8)> {
    spec_program_address(seq![spec_seed(Seed::ProtocolModuleRegistryV1), seq![spec_module_code(module_id)]])
}

/// The outcome of validating a registry account.
pub open spec fn spec_validate_registry(
    registry: ProtocolModuleRegistryV1,
    registry_key: Pubkey,
    expected_security_governance_config: Pubkey,
    expected_module: ProtocolModuleIdV1,
    expected_target_program: Pubkey,
) -> ProgramResult<()> {
    if registry.security_governance_config != expected_security_governance_config {
        Err(CustomError::ProtocolModuleGovernanceConfigMismatch)
    } else if registry.module_id != expected_module {
        Err(CustomError::ProtocolModuleRegistryMismatch)
    } else if registry.module_code != spec_module_code(expected_module) {
        Err(CustomError::InvalidProtocolModuleCode)
    } else if registry.program_id != expected_target_program {
        Err(CustomError::ProtocolModuleProgramMismatch)
    } else if registry.program_id != spec_program_id() {
        Err(CustomError::ProtocolModuleProgramMismatch)
    } else if !registry.enabled {
        Err(CustomError::ProtocolModuleDisabled)
    } else if registry.schema_version != PROTOCOL_MODULE_REGISTRY_V1_SCHEMA_VERSION {
        Err(CustomError::InvalidProtocolModuleRegistrySchema)
    } else if spec_registry_address(expected_module) != Some((registry_key, registry.bump)) {
        Err(CustomError::ProtocolModuleRegistryMismatch)
    } else {
        Ok(())
    }
}

/// The module's stable one-byte code.
pub fn protocol_module_stable_code_v1(module_id: ProtocolModuleIdV1) -> (code: u8)
    ensures
        code == spec_module_code(module_id),
{
    match module_id {
        ProtocolModuleIdV1::Treasury => 1,
        ProtocolModuleIdV1::GreenLabel => 2,
        ProtocolModuleIdV1::VictimRelief => 3,
        ProtocolModuleIdV1::ScamRegistry => 4,
        ProtocolModuleIdV1::Contributor => 5,
        ProtocolModuleIdV1::Protocol => 6,
    }
}

/// The module with stable code `code`; `InvalidProtocolModuleCode` for other codes.
pub fn protocol_module_from_stable_code_v1(code: u8) -> (r: ProgramResult<ProtocolModuleIdV1>)
    ensures
        match r {
            Ok(m) => spec_module_code(m) == code,
            Err(e) => e == CustomError::InvalidProtocolModuleCode && !(1 <= code <= 6),
        },
        1 <= code <= 6 ==> r is Ok,
{
    match code {
        1 => Ok(ProtocolModuleIdV1::Treasury),
        2 => Ok(ProtocolModuleIdV1::GreenLabel),
        3 => Ok(ProtocolModuleIdV1::VictimRelief),
        4 => Ok(ProtocolModuleIdV1::ScamRegistry),
        5 => Ok(ProtocolModuleIdV1::Contributor),
        6 => Ok(ProtocolModuleIdV1::Protocol),
        _ => Err(CustomError::InvalidProtocolModuleCode),
    }
}

/// The registry address and bump of a module. Deriving it fails only where
/// no bump seed gives an address, which the `requires` leaves out.
pub fn expected_protocol_module_registry_key_and_bump(module_id: ProtocolModuleIdV1) -> (r: (Pubkey, u8))
    requires
        spec_registry_address(module_id) is Some,
    ensures
        Some(r) == spec_registry_address(module_id),
{
    try_expected_protocol_module_registry_key_and_bump(module_id).unwrap()
}

/// The registry address and bump of a module, or `None` where no bump seed
/// gives one.
pub fn try_expected_protocol_module_registry_key_and_bump(module_id: ProtocolModuleIdV1) -> (r: Option<(Pubkey, u8)>)
    ensures
        r == spec_registry_address(module_id),
{
    let module_code = protocol_module_stable_code_v1(module_id);
    seed_and_code_address(Seed::ProtocolModuleRegistryV1, module_code)
}

/// The address of the Security Layer governance config, if one exists.
pub open spec fn spec_security_governance_config_address() -> Option<Pubkey> {
    match spec_program_address(seq![spec_seed(Seed::GovernanceConfigV1)]) {
        Some((address, _)) => Some(address),
        None => None,
    }
}

/// The address of the Security Layer governance config. Deriving it fails
/// only where no bump seed gives an address, which the `requires` leaves out.
pub fn expected_security_governance_config_key() -> (k: Pubkey)
    requires
        spec_security_governance_config_address() is Some,
    ensures
        Some(k) == spec_security_governance_config_address(),
{
    try_expected_security_governance_config_key().unwrap()
}

/// The address of the Security Layer governance config, or `None` where no
/// bump seed gives one.
pub fn try_expected_security_governance_config_key() -> (k: Option<Pubkey>)
    ensures
        k == spec_security_governance_config_address(),
{
    match single_seed_address(Seed::GovernanceConfigV1) {
        Some((address, _)) => Some(address),
        None => None,
    }
}

/// Initializes a module's registry account; only the governance authority may
/// bootstrap it, and the account must be the module's registry address.
#[allow(clippy::too_many_arguments)]
pub fn record_protocol_module_registry_init(
    registry: &mut ProtocolModuleRegistryV1,
    registry_key: Pubkey,
    security_governance_config: Pubkey,
    security_governance_authority: Pubkey,
    bootstrap_authority: Pubkey,
    module_id: ProtocolModuleIdV1,
    schema_version: u16,
    now_ts: i64,
    bump: u8,
) -> (r: ProgramResult<()>)
    ensures
        r == (if old(registry).security_governance_config != Key32::zero() {
            Err::<(), CustomError>(CustomError::ProtocolModuleRegistryMismatch)
        } else if bootstrap_authority != security_governance_authority {
            Err(CustomError::UnauthorizedSecurityAuthority)
        } else if schema_version != PROTOCOL_MODULE_REGISTRY_V1_SCHEMA_VERSION {
            Err(CustomError::InvalidProtocolModuleRegistrySchema)
        } else if spec_registry_address(module_id) != Some((registry_key, bump)) {
            Err(CustomError::ProtocolModuleRegistryMismatch)
        } else {
            Ok(())
        }),
        r is Err ==> *final(registry) == *old(registry),
        r is Ok ==> *final(registry) == (ProtocolModuleRegistryV1 {
            security_governance_config,
            module_id,
            module_code: spec_module_code(module_id),
            program_id: spec_program_id(),
            enabled: true,
            schema_version,
            created_at: now_ts,
            updated_at: now_ts,
            bump,
        }),
{
    if registry.security_governance_config != Key32::default() {
        return Err(CustomError::ProtocolModuleRegistryMismatch);
    }
    if bootstrap_authority != security_governance_authority {
        return Err(CustomError::UnauthorizedSecurityAuthority);
    }
    if schema_version != PROTOCOL_MODULE_REGISTRY_V1_SCHEMA_VERSION {
        return Err(CustomError::InvalidProtocolModuleRegistrySchema);
    }
    let module_code = protocol_module_stable_code_v1(module_id);
    let expected = seed_and_code_address(Seed::ProtocolModuleRegistryV1, module_code);
    if !is_derived_address(expected, registry_key, bump) {
        return Err(CustomError::ProtocolModuleRegistryMismatch);
    }
    registry.security_governance_config = security_governance_config;
    registry.module_id = module_id;
    registry.module_code = module_code;
    registry.program_id = program_id();
    registry.enabled = true;
    registry.schema_version = schema_version;
    registry.created_at = now_ts;
    registry.updated_at = now_ts;
    registry.bump = bump;
    Ok(())
}

/// Checks a registry account against the expected governance config, module
/// and program, its schema, its address and its bump.
pub fn validate_protocol_module_registry_v1(
    registry: &ProtocolModuleRegistryV1,
    registry_key: Pubkey,
    expected_security_governance_config: Pubkey,
    expected_module: ProtocolModuleIdV1,
    expected_target_program: Pubkey,
) -> (r: ProgramResult<()>)
    ensures
        r == spec_validate_registry(*registry, registry_key, expected_security_governance_config, expected_module, expected_target_program),
{
    if registry.security_governance_config != expected_security_governance_config {
        return Err(CustomError::ProtocolModuleGovernanceConfigMismatch);
    }
    if registry.module_id != expected_module {
        return Err(CustomError::ProtocolModuleRegistryMismatch);
    }
    if registry.module_code != protocol_module_stable_code_v1(expected_module) {
        return Err(CustomError::InvalidProtocolModuleCode);
    }
    if registry.program_id != expected_target_program {
        return Err(CustomError::ProtocolModuleProgramMismatch);
    }
    if registry.program_id != program_id() {
        return Err(CustomError::ProtocolModuleProgramMismatch);
    }
    if !registry.enabled {
        return Err(CustomError::ProtocolModuleDisabled);
    }
    if registry.schema_version != PROTOCOL_MODULE_REGISTRY_V1_SCHEMA_VERSION {
        return Err(CustomError::InvalidProtocolModuleRegistrySchema);
    }
    let expected = seed_and_code_address(Seed::ProtocolModuleRegistryV1, registry.module_code);
    if !is_derived_address(expected, registry_key, registry.bump) {
        return Err(CustomError::ProtocolModuleRegistryMismatch);
    }
    Ok(())
}

/// Stable codes round-trip: decoding a module's code gives the module back,
/// and distinct modules have distinct codes.
pub proof fn law_module_code_roundtrip(a: ProtocolModuleIdV1, b: ProtocolModuleIdV1)
    ensures
        1 <= spec_module_code(a) <= 6,
        a != b ==> spec_module_code(a) != spec_module_code(b),
{
}

/// A registry initialized for a module passes validation for that module,
/// its governance config and this program.
pub proof fn law_initialized_registry_validates(
    registry: ProtocolModuleRegistryV1,
    registry_key: Pubkey,
    security_governance_config: Pubkey,
    module_id: ProtocolModuleIdV1,
    schema_version: u16,
    now_ts: i64,
    bump: u8,
)
    requires
        spec_registry_address(module_id) == Some((registry_key, bump)),
        schema_version == PROTOCOL_MODULE_REGISTRY_V1_SCHEMA_VERSION,
    ensures
        spec_validate_registry(
            ProtocolModuleRegistryV1 {
                security_governance_config,
                module_id,
                module_code: spec_module_code(module_id),
                program_id: spec_program_id(),
                enabled: true,
                schema_version,
                created_at: now_ts,
                updated_at: now_ts,
                bump,
            },
            registry_key,
            security_governance_config,
            module_id,
            spec_program_id(),
        ) == Ok::<(), CustomError>(()),
{
}

} // verus!
