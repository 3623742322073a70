//! Program-derived addresses: the program id, the account seeds and the
//! derivation of addresses from them.
use vstd::prelude::*;
use crate::codec::{key_bytes, key_to_vec, push_bytes};
use crate::keys::{spec_key_from_bytes, Key32, Pubkey};

verus! {

/// The address and bump seed Solana derives for `seeds` under `program_id`,
/// or `None` where no bump seed gives a valid program address.
pub uninterp spec fn spec_try_find_program_address(seeds: Seq<Seq<u8>>, program_id: Seq<u8>) -> Option<(Seq<u8>, u8)>;

/// Calls `Pubkey::try_find_program_address` (anchor_lang / solana-address):
/// the first off-curve address, from bump 255 down, hashed from `seeds`, a
/// bump byte and `program_id`, or `None` where there is none or where the
/// seeds break the runtime's limits. The contract claims only that the result
/// is `spec_try_find_program_address(seeds, program_id)`, a function of its
/// arguments.
#[verifier::external_body]
pub(crate) fn try_find_program_address(seeds: &Vec<Vec<u8>>, program_id: &Vec<u8>) -> (r: Option<([u8; 32], u8)>)
    requires
        program_id@.len() == 32,
    ensures
        match r {
            Some((address, bump)) => spec_try_find_program_address(seeds.deep_view(), program_id@) == Some((address@, bump)),
            None => spec_try_find_program_address(seeds.deep_view(), program_id@) is None,
        },
{
    let slices: Vec<&[u8]> = seeds.iter().map(|s| s.as_slice()).collect();
    let id = anchor_lang::solana_program::pubkey::Pubkey::try_from(program_id.as_slice()).unwrap();
    let found = anchor_lang::solana_program::pubkey::Pubkey::try_find_program_address(&slices, &id);
    found.map(|(address, bump)| (address.to_bytes(), bump))
}

/// This program's id.
pub open spec fn spec_program_id() -> Pubkey {
    Key32 {
        w0: 0x3b1f_6a2c_9d4e_8a17,
        w1: 0x51c2_7e90_a4d3_0f6b,
        w2: 0x8e2d_4b71_c69a_53f0,
        w3: 0x0a7c_e315_2f8b_9d64,
    }
}

/// This program's id (`crate::ID` of the on-chain program).
pub fn program_id() -> (id: Pubkey)
    ensures
        id == spec_program_id(),
{
    Key32 {
        w0: 0x3b1f_6a2c_9d4e_8a17,
        w1: 0x51c2_7e90_a4d3_0f6b,
        w2: 0x8e2d_4b71_c69a_53f0,
        w3: 0x0a7c_e315_2f8b_9d64,
    }
}

/// The fixed seed prefixes of the program's accounts.
#[derive(Clone, Copy, Debug, PartialEq, Eq, Structural)]
pub enum Seed {
    GovernanceConfigV1,
    ProtocolModuleRegistryV1,
    ProtocolAuthorityControlV1,
    TreasuryConfigV2,
    TreasuryUsdcStateV2,
    RevenueRoutingStatsV1,
    VaultAuthorityV2,
    ReliefUsdcVault,
    BuybackUsdcVault,
    BuildersUsdcVault,
    StakingUsdcVault,
    GreenLabelConfig,
    GreenLabelProject,
    GreenLabelDispute,
    GreenBondVault,
    GreenBondVaultAuthority,
    GreenLabelRefundableEscrow,
    GreenLabelRefundableVault,
}

/// The bytes of a seed prefix (the ASCII text given beside each arm).
pub open spec fn spec_seed(seed: Seed) -> Seq<u8> {
    match seed {
        // "governance_config_v1"
        Seed::GovernanceConfigV1 => seq![103u8, 111u8, 118u8, 101u8, 114u8, 110u8, 97u8, 110u8, 99u8, 101u8, 95u8, 99u8, 111u8, 110u8, 102u8, 105u8, 103u8, 95u8, 118u8, 49u8],
        // "protocol_module_registry_v1"
        Seed::ProtocolModuleRegistryV1 => seq![112u8, 114u8, 111u8, 116u8, 111u8, 99u8, 111u8, 108u8, 95u8, 109u8, 111u8, 100u8, 117u8, 108u8, 101u8, 95u8, 114u8, 101u8, 103u8, 105u8, 115u8, 116u8, 114u8, 121u8, 95u8, 118u8, 49u8],
        // "protocol_authority_control_v1"
        Seed::ProtocolAuthorityControlV1 => seq![112u8, 114u8, 111u8, 116u8, 111u8, 99u8, 111u8, 108u8, 95u8, 97u8, 117u8, 116u8, 104u8, 111u8, 114u8, 105u8, 116u8, 121u8, 95u8, 99u8, 111u8, 110u8, 116u8, 114u8, 111u8, 108u8, 95u8, 118u8, 49u8],
        // "treasury_config_v2"
        Seed::TreasuryConfigV2 => seq![116u8, 114u8, 101u8, 97u8, 115u8, 117u8, 114u8, 121u8, 95u8, 99u8, 111u8, 110u8, 102u8, 105u8, 103u8, 95u8, 118u8, 50u8],
        // "treasury_usdc_state_v2"
        Seed::TreasuryUsdcStateV2 => seq![116u8, 114u8, 101u8, 97u8, 115u8, 117u8, 114u8, 121u8, 95u8, 117u8, 115u8, 100u8, 99u8, 95u8, 115u8, 116u8, 97u8, 116u8, 101u8, 95u8, 118u8, 50u8],
        // "revenue_routing_stats_v1"
        Seed::RevenueRoutingStatsV1 => seq![114u8, 101u8, 118u8, 101u8, 110u8, 117u8, 101u8, 95u8, 114u8, 111u8, 117u8, 116u8, 105u8, 110u8, 103u8, 95u8, 115u8, 116u8, 97u8, 116u8, 115u8, 95u8, 118u8, 49u8],
        // "vault_authority_v2"
        Seed::VaultAuthorityV2 => seq![118u8, 97u8, 117u8, 108u8, 116u8, 95u8, 97u8, 117u8, 116u8, 104u8, 111u8, 114u8, 105u8, 116u8, 121u8, 95u8, 118u8, 50u8],
        // "relief_usdc_vault"
        Seed::ReliefUsdcVault => seq![114u8, 101u8, 108u8, 105u8, 101u8, 102u8, 95u8, 117u8, 115u8, 100u8, 99u8, 95u8, 118u8, 97u8, 117u8, 108u8, 116u8],
        // "buyback_usdc_vault"
        Seed::BuybackUsdcVault => seq![98u8, 117u8, 121u8, 98u8, 97u8, 99u8, 107u8, 95u8, 117u8, 115u8, 100u8, 99u8, 95u8, 118u8, 97u8, 117u8, 108u8, 116u8],
        // "builders_usdc_vault"
        Seed::BuildersUsdcVault => seq![98u8, 117u8, 105u8, 108u8, 100u8, 101u8, 114u8, 115u8, 95u8, 117u8, 115u8, 100u8, 99u8, 95u8, 118u8, 97u8, 117u8, 108u8, 116u8],
        // "staking_usdc_vault"
        Seed::StakingUsdcVault => seq![115u8, 116u8, 97u8, 107u8, 105u8, 110u8, 103u8, 95u8, 117u8, 115u8, 100u8, 99u8, 95u8, 118u8, 97u8, 117u8, 108u8, 116u8],
        // "green_label_config"
        Seed::GreenLabelConfig => seq![103u8, 114u8, 101u8, 101u8, 110u8, 95u8, 108u8, 97u8, 98u8, 101u8, 108u8, 95u8, 99u8, 111u8, 110u8, 102u8, 105u8, 103u8],
        // "green_label_project"
        Seed::GreenLabelProject => seq![103u8, 114u8, 101u8, 101u8, 110u8, 95u8, 108u8, 97u8, 98u8, 101u8, 108u8, 95u8, 112u8, 114u8, 111u8, 106u8, 101u8, 99u8, 116u8],
        // "green_label_dispute"
        Seed::GreenLabelDispute => seq![103u8, 114u8, 101u8, 101u8, 110u8, 95u8, 108u8, 97u8, 98u8, 101u8, 108u8, 95u8, 100u8, 105u8, 115u8, 112u8, 117u8, 116u8, 101u8],
        // "green_bond_vault"
        Seed::GreenBondVault => seq![103u8, 114u8, 101u8, 101u8, 110u8, 95u8, 98u8, 111u8, 110u8, 100u8, 95u8, 118u8, 97u8, 117u8, 108u8, 116u8],
        // "green_bond_vault_authority"
        Seed::GreenBondVaultAuthority => seq![103u8, 114u8, 101u8, 101u8, 110u8, 95u8, 98u8, 111u8, 110u8, 100u8, 95u8, 118u8, 97u8, 117u8, 108u8, 116u8, 95u8, 97u8, 117u8, 116u8, 104u8, 111u8, 114u8, 105u8, 116u8, 121u8],
        // "green_label_refundable_escrow"
        Seed::GreenLabelRefundableEscrow => seq![103u8, 114u8, 101u8, 101u8, 110u8, 95u8, 108u8, 97u8, 98u8, 101u8, 108u8, 95u8, 114u8, 101u8, 102u8, 117u8, 110u8, 100u8, 97u8, 98u8, 108u8, 101u8, 95u8, 101u8, 115u8, 99u8, 114u8, 111u8, 119u8],
        // "green_label_refundable_vault"
        Seed::GreenLabelRefundableVault => seq![103u8, 114u8, 101u8, 101u8, 110u8, 95u8, 108u8, 97u8, 98u8, 101u8, 108u8, 95u8, 114u8, 101u8, 102u8, 117u8, 110u8, 100u8, 97u8, 98u8, 108u8, 101u8, 95u8, 118u8, 97u8, 117u8, 108u8, 116u8],
    }
}

/// The bytes of a seed prefix; every prefix is at most 32 bytes long.
pub fn seed_bytes(seed: Seed) -> (v: Vec<u8>)
    ensures
        v@ == spec_seed(seed),
        v@.len() <= 32,
{
    let mut v: Vec<u8> = Vec::new();
    match seed {
        Seed::GovernanceConfigV1 => {
            let b: [u8; 20] = [103, 111, 118, 101, 114, 110, 97, 110, 99, 101, 95, 99, 111, 110, 102, 105, 103, 95, 118, 49];
            push_bytes(&mut v, b.as_slice());
        },
        Seed::ProtocolModuleRegistryV1 => {
            let b: [u8; 27] = [112, 114, 111, 116, 111, 99, 111, 108, 95, 109, 111, 100, 117, 108, 101, 95, 114, 101, 103, 105, 115, 116, 114, 121, 95, 118, 49];
            push_bytes(&mut v, b.as_slice());
        },
        Seed::ProtocolAuthorityControlV1 => {
            let b: [u8; 29] = [112, 114, 111, 116, 111, 99, 111, 108, 95, 97, 117, 116, 104, 111, 114, 105, 116, 121, 95, 99, 111, 110, 116, 114, 111, 108, 95, 118, 49];
            push_bytes(&mut v, b.as_slice());
        },
        Seed::TreasuryConfigV2 => {
            let b: [u8; 18] = [116, 114, 101, 97, 115, 117, 114, 121, 95, 99, 111, 110, 102, 105, 103, 95, 118, 50];
            push_bytes(&mut v, b.as_slice());
        },
        Seed::TreasuryUsdcStateV2 => {
            let b: [u8; 22] = [116, 114, 101, 97, 115, 117, 114, 121, 95, 117, 115, 100, 99, 95, 115, 116, 97, 116, 101, 95, 118, 50];
            push_bytes(&mut v, b.as_slice());
        },
        Seed::RevenueRoutingStatsV1 => {
            let b: [u8; 24] = [114, 101, 118, 101, 110, 117, 101, 95, 114, 111, 117, 116, 105, 110, 103, 95, 115, 116, 97, 116, 115, 95, 118, 49];
            push_bytes(&mut v, b.as_slice());
        },
        Seed::VaultAuthorityV2 => {
            let b: [u8; 18] = [118, 97, 117, 108, 116, 95, 97, 117, 116, 104, 111, 114, 105, 116, 121, 95, 118, 50];
            push_bytes(&mut v, b.as_slice());
        },
        Seed::ReliefUsdcVault => {
            let b: [u8; 17] = [114, 101, 108, 105, 101, 102, 95, 117, 115, 100, 99, 95, 118, 97, 117, 108, 116];
            push_bytes(&mut v, b.as_slice());
        },
        Seed::BuybackUsdcVault => {
            let b: [u8; 18] = [98, 117, 121, 98, 97, 99, 107, 95, 117, 115, 100, 99, 95, 118, 97, 117, 108, 116];
            push_bytes(&mut v, b.as_slice());
        },
        Seed::BuildersUsdcVault => {
            let b: [u8; 19] = [98, 117, 105, 108, 100, 101, 114, 115, 95, 117, 115, 100, 99, 95, 118, 97, 117, 108, 116];
            push_bytes(&mut v, b.as_slice());
        },
        Seed::StakingUsdcVault => {
            let b: [u8; 18] = [115, 116, 97, 107, 105, 110, 103, 95, 117, 115, 100, 99, 95, 118, 97, 117, 108, 116];
            push_bytes(&mut v, b.as_slice());
        },
        Seed::GreenLabelConfig => {
            let b: [u8; 18] = [103, 114, 101, 101, 110, 95, 108, 97, 98, 101, 108, 95, 99, 111, 110, 102, 105, 103];
            push_bytes(&mut v, b.as_slice());
        },
        Seed::GreenLabelProject => {
            let b: [u8; 19] = [103, 114, 101, 101, 110, 95, 108, 97, 98, 101, 108, 95, 112, 114, 111, 106, 101, 99, 116];
            push_bytes(&mut v, b.as_slice());
        },
        Seed::GreenLabelDispute => {
            let b: [u8; 19] = [103, 114, 101, 101, 110, 95, 108, 97, 98, 101, 108, 95, 100, 105, 115, 112, 117, 116, 101];
            push_bytes(&mut v, b.as_slice());
        },
        Seed::GreenBondVault => {
            let b: [u8; 16] = [103, 114, 101, 101, 110, 95, 98, 111, 110, 100, 95, 118, 97, 117, 108, 116];
            push_bytes(&mut v, b.as_slice());
        },
        Seed::GreenBondVaultAuthority => {
            let b: [u8; 26] = [103, 114, 101, 101, 110, 95, 98, 111, 110, 100, 95, 118, 97, 117, 108, 116, 95, 97, 117, 116, 104, 111, 114, 105, 116, 121];
            push_bytes(&mut v, b.as_slice());
        },
        Seed::GreenLabelRefundableEscrow => {
            let b: [u8; 29] = [103, 114, 101, 101, 110, 95, 108, 97, 98, 101, 108, 95, 114, 101, 102, 117, 110, 100, 97, 98, 108, 101, 95, 101, 115, 99, 114, 111, 119];
            push_bytes(&mut v, b.as_slice());
        },
        Seed::GreenLabelRefundableVault => {
            let b: [u8; 28] = [103, 114, 101, 101, 110, 95, 108, 97, 98, 101, 108, 95, 114, 101, 102, 117, 110, 100, 97, 98, 108, 101, 95, 118, 97, 117, 108, 116];
            push_bytes(&mut v, b.as_slice());
        },
    }
    assert(v@ =~= spec_seed(seed));
    v
}

/// Deep and shallow views of a byte vector agree.
proof fn lemma_bytes_deep_view(v: Vec<u8>)
    ensures
        v.deep_view() == v@,
{
    assert(v.deep_view() =~= v@);
}

/// The address and bump derived for `seeds` under this program's id, or
/// `None` where there is none.
pub open spec fn spec_program_address(seeds: Seq<Seq<u8>>) -> Option<(Pubkey, u8)> {
    match spec_try_find_program_address(seeds, key_bytes(spec_program_id())) {
        Some((address, bump)) => Some((spec_key_from_bytes(address), bump)),
        None => None,
    }
}

/// Derives this program's address for `seeds`; `None` where no bump seed
/// gives one.
pub fn derive_program_address(seeds: &Vec<Vec<u8>>) -> (r: Option<(Pubkey, u8)>)
    ensures
        r == spec_program_address(seeds.deep_view()),
{
    let id = key_to_vec(program_id());
    match try_find_program_address(seeds, &id) {
        Some((address, bump)) => Some((Key32::new_from_array(address), bump)),
        None => None,
    }
}

/// Whether a derived address is `key` with bump `bump`; a derivation that
/// found nothing matches no account.
pub fn is_derived_address(found: Option<(Pubkey, u8)>, key: Pubkey, bump: u8) -> (b: bool)
    ensures
        b == (found == Some((key, bump))),
{
    match found {
        Some((address, found_bump)) => address == key && found_bump == bump,
        None => false,
    }
}

/// Whether a derivation found the address `key`, whatever its bump.
pub open spec fn spec_address_is(found: Option<(Pubkey, u8)>, key: Pubkey) -> bool {
    match found {
        Some((address, _)) => address == key,
        None => false,
    }
}

/// Whether a derivation found the address `key`, whatever its bump; a
/// derivation that found nothing matches no account.
pub fn is_derived_key(found: Option<(Pubkey, u8)>, key: Pubkey) -> (b: bool)
    ensures
        b == spec_address_is(found, key),
{
    match found {
        Some((address, _)) => address == key,
        None => false,
    }
}

/// The address derived from a single fixed seed.
pub fn single_seed_address(seed: Seed) -> (r: Option<(Pubkey, u8)>)
    ensures
        r == spec_program_address(seq![spec_seed(seed)]),
{
    let mut seeds: Vec<Vec<u8>> = Vec::new();
    let first = seed_bytes(seed);
    proof { lemma_bytes_deep_view(first); }
    seeds.push(first);
    assert(seeds.deep_view() =~= seq![spec_seed(seed)]);
    derive_program_address(&seeds)
}

/// The address derived from a fixed seed followed by a key.
pub fn seed_and_key_address(seed: Seed, key: Pubkey) -> (r: Option<(Pubkey, u8)>)
    ensures
        r == spec_program_address(seq![spec_seed(seed), key_bytes(key)]),
{
    let mut seeds: Vec<Vec<u8>> = Vec::new();
    let first = seed_bytes(seed);
    let second = key_to_vec(key);
    proof { lemma_bytes_deep_view(first); lemma_bytes_deep_view(second); }
    seeds.push(first);
    seeds.push(second);
    assert(seeds.deep_view() =~= seq![spec_seed(seed), key_bytes(key)]);
    derive_program_address(&seeds)
}

/// The address derived from a fixed seed followed by a one-byte code.
pub fn seed_and_code_address(seed: Seed, code: u8) -> (r: Option<(Pubkey, u8)>)
    ensures
        r == spec_program_address(seq![spec_seed(seed), seq![code]]),
{
    let mut seeds: Vec<Vec<u8>> = Vec::new();
    let first = seed_bytes(seed);
    let mut code_seed: Vec<u8> = Vec::new();
    code_seed.push(code);
    proof { lemma_bytes_deep_view(first); lemma_bytes_deep_view(code_seed); }
    seeds.push(first);
    seeds.push(code_seed);
    assert(seeds.deep_view() =~= seq![spec_seed(seed), seq![code]]);
    derive_program_address(&seeds)
}

} // verus!
