//! The one-time Green Label certification fee: its policy, the hashed
//! parameters that bind a payment to its accounts, the checks before the fee
//! is routed to the treasury and the receipt that makes it payable once.
use vstd::prelude::*;
use crate::codec::{byte_part, key_part, lemma_byte_part, lemma_concat_split, lemma_key_part, lemma_u16_part, lemma_u64_part, u16_part, u64_part};
use crate::tags::{lemma_revenue_type_tag_injective};
use crate::codec::{key_bytes, le_u16, le_u64, push_key, push_u16, push_u64, push_u8};
use crate::constants::{
    GREEN_LABEL_CERTIFICATION_FEE_POLICY_VERSION, GREEN_LABEL_CERTIFICATION_FEE_SCHEMA_VERSION,
    GREEN_LABEL_USDC_DECIMALS,
};
use crate::domains::{push_domain, spec_domain, Domain};
use crate::error::{CustomError, ProgramResult};
use crate::hashing::{hash_contributor_payload, spec_payload_hash};
use crate::keys::{Hash32, Key32, Pubkey};
use crate::state::{
    GreenLabelCertificationFeePolicyV1, GreenLabelCertificationFeeReceiptV1, GreenLabelConfigV1, GreenLabelProjectV1,
    GreenLabelStatus, RevenueRoutingStatsV1, RevenueType, TokenAccount, TreasuryConfigV2, TreasuryUsdcStateV2,
};
use crate::tags::{revenue_type_tag, spec_revenue_type_tag};

verus! {

/// What a certification fee payment commits to.
#[derive(Clone, Copy, Debug, PartialEq, Eq, Structural)]
pub struct GreenLabelCertificationFeeParametersV1 {
    pub schema_version: u16,
    pub green_label_config: Pubkey,
    pub fee_policy: Pubkey,
    pub policy_version: u64,
    pub green_label_project: Pubkey,
    pub project_id: u64,
    pub project_owner: Pubkey,
    pub payer: Pubkey,
    pub payer_token_account: Pubkey,
    pub fee_amount_usdc: u64,
    pub usdc_mint: Pubkey,
    pub treasury_config: Pubkey,
    pub treasury_usdc_state: Pubkey,
    pub revenue_routing_stats: Pubkey,
    pub relief_usdc_vault: Pubkey,
    pub buyback_usdc_vault: Pubkey,
    pub builders_usdc_vault: Pubkey,
    pub staking_usdc_vault: Pubkey,
    pub revenue_type: RevenueType,
}

/// The outcome of checking a fee policy request.
pub open spec fn spec_fee_policy_init(expected_authority: Pubkey, authority: Pubkey, usdc_mint: Pubkey, fee_amount_usdc: u64) -> ProgramResult<()> {
    if expected_authority != authority {
        Err(CustomError::UnauthorizedGreenLabelAuthority)
    } else if usdc_mint == Key32::zero() {
        Err(CustomError::GreenLabelCertificationFeeMintMismatch)
    } else if fee_amount_usdc == 0 {
        Err(CustomError::InvalidGreenLabelCertificationFeeAmount)
    } else {
        Ok(())
    }
}

/// Only the configuration authority may set a fee policy, for a real mint
/// and a nonzero fee.
pub fn validate_green_label_certification_fee_policy_init_v1(
    expected_authority: Pubkey,
    authority: Pubkey,
    usdc_mint: Pubkey,
    fee_amount_usdc: u64,
) -> (r: ProgramResult<()>)
    ensures
        r == spec_fee_policy_init(expected_authority, authority, usdc_mint, fee_amount_usdc),
{
    if expected_authority != authority {
        return Err(CustomError::UnauthorizedGreenLabelAuthority);
    }
    if usdc_mint.is_zero() {
        return Err(CustomError::GreenLabelCertificationFeeMintMismatch);
    }
    if fee_amount_usdc == 0 {
        return Err(CustomError::InvalidGreenLabelCertificationFeeAmount);
    }
    Ok(())
}

/// Writes a new, active fee policy of the current version and schema; a
/// policy that is already set, a zero mint or a zero fee fails and changes
/// nothing.
pub fn record_green_label_certification_fee_policy_init_v1(
    policy: &mut GreenLabelCertificationFeePolicyV1,
    green_label_config: Pubkey,
    usdc_mint: Pubkey,
    fee_amount_usdc: u64,
    initialized_by: Pubkey,
    now: i64,
    bump: u8,
) -> (r: ProgramResult<()>)
    ensures
        old(policy).green_label_config != Key32::zero() ==> {
            &&& r == Err::<(), CustomError>(CustomError::GreenLabelCertificationFeePolicyAlreadyInitialized)
            &&& *final(policy) == *old(policy)
        },
        old(policy).green_label_config == Key32::zero() ==> match spec_fee_policy_init(initialized_by, initialized_by, usdc_mint, fee_amount_usdc) {
            Err(e) => r == Err::<(), CustomError>(e) && *final(policy) == *old(policy),
            Ok(_) => r == Ok::<(), CustomError>(()) && *final(policy) == (GreenLabelCertificationFeePolicyV1 {
                green_label_config,
                usdc_mint,
                fee_amount_usdc,
                policy_version: GREEN_LABEL_CERTIFICATION_FEE_POLICY_VERSION,
                active: true,
                initialized_by,
                created_at: now,
                schema_version: GREEN_LABEL_CERTIFICATION_FEE_SCHEMA_VERSION,
                bump,
            }),
        },
{
    if !policy.green_label_config.is_zero() {
        return Err(CustomError::GreenLabelCertificationFeePolicyAlreadyInitialized);
    }
    validate_green_label_certification_fee_policy_init_v1(initialized_by, initialized_by, usdc_mint, fee_amount_usdc)?;
    policy.green_label_config = green_label_config;
    policy.usdc_mint = usdc_mint;
    policy.fee_amount_usdc = fee_amount_usdc;
    policy.policy_version = GREEN_LABEL_CERTIFICATION_FEE_POLICY_VERSION;
    policy.active = true;
    policy.initialized_by = initialized_by;
    policy.created_at = now;
    policy.schema_version = GREEN_LABEL_CERTIFICATION_FEE_SCHEMA_VERSION;
    policy.bump = bump;
    Ok(())
}

/// The outcome of checking fee parameters before they are hashed.
pub open spec fn spec_validate_fee_parameters(p: GreenLabelCertificationFeeParametersV1) -> ProgramResult<()> {
    if p.schema_version != GREEN_LABEL_CERTIFICATION_FEE_SCHEMA_VERSION
        || p.policy_version != GREEN_LABEL_CERTIFICATION_FEE_POLICY_VERSION {
        Err(CustomError::InvalidGreenLabelCertificationFeePolicySchema)
    } else if p.revenue_type != RevenueType::GreenLabelCertificationFee || p.green_label_config == Key32::zero()
        || p.fee_policy == Key32::zero() {
        Err(CustomError::GreenLabelCertificationFeeParametersMismatch)
    } else if p.green_label_project == Key32::zero() {
        Err(CustomError::GreenLabelCertificationFeeProjectMismatch)
    } else if p.project_owner == Key32::zero() || p.payer == Key32::zero() || p.payer_token_account == Key32::zero() {
        Err(CustomError::GreenLabelCertificationFeePayerMismatch)
    } else if p.fee_amount_usdc == 0 {
        Err(CustomError::InvalidGreenLabelCertificationFeeAmount)
    } else if p.usdc_mint == Key32::zero() {
        Err(CustomError::GreenLabelCertificationFeeMintMismatch)
    } else if p.treasury_config == Key32::zero() || p.treasury_usdc_state == Key32::zero()
        || p.revenue_routing_stats == Key32::zero() || p.relief_usdc_vault == Key32::zero()
        || p.buyback_usdc_vault == Key32::zero() || p.builders_usdc_vault == Key32::zero()
        || p.staking_usdc_vault == Key32::zero() {
        Err(CustomError::GreenLabelCertificationFeeTreasuryMismatch)
    } else {
        Ok(())
    }
}

/// The Borsh encoding of the policy and payer half of fee parameters.
#[verifier::opaque]
pub open spec fn spec_fee_parameters_head(p: GreenLabelCertificationFeeParametersV1) -> Seq<u8> {
    le_u16(p.schema_version)
        + key_bytes(p.green_label_config)
        + key_bytes(p.fee_policy)
        + le_u64(p.policy_version)
        + key_bytes(p.green_label_project)
        + le_u64(p.project_id)
        + key_bytes(p.project_owner)
        + key_bytes(p.payer)
        + key_bytes(p.payer_token_account)
        + le_u64(p.fee_amount_usdc)
}

/// The Borsh encoding of the mint and treasury half of fee parameters.
#[verifier::opaque]
pub open spec fn spec_fee_parameters_tail(p: GreenLabelCertificationFeeParametersV1) -> Seq<u8> {
    key_bytes(p.usdc_mint)
        + key_bytes(p.treasury_config)
        + key_bytes(p.treasury_usdc_state)
        + key_bytes(p.revenue_routing_stats)
        + key_bytes(p.relief_usdc_vault)
        + key_bytes(p.buyback_usdc_vault)
        + key_bytes(p.builders_usdc_vault)
        + key_bytes(p.staking_usdc_vault)
        + seq![spec_revenue_type_tag(p.revenue_type)]
}

/// The Borsh encoding of fee parameters.
pub open spec fn spec_fee_parameters_bytes(p: GreenLabelCertificationFeeParametersV1) -> Seq<u8> {
    spec_fee_parameters_head(p) + spec_fee_parameters_tail(p)
}

fn push_fee_parameters_head(out: &mut Vec<u8>, p: &GreenLabelCertificationFeeParametersV1)
    ensures
        final(out)@ == old(out)@ + spec_fee_parameters_head(*p),
        spec_fee_parameters_head(*p).len() == 218,
{
    reveal(spec_fee_parameters_head);
    push_u16(out, p.schema_version);
    push_key(out, p.green_label_config);
    push_key(out, p.fee_policy);
    push_u64(out, p.policy_version);
    push_key(out, p.green_label_project);
    push_u64(out, p.project_id);
    push_key(out, p.project_owner);
    push_key(out, p.payer);
    push_key(out, p.payer_token_account);
    push_u64(out, p.fee_amount_usdc);
    assert(out@ =~= old(out)@ + spec_fee_parameters_head(*p));
}

fn push_fee_parameters_tail(out: &mut Vec<u8>, p: &GreenLabelCertificationFeeParametersV1)
    ensures
        final(out)@ == old(out)@ + spec_fee_parameters_tail(*p),
        spec_fee_parameters_tail(*p).len() == 257,
{
    reveal(spec_fee_parameters_tail);
    push_key(out, p.usdc_mint);
    push_key(out, p.treasury_config);
    push_key(out, p.treasury_usdc_state);
    push_key(out, p.revenue_routing_stats);
    push_key(out, p.relief_usdc_vault);
    push_key(out, p.buyback_usdc_vault);
    push_key(out, p.builders_usdc_vault);
    push_key(out, p.staking_usdc_vault);
    push_u8(out, revenue_type_tag(p.revenue_type));
    assert(out@ =~= old(out)@ + spec_fee_parameters_tail(*p));
}

/// The hash of fee parameters: the payload hash of the fee domain separator
/// followed by their encoding, once they pass their checks.
pub open spec fn spec_fee_parameters_hash(p: GreenLabelCertificationFeeParametersV1) -> ProgramResult<Hash32> {
    match spec_validate_fee_parameters(p) {
        Err(e) => Err(e),
        Ok(_) => Ok(spec_payload_hash(spec_domain(Domain::GreenLabelCertificationFeeParameters) + spec_fee_parameters_bytes(p))),
    }
}

fn validate_fee_parameters(parameters: &GreenLabelCertificationFeeParametersV1) -> (r: ProgramResult<()>)
    ensures
        r == spec_validate_fee_parameters(*parameters),
{
    if parameters.schema_version != GREEN_LABEL_CERTIFICATION_FEE_SCHEMA_VERSION {
        return Err(CustomError::InvalidGreenLabelCertificationFeePolicySchema);
    }
    if parameters.policy_version != GREEN_LABEL_CERTIFICATION_FEE_POLICY_VERSION {
        return Err(CustomError::InvalidGreenLabelCertificationFeePolicySchema);
    }
    if parameters.revenue_type != RevenueType::GreenLabelCertificationFee {
        return Err(CustomError::GreenLabelCertificationFeeParametersMismatch);
    }
    if parameters.green_label_config.is_zero() || parameters.fee_policy.is_zero() {
        return Err(CustomError::GreenLabelCertificationFeeParametersMismatch);
    }
    if parameters.green_label_project.is_zero() {
        return Err(CustomError::GreenLabelCertificationFeeProjectMismatch);
    }
    if parameters.project_owner.is_zero() || parameters.payer.is_zero() || parameters.payer_token_account.is_zero() {
        return Err(CustomError::GreenLabelCertificationFeePayerMismatch);
    }
    if parameters.fee_amount_usdc == 0 {
        return Err(CustomError::InvalidGreenLabelCertificationFeeAmount);
    }
    if parameters.usdc_mint.is_zero() {
        return Err(CustomError::GreenLabelCertificationFeeMintMismatch);
    }
    if parameters.treasury_config.is_zero() || parameters.treasury_usdc_state.is_zero()
        || parameters.revenue_routing_stats.is_zero() || parameters.relief_usdc_vault.is_zero()
        || parameters.buyback_usdc_vault.is_zero() || parameters.builders_usdc_vault.is_zero()
        || parameters.staking_usdc_vault.is_zero() {
        return Err(CustomError::GreenLabelCertificationFeeTreasuryMismatch);
    }
    Ok(())
}

/// Checks fee parameters and hashes them under the fee domain.
pub fn hash_green_label_certification_fee_parameters_v1(parameters: &GreenLabelCertificationFeeParametersV1) -> (r: ProgramResult<Hash32>)
    ensures
        r == spec_fee_parameters_hash(*parameters),
{
    validate_fee_parameters(parameters)?;
    let mut bytes: Vec<u8> = Vec::new();
    push_domain(&mut bytes, Domain::GreenLabelCertificationFeeParameters);
    push_fee_parameters_head(&mut bytes, parameters);
    push_fee_parameters_tail(&mut bytes, parameters);
    assert(bytes@ =~= spec_domain(Domain::GreenLabelCertificationFeeParameters) + spec_fee_parameters_bytes(*parameters));
    hash_contributor_payload(&bytes)
}

impl GreenLabelCertificationFeeParametersV1 {
    /// Appends the Borsh encoding of these parameters to `out`.
    pub fn serialize(&self, out: &mut Vec<u8>) -> (r: ProgramResult<()>)
        ensures
            r is Ok,
            final(out)@ == old(out)@ + spec_fee_parameters_bytes(*self),
    {
        push_fee_parameters_head(out, self);
        push_fee_parameters_tail(out, self);
        assert(out@ =~= old(out)@ + spec_fee_parameters_bytes(*self));
        Ok(())
    }
}

/// The fee parameters of a payment: the policy's version, amount and mint,
/// the project's id and owner, and the given accounts.
pub open spec fn spec_fee_parameters(
    green_label_config: Pubkey,
    fee_policy: Pubkey,
    policy: GreenLabelCertificationFeePolicyV1,
    green_label_project: Pubkey,
    project: GreenLabelProjectV1,
    payer: Pubkey,
    payer_token_account: Pubkey,
    treasury_config: Pubkey,
    treasury_usdc_state: Pubkey,
    revenue_routing_stats: Pubkey,
    relief_usdc_vault: Pubkey,
    buyback_usdc_vault: Pubkey,
    builders_usdc_vault: Pubkey,
    staking_usdc_vault: Pubkey,
) -> GreenLabelCertificationFeeParametersV1 {
    GreenLabelCertificationFeeParametersV1 {
        schema_version: GREEN_LABEL_CERTIFICATION_FEE_SCHEMA_VERSION,
        green_label_config,
        fee_policy,
        policy_version: policy.policy_version,
        green_label_project,
        project_id: project.project_id,
        project_owner: project.project_owner,
        payer,
        payer_token_account,
        fee_amount_usdc: policy.fee_amount_usdc,
        usdc_mint: policy.usdc_mint,
        treasury_config,
        treasury_usdc_state,
        revenue_routing_stats,
        relief_usdc_vault,
        buyback_usdc_vault,
        builders_usdc_vault,
        staking_usdc_vault,
        revenue_type: RevenueType::GreenLabelCertificationFee,
    }
}

/// Builds the fee parameters of a payment.
pub fn build_green_label_certification_fee_parameters_v1(
    green_label_config: Pubkey,
    fee_policy: Pubkey,
    policy: &GreenLabelCertificationFeePolicyV1,
    green_label_project: Pubkey,
    project: &GreenLabelProjectV1,
    payer: Pubkey,
    payer_token_account: Pubkey,
    treasury_config: Pubkey,
    treasury_usdc_state: Pubkey,
    revenue_routing_stats: Pubkey,
    relief_usdc_vault: Pubkey,
    buyback_usdc_vault: Pubkey,
    builders_usdc_vault: Pubkey,
    staking_usdc_vault: Pubkey,
) -> (r: ProgramResult<GreenLabelCertificationFeeParametersV1>)
    ensures
        r == Ok::<GreenLabelCertificationFeeParametersV1, CustomError>(spec_fee_parameters(green_label_config, fee_policy,
            *policy, green_label_project, *project, payer, payer_token_account, treasury_config, treasury_usdc_state,
            revenue_routing_stats, relief_usdc_vault, buyback_usdc_vault, builders_usdc_vault, staking_usdc_vault)),
{
    Ok(GreenLabelCertificationFeeParametersV1 {
        schema_version: GREEN_LABEL_CERTIFICATION_FEE_SCHEMA_VERSION,
        green_label_config,
        fee_policy,
        policy_version: policy.policy_version,
        green_label_project,
        project_id: project.project_id,
        project_owner: project.project_owner,
        payer,
        payer_token_account,
        fee_amount_usdc: policy.fee_amount_usdc,
        usdc_mint: policy.usdc_mint,
        treasury_config,
        treasury_usdc_state,
        revenue_routing_stats,
        relief_usdc_vault,
        buyback_usdc_vault,
        builders_usdc_vault,
        staking_usdc_vault,
        revenue_type: RevenueType::GreenLabelCertificationFee,
    })
}

/// The policy, project, payer and treasury checks of a fee payment.
pub open spec fn spec_fee_accounts(
    config: GreenLabelConfigV1,
    config_key: Pubkey,
    project: GreenLabelProjectV1,
    policy: GreenLabelCertificationFeePolicyV1,
    payer_usdc_account: TokenAccount,
    payer: Pubkey,
    treasury_config: TreasuryConfigV2,
    treasury_usdc_state_key: Pubkey,
    revenue_routing_stats: RevenueRoutingStatsV1,
    vault_authority_key: Pubkey,
    usdc_mint_key: Pubkey,
    usdc_decimals: u8,
) -> ProgramResult<()> {
    if config.is_paused {
        Err(CustomError::InvalidGreenLabelStatus)
    } else if policy.schema_version != GREEN_LABEL_CERTIFICATION_FEE_SCHEMA_VERSION
        || policy.policy_version != GREEN_LABEL_CERTIFICATION_FEE_POLICY_VERSION {
        Err(CustomError::InvalidGreenLabelCertificationFeePolicySchema)
    } else if !policy.active {
        Err(CustomError::GreenLabelCertificationFeePolicyInactive)
    } else if policy.fee_amount_usdc == 0 {
        Err(CustomError::InvalidGreenLabelCertificationFeeAmount)
    } else if policy.green_label_config != config_key {
        Err(CustomError::GreenLabelCertificationFeeParametersMismatch)
    } else if policy.usdc_mint != config.usdc_mint {
        Err(CustomError::GreenLabelCertificationFeeMintMismatch)
    } else if project.status != GreenLabelStatus::PendingBondDeposit {
        Err(CustomError::GreenLabelCertificationFeeStatusMismatch)
    } else if project.project_owner != payer || payer_usdc_account.owner != payer {
        Err(CustomError::GreenLabelCertificationFeePayerMismatch)
    } else if payer_usdc_account.mint != policy.usdc_mint {
        Err(CustomError::GreenLabelCertificationFeeMintMismatch)
    } else if payer_usdc_account.amount < policy.fee_amount_usdc {
        Err(CustomError::GreenLabelCertificationFeeInsufficientFunds)
    } else if usdc_mint_key != policy.usdc_mint {
        Err(CustomError::GreenLabelCertificationFeeMintMismatch)
    } else if usdc_decimals != GREEN_LABEL_USDC_DECIMALS {
        Err(CustomError::GreenLabelCertificationFeeDecimalsMismatch)
    } else if treasury_config.usdc_mint != policy.usdc_mint {
        Err(CustomError::GreenLabelCertificationFeeMintMismatch)
    } else if config.treasury_usdc_state_v2 != treasury_usdc_state_key {
        Err(CustomError::GreenLabelCertificationFeeTreasuryMismatch)
    } else if revenue_routing_stats.authority != treasury_config.authority {
        Err(CustomError::UnauthorizedTreasuryAuthority)
    } else if revenue_routing_stats.usdc_mint != policy.usdc_mint {
        Err(CustomError::GreenLabelCertificationFeeMintMismatch)
    } else if config.vault_authority_v2 != vault_authority_key {
        Err(CustomError::GreenLabelCertificationFeeTreasuryMismatch)
    } else {
        Ok(())
    }
}

/// The four treasury vaults of a fee payment: USDC, held by the vault
/// authority, none of them the payer's own account.
pub open spec fn spec_fee_vaults(
    usdc_mint: Pubkey,
    vault_authority_key: Pubkey,
    payer_usdc_account_key: Pubkey,
    relief_usdc_vault_key: Pubkey,
    relief_usdc_vault: TokenAccount,
    buyback_usdc_vault_key: Pubkey,
    buyback_usdc_vault: TokenAccount,
    builders_usdc_vault_key: Pubkey,
    builders_usdc_vault: TokenAccount,
    staking_usdc_vault_key: Pubkey,
    staking_usdc_vault: TokenAccount,
) -> ProgramResult<()> {
    if relief_usdc_vault.mint != usdc_mint || buyback_usdc_vault.mint != usdc_mint
        || builders_usdc_vault.mint != usdc_mint || staking_usdc_vault.mint != usdc_mint {
        Err(CustomError::GreenLabelCertificationFeeMintMismatch)
    } else if relief_usdc_vault.owner != vault_authority_key || buyback_usdc_vault.owner != vault_authority_key
        || builders_usdc_vault.owner != vault_authority_key || staking_usdc_vault.owner != vault_authority_key
        || relief_usdc_vault_key == payer_usdc_account_key || buyback_usdc_vault_key == payer_usdc_account_key
        || builders_usdc_vault_key == payer_usdc_account_key || staking_usdc_vault_key == payer_usdc_account_key {
        Err(CustomError::GreenLabelCertificationFeeTreasuryMismatch)
    } else {
        Ok(())
    }
}

/// The fee parameters must be exactly those of this payment.
pub open spec fn spec_fee_parameters_match(
    p: GreenLabelCertificationFeeParametersV1,
    config_key: Pubkey,
    project: GreenLabelProjectV1,
    project_key: Pubkey,
    policy: GreenLabelCertificationFeePolicyV1,
    policy_key: Pubkey,
    payer: Pubkey,
    payer_usdc_account_key: Pubkey,
    treasury_config_key: Pubkey,
    treasury_usdc_state_key: Pubkey,
    revenue_routing_stats_key: Pubkey,
    relief_usdc_vault_key: Pubkey,
    buyback_usdc_vault_key: Pubkey,
    builders_usdc_vault_key: Pubkey,
    staking_usdc_vault_key: Pubkey,
) -> ProgramResult<()> {
    if p.schema_version != GREEN_LABEL_CERTIFICATION_FEE_SCHEMA_VERSION {
        Err(CustomError::InvalidGreenLabelCertificationFeePolicySchema)
    } else if p.green_label_config != config_key || p.fee_policy != policy_key || p.policy_version != policy.policy_version {
        Err(CustomError::GreenLabelCertificationFeeParametersMismatch)
    } else if p.green_label_project != project_key || p.project_id != project.project_id {
        Err(CustomError::GreenLabelCertificationFeeProjectMismatch)
    } else if p.project_owner != project.project_owner || p.payer != payer || p.payer_token_account != payer_usdc_account_key {
        Err(CustomError::GreenLabelCertificationFeePayerMismatch)
    } else if p.fee_amount_usdc != policy.fee_amount_usdc {
        Err(CustomError::InvalidGreenLabelCertificationFeeAmount)
    } else if p.usdc_mint != policy.usdc_mint {
        Err(CustomError::GreenLabelCertificationFeeMintMismatch)
    } else if p.treasury_config != treasury_config_key || p.treasury_usdc_state != treasury_usdc_state_key
        || p.revenue_routing_stats != revenue_routing_stats_key || p.relief_usdc_vault != relief_usdc_vault_key
        || p.buyback_usdc_vault != buyback_usdc_vault_key || p.builders_usdc_vault != builders_usdc_vault_key
        || p.staking_usdc_vault != staking_usdc_vault_key {
        Err(CustomError::GreenLabelCertificationFeeTreasuryMismatch)
    } else if p.revenue_type != RevenueType::GreenLabelCertificationFee {
        Err(CustomError::GreenLabelCertificationFeeParametersMismatch)
    } else {
        Ok(())
    }
}

/// The outcome of checking a certification fee payment: the hash of its
/// parameters, or the first check that fails.
pub open spec fn spec_fee_once(
    green_label_config: GreenLabelConfigV1,
    green_label_config_key: Pubkey,
    green_label_project: GreenLabelProjectV1,
    green_label_project_key: Pubkey,
    fee_policy: GreenLabelCertificationFeePolicyV1,
    fee_policy_key: Pubkey,
    payer_usdc_account: TokenAccount,
    payer_usdc_account_key: Pubkey,
    payer: Pubkey,
    treasury_config: TreasuryConfigV2,
    treasury_config_key: Pubkey,
    treasury_usdc_state_key: Pubkey,
    revenue_routing_stats: RevenueRoutingStatsV1,
    revenue_routing_stats_key: Pubkey,
    vault_authority_key: Pubkey,
    relief_usdc_vault_key: Pubkey,
    relief_usdc_vault: TokenAccount,
    buyback_usdc_vault_key: Pubkey,
    buyback_usdc_vault: TokenAccount,
    builders_usdc_vault_key: Pubkey,
    builders_usdc_vault: TokenAccount,
    staking_usdc_vault_key: Pubkey,
    staking_usdc_vault: TokenAccount,
    usdc_mint_key: Pubkey,
    usdc_decimals: u8,
    parameters: GreenLabelCertificationFeeParametersV1,
) -> ProgramResult<Hash32> {
    match spec_fee_accounts(green_label_config, green_label_config_key, green_label_project, fee_policy,
        payer_usdc_account, payer, treasury_config, treasury_usdc_state_key, revenue_routing_stats,
        vault_authority_key, usdc_mint_key, usdc_decimals) {
        Err(e) => Err(e),
        Ok(_) => match spec_fee_vaults(fee_policy.usdc_mint, vault_authority_key, payer_usdc_account_key,
            relief_usdc_vault_key, relief_usdc_vault, buyback_usdc_vault_key, buyback_usdc_vault,
            builders_usdc_vault_key, builders_usdc_vault, staking_usdc_vault_key, staking_usdc_vault) {
            Err(e) => Err(e),
            Ok(_) => match spec_fee_parameters_match(parameters, green_label_config_key, green_label_project,
                green_label_project_key, fee_policy, fee_policy_key, payer, payer_usdc_account_key,
                treasury_config_key, treasury_usdc_state_key, revenue_routing_stats_key, relief_usdc_vault_key,
                buyback_usdc_vault_key, builders_usdc_vault_key, staking_usdc_vault_key) {
                Err(e) => Err(e),
                Ok(_) => spec_fee_parameters_hash(parameters),
            },
        },
    }
}

/// Checks a certification fee payment and returns the hash of its
/// parameters: an active policy of the current version for this
/// configuration and mint, a project still awaiting its bond whose owner
/// pays from their own USDC account holding the fee, the treasury accounts
/// of this configuration, and parameters that name exactly these accounts.
pub fn validate_green_label_certification_fee_once_v1(
    green_label_config: &GreenLabelConfigV1,
    green_label_config_key: Pubkey,
    green_label_project: &GreenLabelProjectV1,
    green_label_project_key: Pubkey,
    fee_policy: &GreenLabelCertificationFeePolicyV1,
    fee_policy_key: Pubkey,
    payer_usdc_account: &TokenAccount,
    payer_usdc_account_key: Pubkey,
    payer: Pubkey,
    treasury_config: &TreasuryConfigV2,
    treasury_config_key: Pubkey,
    _treasury_usdc_state: &TreasuryUsdcStateV2,
    treasury_usdc_state_key: Pubkey,
    revenue_routing_stats: &RevenueRoutingStatsV1,
    revenue_routing_stats_key: Pubkey,
    vault_authority_key: Pubkey,
    relief_usdc_vault_key: Pubkey,
    relief_usdc_vault: &TokenAccount,
    buyback_usdc_vault_key: Pubkey,
    buyback_usdc_vault: &TokenAccount,
    builders_usdc_vault_key: Pubkey,
    builders_usdc_vault: &TokenAccount,
    staking_usdc_vault_key: Pubkey,
    staking_usdc_vault: &TokenAccount,
    usdc_mint_key: Pubkey,
    usdc_decimals: u8,
    parameters: &GreenLabelCertificationFeeParametersV1,
) -> (r: ProgramResult<Hash32>)
    ensures
        r == spec_fee_once(*green_label_config, green_label_config_key, *green_label_project, green_label_project_key,
            *fee_policy, fee_policy_key, *payer_usdc_account, payer_usdc_account_key, payer, *treasury_config,
            treasury_config_key, treasury_usdc_state_key, *revenue_routing_stats, revenue_routing_stats_key,
            vault_authority_key, relief_usdc_vault_key, *relief_usdc_vault, buyback_usdc_vault_key, *buyback_usdc_vault,
            builders_usdc_vault_key, *builders_usdc_vault, staking_usdc_vault_key, *staking_usdc_vault, usdc_mint_key,
            usdc_decimals, *parameters),
{
    if green_label_config.is_paused {
        return Err(CustomError::InvalidGreenLabelStatus);
    }
    if fee_policy.schema_version != GREEN_LABEL_CERTIFICATION_FEE_SCHEMA_VERSION {
        return Err(CustomError::InvalidGreenLabelCertificationFeePolicySchema);
    }
    if fee_policy.policy_version != GREEN_LABEL_CERTIFICATION_FEE_POLICY_VERSION {
        return Err(CustomError::InvalidGreenLabelCertificationFeePolicySchema);
    }
    if !fee_policy.active {
        return Err(CustomError::GreenLabelCertificationFeePolicyInactive);
    }
    if fee_policy.fee_amount_usdc == 0 {
        return Err(CustomError::InvalidGreenLabelCertificationFeeAmount);
    }
    if fee_policy.green_label_config != green_label_config_key {
        return Err(CustomError::GreenLabelCertificationFeeParametersMismatch);
    }
    if fee_policy.usdc_mint != green_label_config.usdc_mint {
        return Err(CustomError::GreenLabelCertificationFeeMintMismatch);
    }
    if green_label_project.status != GreenLabelStatus::PendingBondDeposit {
        return Err(CustomError::GreenLabelCertificationFeeStatusMismatch);
    }
    if green_label_project.project_owner != payer {
        return Err(CustomError::GreenLabelCertificationFeePayerMismatch);
    }
    if payer_usdc_account.owner != payer {
        return Err(CustomError::GreenLabelCertificationFeePayerMismatch);
    }
    if payer_usdc_account.mint != fee_policy.usdc_mint {
        return Err(CustomError::GreenLabelCertificationFeeMintMismatch);
    }
    if payer_usdc_account.amount < fee_policy.fee_amount_usdc {
        return Err(CustomError::GreenLabelCertificationFeeInsufficientFunds);
    }
    if usdc_mint_key != fee_policy.usdc_mint {
        return Err(CustomError::GreenLabelCertificationFeeMintMismatch);
    }
    if usdc_decimals != GREEN_LABEL_USDC_DECIMALS {
        return Err(CustomError::GreenLabelCertificationFeeDecimalsMismatch);
    }
    if treasury_config.usdc_mint != fee_policy.usdc_mint {
        return Err(CustomError::GreenLabelCertificationFeeMintMismatch);
    }
    if green_label_config.treasury_usdc_state_v2 != treasury_usdc_state_key {
        return Err(CustomError::GreenLabelCertificationFeeTreasuryMismatch);
    }
    if revenue_routing_stats.authority != treasury_config.authority {
        return Err(CustomError::UnauthorizedTreasuryAuthority);
    }
    if revenue_routing_stats.usdc_mint != fee_policy.usdc_mint {
        return Err(CustomError::GreenLabelCertificationFeeMintMismatch);
    }
    if green_label_config.vault_authority_v2 != vault_authority_key {
        return Err(CustomError::GreenLabelCertificationFeeTreasuryMismatch);
    }
    validate_fee_vaults(fee_policy.usdc_mint, vault_authority_key, payer_usdc_account_key, relief_usdc_vault_key,
        relief_usdc_vault, buyback_usdc_vault_key, buyback_usdc_vault, builders_usdc_vault_key, builders_usdc_vault,
        staking_usdc_vault_key, staking_usdc_vault)?;
    validate_fee_parameters_match(parameters, green_label_config_key, green_label_project, green_label_project_key,
        fee_policy, fee_policy_key, payer, payer_usdc_account_key, treasury_config_key, treasury_usdc_state_key,
        revenue_routing_stats_key, relief_usdc_vault_key, buyback_usdc_vault_key, builders_usdc_vault_key,
        staking_usdc_vault_key)?;
    hash_green_label_certification_fee_parameters_v1(parameters)
}

fn validate_fee_vaults(
    usdc_mint: Pubkey,
    vault_authority_key: Pubkey,
    payer_usdc_account_key: Pubkey,
    relief_usdc_vault_key: Pubkey,
    relief_usdc_vault: &TokenAccount,
    buyback_usdc_vault_key: Pubkey,
    buyback_usdc_vault: &TokenAccount,
    builders_usdc_vault_key: Pubkey,
    builders_usdc_vault: &TokenAccount,
    staking_usdc_vault_key: Pubkey,
    staking_usdc_vault: &TokenAccount,
) -> (r: ProgramResult<()>)
    ensures
        r == spec_fee_vaults(usdc_mint, vault_authority_key, payer_usdc_account_key, relief_usdc_vault_key,
            *relief_usdc_vault, buyback_usdc_vault_key, *buyback_usdc_vault, builders_usdc_vault_key,
            *builders_usdc_vault, staking_usdc_vault_key, *staking_usdc_vault),
{
    if relief_usdc_vault.mint != usdc_mint || buyback_usdc_vault.mint != usdc_mint
        || builders_usdc_vault.mint != usdc_mint || staking_usdc_vault.mint != usdc_mint {
        return Err(CustomError::GreenLabelCertificationFeeMintMismatch);
    }
    if relief_usdc_vault.owner != vault_authority_key || buyback_usdc_vault.owner != vault_authority_key
        || builders_usdc_vault.owner != vault_authority_key || staking_usdc_vault.owner != vault_authority_key {
        return Err(CustomError::GreenLabelCertificationFeeTreasuryMismatch);
    }
    if relief_usdc_vault_key == payer_usdc_account_key || buyback_usdc_vault_key == payer_usdc_account_key
        || builders_usdc_vault_key == payer_usdc_account_key || staking_usdc_vault_key == payer_usdc_account_key {
        return Err(CustomError::GreenLabelCertificationFeeTreasuryMismatch);
    }
    Ok(())
}

fn validate_fee_parameters_match(
    p: &GreenLabelCertificationFeeParametersV1,
    config_key: Pubkey,
    project: &GreenLabelProjectV1,
    project_key: Pubkey,
    policy: &GreenLabelCertificationFeePolicyV1,
    policy_key: Pubkey,
    payer: Pubkey,
    payer_usdc_account_key: Pubkey,
    treasury_config_key: Pubkey,
    treasury_usdc_state_key: Pubkey,
    revenue_routing_stats_key: Pubkey,
    relief_usdc_vault_key: Pubkey,
    buyback_usdc_vault_key: Pubkey,
    builders_usdc_vault_key: Pubkey,
    staking_usdc_vault_key: Pubkey,
) -> (r: ProgramResult<()>)
    ensures
        r == spec_fee_parameters_match(*p, config_key, *project, project_key, *policy, policy_key, payer,
            payer_usdc_account_key, treasury_config_key, treasury_usdc_state_key, revenue_routing_stats_key,
            relief_usdc_vault_key, buyback_usdc_vault_key, builders_usdc_vault_key, staking_usdc_vault_key),
{
    if p.schema_version != GREEN_LABEL_CERTIFICATION_FEE_SCHEMA_VERSION {
        return Err(CustomError::InvalidGreenLabelCertificationFeePolicySchema);
    }
    if p.green_label_config != config_key || p.fee_policy != policy_key || p.policy_version != policy.policy_version {
        return Err(CustomError::GreenLabelCertificationFeeParametersMismatch);
    }
    if p.green_label_project != project_key || p.project_id != project.project_id {
        return Err(CustomError::GreenLabelCertificationFeeProjectMismatch);
    }
    if p.project_owner != project.project_owner || p.payer != payer || p.payer_token_account != payer_usdc_account_key {
        return Err(CustomError::GreenLabelCertificationFeePayerMismatch);
    }
    if p.fee_amount_usdc != policy.fee_amount_usdc {
        return Err(CustomError::InvalidGreenLabelCertificationFeeAmount);
    }
    if p.usdc_mint != policy.usdc_mint {
        return Err(CustomError::GreenLabelCertificationFeeMintMismatch);
    }
    if p.treasury_config != treasury_config_key || p.treasury_usdc_state != treasury_usdc_state_key
        || p.revenue_routing_stats != revenue_routing_stats_key || p.relief_usdc_vault != relief_usdc_vault_key
        || p.buyback_usdc_vault != buyback_usdc_vault_key || p.builders_usdc_vault != builders_usdc_vault_key
        || p.staking_usdc_vault != staking_usdc_vault_key {
        return Err(CustomError::GreenLabelCertificationFeeTreasuryMismatch);
    }
    if p.revenue_type != RevenueType::GreenLabelCertificationFee {
        return Err(CustomError::GreenLabelCertificationFeeParametersMismatch);
    }
    Ok(())
}

/// The receipt a paid fee leaves: the parameters' accounts and amount, the
/// parameters' hash and the time it was routed.
pub open spec fn spec_fee_receipt(
    receipt: GreenLabelCertificationFeeReceiptV1,
    p: GreenLabelCertificationFeeParametersV1,
    parameters_hash: Hash32,
    routed_at: i64,
    bump: u8,
) -> GreenLabelCertificationFeeReceiptV1 {
    GreenLabelCertificationFeeReceiptV1 {
        green_label_config: p.green_label_config,
        fee_policy: p.fee_policy,
        policy_version: p.policy_version,
        green_label_project: p.green_label_project,
        project_id: p.project_id,
        project_owner: p.project_owner,
        payer: p.payer,
        payer_token_account: p.payer_token_account,
        amount_usdc: p.fee_amount_usdc,
        usdc_mint: p.usdc_mint,
        treasury_config: p.treasury_config,
        treasury_usdc_state: p.treasury_usdc_state,
        revenue_routing_stats: p.revenue_routing_stats,
        relief_usdc_vault: p.relief_usdc_vault,
        buyback_usdc_vault: p.buyback_usdc_vault,
        builders_usdc_vault: p.builders_usdc_vault,
        staking_usdc_vault: p.staking_usdc_vault,
        revenue_type: RevenueType::GreenLabelCertificationFee,
        parameters_hash,
        routed_at,
        schema_version: GREEN_LABEL_CERTIFICATION_FEE_SCHEMA_VERSION,
        bump,
    }
}

/// Records the fee receipt. A receipt that already names a project (the fee
/// was paid), a zero receipt address, or a hash that is not the parameters'
/// hash fails and changes nothing.
pub fn record_green_label_certification_fee_receipt_v1(
    receipt: &mut GreenLabelCertificationFeeReceiptV1,
    parameters: &GreenLabelCertificationFeeParametersV1,
    parameters_hash: Hash32,
    routed_at: i64,
    bump: u8,
    receipt_key: Pubkey,
) -> (r: ProgramResult<()>)
    ensures
        old(receipt).green_label_project != Key32::zero() ==> {
            &&& r == Err::<(), CustomError>(CustomError::GreenLabelCertificationFeeAlreadyPaid)
            &&& *final(receipt) == *old(receipt)
        },
        old(receipt).green_label_project == Key32::zero() && receipt_key == Key32::zero() ==> {
            &&& r == Err::<(), CustomError>(CustomError::GreenLabelCertificationFeeParametersMismatch)
            &&& *final(receipt) == *old(receipt)
        },
        old(receipt).green_label_project == Key32::zero() && receipt_key != Key32::zero() ==> match spec_fee_parameters_hash(*parameters) {
            Err(e) => r == Err::<(), CustomError>(e) && *final(receipt) == *old(receipt),
            Ok(h) => if h != parameters_hash {
                r == Err::<(), CustomError>(CustomError::GreenLabelCertificationFeeParametersMismatch)
                    && *final(receipt) == *old(receipt)
            } else {
                r == Ok::<(), CustomError>(())
                    && *final(receipt) == spec_fee_receipt(*old(receipt), *parameters, parameters_hash, routed_at, bump)
            },
        },
{
    if !receipt.green_label_project.is_zero() {
        return Err(CustomError::GreenLabelCertificationFeeAlreadyPaid);
    }
    if receipt_key.is_zero() {
        return Err(CustomError::GreenLabelCertificationFeeParametersMismatch);
    }
    let expected_hash = hash_green_label_certification_fee_parameters_v1(parameters)?;
    if parameters_hash != expected_hash {
        return Err(CustomError::GreenLabelCertificationFeeParametersMismatch);
    }
    receipt.green_label_config = parameters.green_label_config;
    receipt.fee_policy = parameters.fee_policy;
    receipt.policy_version = parameters.policy_version;
    receipt.green_label_project = parameters.green_label_project;
    receipt.project_id = parameters.project_id;
    receipt.project_owner = parameters.project_owner;
    receipt.payer = parameters.payer;
    receipt.payer_token_account = parameters.payer_token_account;
    receipt.amount_usdc = parameters.fee_amount_usdc;
    receipt.usdc_mint = parameters.usdc_mint;
    receipt.treasury_config = parameters.treasury_config;
    receipt.treasury_usdc_state = parameters.treasury_usdc_state;
    receipt.revenue_routing_stats = parameters.revenue_routing_stats;
    receipt.relief_usdc_vault = parameters.relief_usdc_vault;
    receipt.buyback_usdc_vault = parameters.buyback_usdc_vault;
    receipt.builders_usdc_vault = parameters.builders_usdc_vault;
    receipt.staking_usdc_vault = parameters.staking_usdc_vault;
    receipt.revenue_type = RevenueType::GreenLabelCertificationFee;
    receipt.parameters_hash = parameters_hash;
    receipt.routed_at = routed_at;
    receipt.schema_version = GREEN_LABEL_CERTIFICATION_FEE_SCHEMA_VERSION;
    receipt.bump = bump;
    Ok(())
}

/// Proof that a certification fee is paid at most once: a receipt recorded
/// for valid parameters names their project, so every later recording on it
/// is refused as already paid.
pub proof fn law_fee_receipt_is_recorded_once(
    receipt: GreenLabelCertificationFeeReceiptV1,
    p: GreenLabelCertificationFeeParametersV1,
    parameters_hash: Hash32,
    routed_at: i64,
    bump: u8,
)
    requires
        spec_validate_fee_parameters(p) is Ok,
    ensures
        spec_fee_receipt(receipt, p, parameters_hash, routed_at, bump).green_label_project != Key32::zero(),
{
}

/// The legacy fee route is disabled.
pub fn reject_legacy_green_label_certification_fee_route_v1() -> (r: ProgramResult<()>)
    ensures
        r == Err::<(), CustomError>(CustomError::LegacyGreenLabelCertificationFeeRouteDisabled),
{
    Err(CustomError::LegacyGreenLabelCertificationFeeRouteDisabled)
}

/// `spec_fee_parameters_head` written as its pieces.
proof fn lemma_fee_parameters_head_parts(p: GreenLabelCertificationFeeParametersV1)
    ensures
        spec_fee_parameters_head(p) == u16_part(p.schema_version) + key_part(p.green_label_config) + key_part(p.fee_policy) + u64_part(p.policy_version) + key_part(p.green_label_project) + u64_part(p.project_id) + key_part(p.project_owner) + key_part(p.payer) + key_part(p.payer_token_account) + u64_part(p.fee_amount_usdc),
{
    reveal(spec_fee_parameters_head);
    reveal(key_part);
    reveal(u16_part);
    reveal(u64_part);
}

/// The encoding `spec_fee_parameters_head` has a fixed length and determines its fields.
proof fn lemma_fee_parameters_head_injective(p: GreenLabelCertificationFeeParametersV1, q: GreenLabelCertificationFeeParametersV1)
    ensures
        spec_fee_parameters_head(p).len() == 218,
        spec_fee_parameters_head(p) == spec_fee_parameters_head(q) ==> p.schema_version == q.schema_version && p.green_label_config == q.green_label_config && p.fee_policy == q.fee_policy && p.policy_version == q.policy_version && p.green_label_project == q.green_label_project && p.project_id == q.project_id && p.project_owner == q.project_owner && p.payer == q.payer && p.payer_token_account == q.payer_token_account && p.fee_amount_usdc == q.fee_amount_usdc,
{
    lemma_fee_parameters_head_parts(p);
    lemma_fee_parameters_head_parts(q);
    lemma_u16_part(p.schema_version, q.schema_version);
    lemma_u16_part(q.schema_version, p.schema_version);
    lemma_key_part(p.green_label_config, q.green_label_config);
    lemma_key_part(q.green_label_config, p.green_label_config);
    lemma_key_part(p.fee_policy, q.fee_policy);
    lemma_key_part(q.fee_policy, p.fee_policy);
    lemma_u64_part(p.policy_version, q.policy_version);
    lemma_u64_part(q.policy_version, p.policy_version);
    lemma_key_part(p.green_label_project, q.green_label_project);
    lemma_key_part(q.green_label_project, p.green_label_project);
    lemma_u64_part(p.project_id, q.project_id);
    lemma_u64_part(q.project_id, p.project_id);
    lemma_key_part(p.project_owner, q.project_owner);
    lemma_key_part(q.project_owner, p.project_owner);
    lemma_key_part(p.payer, q.payer);
    lemma_key_part(q.payer, p.payer);
    lemma_key_part(p.payer_token_account, q.payer_token_account);
    lemma_key_part(q.payer_token_account, p.payer_token_account);
    lemma_u64_part(p.fee_amount_usdc, q.fee_amount_usdc);
    lemma_u64_part(q.fee_amount_usdc, p.fee_amount_usdc);
    if spec_fee_parameters_head(p) == spec_fee_parameters_head(q) {
        lemma_concat_split(u16_part(p.schema_version) + key_part(p.green_label_config) + key_part(p.fee_policy) + u64_part(p.policy_version) + key_part(p.green_label_project) + u64_part(p.project_id) + key_part(p.project_owner) + key_part(p.payer) + key_part(p.payer_token_account), u64_part(p.fee_amount_usdc),
            u16_part(q.schema_version) + key_part(q.green_label_config) + key_part(q.fee_policy) + u64_part(q.policy_version) + key_part(q.green_label_project) + u64_part(q.project_id) + key_part(q.project_owner) + key_part(q.payer) + key_part(q.payer_token_account), u64_part(q.fee_amount_usdc));
        lemma_concat_split(u16_part(p.schema_version) + key_part(p.green_label_config) + key_part(p.fee_policy) + u64_part(p.policy_version) + key_part(p.green_label_project) + u64_part(p.project_id) + key_part(p.project_owner) + key_part(p.payer), key_part(p.payer_token_account),
            u16_part(q.schema_version) + key_part(q.green_label_config) + key_part(q.fee_policy) + u64_part(q.policy_version) + key_part(q.green_label_project) + u64_part(q.project_id) + key_part(q.project_owner) + key_part(q.payer), key_part(q.payer_token_account));
        lemma_concat_split(u16_part(p.schema_version) + key_part(p.green_label_config) + key_part(p.fee_policy) + u64_part(p.policy_version) + key_part(p.green_label_project) + u64_part(p.project_id) + key_part(p.project_owner), key_part(p.payer),
            u16_part(q.schema_version) + key_part(q.green_label_config) + key_part(q.fee_policy) + u64_part(q.policy_version) + key_part(q.green_label_project) + u64_part(q.project_id) + key_part(q.project_owner), key_part(q.payer));
        lemma_concat_split(u16_part(p.schema_version) + key_part(p.green_label_config) + key_part(p.fee_policy) + u64_part(p.policy_version) + key_part(p.green_label_project) + u64_part(p.project_id), key_part(p.project_owner),
            u16_part(q.schema_version) + key_part(q.green_label_config) + key_part(q.fee_policy) + u64_part(q.policy_version) + key_part(q.green_label_project) + u64_part(q.project_id), key_part(q.project_owner));
        lemma_concat_split(u16_part(p.schema_version) + key_part(p.green_label_config) + key_part(p.fee_policy) + u64_part(p.policy_version) + key_part(p.green_label_project), u64_part(p.project_id),
            u16_part(q.schema_version) + key_part(q.green_label_config) + key_part(q.fee_policy) + u64_part(q.policy_version) + key_part(q.green_label_project), u64_part(q.project_id));
        lemma_concat_split(u16_part(p.schema_version) + key_part(p.green_label_config) + key_part(p.fee_policy) + u64_part(p.policy_version), key_part(p.green_label_project),
            u16_part(q.schema_version) + key_part(q.green_label_config) + key_part(q.fee_policy) + u64_part(q.policy_version), key_part(q.green_label_project));
        lemma_concat_split(u16_part(p.schema_version) + key_part(p.green_label_config) + key_part(p.fee_policy), u64_part(p.policy_version),
            u16_part(q.schema_version) + key_part(q.green_label_config) + key_part(q.fee_policy), u64_part(q.policy_version));
        lemma_concat_split(u16_part(p.schema_version) + key_part(p.green_label_config), key_part(p.fee_policy),
            u16_part(q.schema_version) + key_part(q.green_label_config), key_part(q.fee_policy));
        lemma_concat_split(u16_part(p.schema_version), key_part(p.green_label_config),
            u16_part(q.schema_version), key_part(q.green_label_config));
    }
}

/// `spec_fee_parameters_tail` written as its pieces.
proof fn lemma_fee_parameters_tail_parts(p: GreenLabelCertificationFeeParametersV1)
    ensures
        spec_fee_parameters_tail(p) == key_part(p.usdc_mint) + key_part(p.treasury_config) + key_part(p.treasury_usdc_state) + key_part(p.revenue_routing_stats) + key_part(p.relief_usdc_vault) + key_part(p.buyback_usdc_vault) + key_part(p.builders_usdc_vault) + key_part(p.staking_usdc_vault) + byte_part(spec_revenue_type_tag(p.revenue_type)),
{
    reveal(spec_fee_parameters_tail);
    reveal(byte_part);
    reveal(key_part);
}

/// The encoding `spec_fee_parameters_tail` has a fixed length and determines its fields.
proof fn lemma_fee_parameters_tail_injective(p: GreenLabelCertificationFeeParametersV1, q: GreenLabelCertificationFeeParametersV1)
    ensures
        spec_fee_parameters_tail(p).len() == 257,
        spec_fee_parameters_tail(p) == spec_fee_parameters_tail(q) ==> p.usdc_mint == q.usdc_mint && p.treasury_config == q.treasury_config && p.treasury_usdc_state == q.treasury_usdc_state && p.revenue_routing_stats == q.revenue_routing_stats && p.relief_usdc_vault == q.relief_usdc_vault && p.buyback_usdc_vault == q.buyback_usdc_vault && p.builders_usdc_vault == q.builders_usdc_vault && p.staking_usdc_vault == q.staking_usdc_vault && p.revenue_type == q.revenue_type,
{
    lemma_fee_parameters_tail_parts(p);
    lemma_fee_parameters_tail_parts(q);
    lemma_key_part(p.usdc_mint, q.usdc_mint);
    lemma_key_part(q.usdc_mint, p.usdc_mint);
    lemma_key_part(p.treasury_config, q.treasury_config);
    lemma_key_part(q.treasury_config, p.treasury_config);
    lemma_key_part(p.treasury_usdc_state, q.treasury_usdc_state);
    lemma_key_part(q.treasury_usdc_state, p.treasury_usdc_state);
    lemma_key_part(p.revenue_routing_stats, q.revenue_routing_stats);
    lemma_key_part(q.revenue_routing_stats, p.revenue_routing_stats);
    lemma_key_part(p.relief_usdc_vault, q.relief_usdc_vault);
    lemma_key_part(q.relief_usdc_vault, p.relief_usdc_vault);
    lemma_key_part(p.buyback_usdc_vault, q.buyback_usdc_vault);
    lemma_key_part(q.buyback_usdc_vault, p.buyback_usdc_vault);
    lemma_key_part(p.builders_usdc_vault, q.builders_usdc_vault);
    lemma_key_part(q.builders_usdc_vault, p.builders_usdc_vault);
    lemma_key_part(p.staking_usdc_vault, q.staking_usdc_vault);
    lemma_key_part(q.staking_usdc_vault, p.staking_usdc_vault);
    lemma_byte_part(spec_revenue_type_tag(p.revenue_type), spec_revenue_type_tag(q.revenue_type));
    lemma_byte_part(spec_revenue_type_tag(q.revenue_type), spec_revenue_type_tag(p.revenue_type));
    if spec_fee_parameters_tail(p) == spec_fee_parameters_tail(q) {
        lemma_concat_split(key_part(p.usdc_mint) + key_part(p.treasury_config) + key_part(p.treasury_usdc_state) + key_part(p.revenue_routing_stats) + key_part(p.relief_usdc_vault) + key_part(p.buyback_usdc_vault) + key_part(p.builders_usdc_vault) + key_part(p.staking_usdc_vault), byte_part(spec_revenue_type_tag(p.revenue_type)),
            key_part(q.usdc_mint) + key_part(q.treasury_config) + key_part(q.treasury_usdc_state) + key_part(q.revenue_routing_stats) + key_part(q.relief_usdc_vault) + key_part(q.buyback_usdc_vault) + key_part(q.builders_usdc_vault) + key_part(q.staking_usdc_vault), byte_part(spec_revenue_type_tag(q.revenue_type)));
        lemma_concat_split(key_part(p.usdc_mint) + key_part(p.treasury_config) + key_part(p.treasury_usdc_state) + key_part(p.revenue_routing_stats) + key_part(p.relief_usdc_vault) + key_part(p.buyback_usdc_vault) + key_part(p.builders_usdc_vault), key_part(p.staking_usdc_vault),
            key_part(q.usdc_mint) + key_part(q.treasury_config) + key_part(q.treasury_usdc_state) + key_part(q.revenue_routing_stats) + key_part(q.relief_usdc_vault) + key_part(q.buyback_usdc_vault) + key_part(q.builders_usdc_vault), key_part(q.staking_usdc_vault));
        lemma_concat_split(key_part(p.usdc_mint) + key_part(p.treasury_config) + key_part(p.treasury_usdc_state) + key_part(p.revenue_routing_stats) + key_part(p.relief_usdc_vault) + key_part(p.buyback_usdc_vault), key_part(p.builders_usdc_vault),
            key_part(q.usdc_mint) + key_part(q.treasury_config) + key_part(q.treasury_usdc_state) + key_part(q.revenue_routing_stats) + key_part(q.relief_usdc_vault) + key_part(q.buyback_usdc_vault), key_part(q.builders_usdc_vault));
        lemma_concat_split(key_part(p.usdc_mint) + key_part(p.treasury_config) + key_part(p.treasury_usdc_state) + key_part(p.revenue_routing_stats) + key_part(p.relief_usdc_vault), key_part(p.buyback_usdc_vault),
            key_part(q.usdc_mint) + key_part(q.treasury_config) + key_part(q.treasury_usdc_state) + key_part(q.revenue_routing_stats) + key_part(q.relief_usdc_vault), key_part(q.buyback_usdc_vault));
        lemma_concat_split(key_part(p.usdc_mint) + key_part(p.treasury_config) + key_part(p.treasury_usdc_state) + key_part(p.revenue_routing_stats), key_part(p.relief_usdc_vault),
            key_part(q.usdc_mint) + key_part(q.treasury_config) + key_part(q.treasury_usdc_state) + key_part(q.revenue_routing_stats), key_part(q.relief_usdc_vault));
        lemma_concat_split(key_part(p.usdc_mint) + key_part(p.treasury_config) + key_part(p.treasury_usdc_state), key_part(p.revenue_routing_stats),
            key_part(q.usdc_mint) + key_part(q.treasury_config) + key_part(q.treasury_usdc_state), key_part(q.revenue_routing_stats));
        lemma_concat_split(key_part(p.usdc_mint) + key_part(p.treasury_config), key_part(p.treasury_usdc_state),
            key_part(q.usdc_mint) + key_part(q.treasury_config), key_part(q.treasury_usdc_state));
        lemma_concat_split(key_part(p.usdc_mint), key_part(p.treasury_config),
            key_part(q.usdc_mint), key_part(q.treasury_config));
        lemma_revenue_type_tag_injective(p.revenue_type, q.revenue_type);
    }
}

/// Parameters with the same encoding are the same parameters.
proof fn lemma_fee_parameters_bytes_injective(p: GreenLabelCertificationFeeParametersV1, q: GreenLabelCertificationFeeParametersV1)
    ensures
        spec_fee_parameters_bytes(p) == spec_fee_parameters_bytes(q) ==> p == q,
{
    if spec_fee_parameters_bytes(p) == spec_fee_parameters_bytes(q) {
        lemma_fee_parameters_head_injective(p, q);
        lemma_fee_parameters_head_injective(q, p);
        lemma_fee_parameters_tail_injective(p, q);
        lemma_fee_parameters_tail_injective(q, p);
        lemma_concat_split(spec_fee_parameters_head(p), spec_fee_parameters_tail(p), spec_fee_parameters_head(q), spec_fee_parameters_tail(q));
    }
}

/// The fee parameters are bound by what is hashed: two parameter values give
/// the same hash pre-image (the fee domain followed by their encoding) only
/// when they are equal in every field.
pub proof fn law_fee_parameters_preimage_is_injective(p: GreenLabelCertificationFeeParametersV1, q: GreenLabelCertificationFeeParametersV1)
    ensures
        (spec_domain(Domain::GreenLabelCertificationFeeParameters) + spec_fee_parameters_bytes(p) == spec_domain(Domain::GreenLabelCertificationFeeParameters) + spec_fee_parameters_bytes(q)) == (p == q),
{
    if spec_domain(Domain::GreenLabelCertificationFeeParameters) + spec_fee_parameters_bytes(p) == spec_domain(Domain::GreenLabelCertificationFeeParameters) + spec_fee_parameters_bytes(q) {
        lemma_concat_split(spec_domain(Domain::GreenLabelCertificationFeeParameters), spec_fee_parameters_bytes(p), spec_domain(Domain::GreenLabelCertificationFeeParameters), spec_fee_parameters_bytes(q));
        lemma_fee_parameters_bytes_injective(p, q);
    }
}

} // verus!
