//! The hashed parameters of a governance refund of an escrow to its payer
//! and of a governance forfeit of an escrow to the treasury.
use vstd::prelude::*;
use crate::codec::{byte_part, key_part, lemma_byte_part, lemma_concat_split, lemma_key_part, lemma_u16_part, lemma_u64_part, u16_part, u64_part};
use crate::tags::{lemma_dispute_status_tag_injective, lemma_governance_action_type_v1_tag_injective, lemma_green_label_escrow_status_v1_tag_injective, lemma_green_label_status_tag_injective, lemma_revenue_type_tag_injective};
use crate::codec::{key_bytes, le_u16, le_u64, push_key, push_u16, push_u64, push_u8};
use crate::constants::{GREEN_LABEL_FORFEIT_SCHEMA_VERSION, GREEN_LABEL_REFUND_SCHEMA_VERSION};
use crate::domains::{push_domain, spec_domain, Domain};
use crate::error::{CustomError, ProgramResult};
use crate::hashing::{hash_contributor_payload, spec_payload_hash};
use crate::keys::{Hash32, Key32, Pubkey};
use crate::state::{DisputeStatus, GovernanceActionTypeV1, GreenLabelEscrowExecutionTypeV1, GreenLabelEscrowStatusV1, GreenLabelStatus, RevenueType};
use crate::tags::{
    dispute_status_tag, governance_action_type_v1_tag, green_label_escrow_status_v1_tag, green_label_status_tag,
    revenue_type_tag, spec_dispute_status_tag, spec_governance_action_type_v1_tag, spec_green_label_escrow_status_v1_tag,
    spec_green_label_status_tag, spec_revenue_type_tag,
};

verus! {

/// What a governance refund of an escrow commits to.
#[derive(Clone, Copy, Debug, PartialEq, Eq, Structural)]
pub struct GreenLabelRefundParametersV1 {
    pub schema_version: u16,
    pub green_label_config: Pubkey,
    pub green_label_project: Pubkey,
    pub green_label_dispute: Pubkey,
    pub refundable_escrow: Pubkey,
    pub refundable_vault: Pubkey,
    pub original_payer: Pubkey,
    pub payer_destination_token_account: Pubkey,
    pub refund_amount_usdc: u64,
    pub usdc_mint: Pubkey,
    pub expected_escrow_status: GreenLabelEscrowStatusV1,
    pub proposal_id: u64,
    pub action_type: GovernanceActionTypeV1,
}

/// What a governance forfeit of an escrow commits to.
#[derive(Clone, Copy, Debug, PartialEq, Eq, Structural)]
pub struct GreenLabelForfeitParametersV1 {
    pub schema_version: u16,
    pub green_label_config: Pubkey,
    pub green_label_project: Pubkey,
    pub green_label_dispute: Pubkey,
    pub refundable_escrow: Pubkey,
    pub refundable_vault: Pubkey,
    pub forfeited_amount_usdc: u64,
    pub treasury_config: Pubkey,
    pub treasury_usdc_state: Pubkey,
    pub revenue_routing_stats: Pubkey,
    pub relief_usdc_vault: Pubkey,
    pub buyback_usdc_vault: Pubkey,
    pub builders_usdc_vault: Pubkey,
    pub staking_usdc_vault: Pubkey,
    pub usdc_mint: Pubkey,
    pub revenue_type: RevenueType,
    pub expected_escrow_status: GreenLabelEscrowStatusV1,
    pub expected_project_status: GreenLabelStatus,
    pub expected_dispute_status: DisputeStatus,
    pub action_type: GovernanceActionTypeV1,
    pub proposal_id: u64,
}

/// The stable code of an escrow execution type.
pub open spec fn spec_escrow_execution_code(t: GreenLabelEscrowExecutionTypeV1) -> u8 {
    match t {
        GreenLabelEscrowExecutionTypeV1::Refund => 1,
        GreenLabelEscrowExecutionTypeV1::Forfeit => 2,
    }
}

pub fn green_label_escrow_execution_type_stable_code_v1(execution_type: GreenLabelEscrowExecutionTypeV1) -> (code: u8)
    ensures
        code == spec_escrow_execution_code(execution_type),
{
    match execution_type {
        GreenLabelEscrowExecutionTypeV1::Refund => 1,
        GreenLabelEscrowExecutionTypeV1::Forfeit => 2,
    }
}

/// The execution type with stable code `code`; any other code fails.
pub fn green_label_escrow_execution_type_from_stable_code_v1(code: u8) -> (r: ProgramResult<GreenLabelEscrowExecutionTypeV1>)
    ensures
        1 <= code <= 2 ==> (r matches Ok(t) && spec_escrow_execution_code(t) == code),
        !(1 <= code <= 2) ==> r == Err::<GreenLabelEscrowExecutionTypeV1, CustomError>(CustomError::InvalidGreenLabelRefundSchema),
{
    match code {
        1 => Ok(GreenLabelEscrowExecutionTypeV1::Refund),
        2 => Ok(GreenLabelEscrowExecutionTypeV1::Forfeit),
        _ => Err(CustomError::InvalidGreenLabelRefundSchema),
    }
}

/// Proof that decoding a stable code gives back the execution type.
pub proof fn law_escrow_execution_code_roundtrip(t: GreenLabelEscrowExecutionTypeV1, u: GreenLabelEscrowExecutionTypeV1)
    ensures
        1 <= spec_escrow_execution_code(t) <= 2,
        spec_escrow_execution_code(t) == spec_escrow_execution_code(u) ==> t == u,
{
}

/// The outcome of checking refund parameters before they are hashed.
pub open spec fn spec_validate_refund_parameters(p: GreenLabelRefundParametersV1) -> ProgramResult<()> {
    if p.schema_version != GREEN_LABEL_REFUND_SCHEMA_VERSION {
        Err(CustomError::InvalidGreenLabelRefundSchema)
    } else if p.action_type != GovernanceActionTypeV1::GreenLabelRefundBond {
        Err(CustomError::GreenLabelRefundActionMismatch)
    } else if p.green_label_config == Key32::zero() || p.green_label_project == Key32::zero()
        || p.refundable_escrow == Key32::zero() {
        Err(CustomError::GreenLabelRefundTargetMismatch)
    } else if p.refundable_vault == Key32::zero() {
        Err(CustomError::GreenLabelRefundVaultMismatch)
    } else if p.original_payer == Key32::zero() {
        Err(CustomError::GreenLabelRefundWrongPayer)
    } else if p.payer_destination_token_account == Key32::zero() {
        Err(CustomError::GreenLabelRefundWrongDestination)
    } else if p.refund_amount_usdc == 0 {
        Err(CustomError::GreenLabelRefundAmountMismatch)
    } else if p.usdc_mint == Key32::zero() {
        Err(CustomError::GreenLabelRefundMintMismatch)
    } else if p.proposal_id == 0 {
        Err(CustomError::InvalidProposalId)
    } else {
        Ok(())
    }
}

/// The Borsh encoding of the account half of refund parameters.
#[verifier::opaque]
pub open spec fn spec_refund_parameters_head(p: GreenLabelRefundParametersV1) -> Seq<u8> {
    le_u16(p.schema_version)
        + key_bytes(p.green_label_config)
        + key_bytes(p.green_label_project)
        + key_bytes(p.green_label_dispute)
        + key_bytes(p.refundable_escrow)
        + key_bytes(p.refundable_vault)
        + key_bytes(p.original_payer)
}

/// The Borsh encoding of the payment half of refund parameters.
#[verifier::opaque]
pub open spec fn spec_refund_parameters_tail(p: GreenLabelRefundParametersV1) -> Seq<u8> {
    key_bytes(p.payer_destination_token_account)
        + le_u64(p.refund_amount_usdc)
        + key_bytes(p.usdc_mint)
        + seq![spec_green_label_escrow_status_v1_tag(p.expected_escrow_status)]
        + le_u64(p.proposal_id)
        + seq![spec_governance_action_type_v1_tag(p.action_type)]
}

/// The Borsh encoding of refund parameters.
pub open spec fn spec_refund_parameters_bytes(p: GreenLabelRefundParametersV1) -> Seq<u8> {
    spec_refund_parameters_head(p) + spec_refund_parameters_tail(p)
}

fn push_refund_parameters_head(out: &mut Vec<u8>, p: &GreenLabelRefundParametersV1)
    ensures
        final(out)@ == old(out)@ + spec_refund_parameters_head(*p),
        spec_refund_parameters_head(*p).len() == 194,
{
    reveal(spec_refund_parameters_head);
    push_u16(out, p.schema_version);
    push_key(out, p.green_label_config);
    push_key(out, p.green_label_project);
    push_key(out, p.green_label_dispute);
    push_key(out, p.refundable_escrow);
    push_key(out, p.refundable_vault);
    push_key(out, p.original_payer);
    assert(out@ =~= old(out)@ + spec_refund_parameters_head(*p));
}

fn push_refund_parameters_tail(out: &mut Vec<u8>, p: &GreenLabelRefundParametersV1)
    ensures
        final(out)@ == old(out)@ + spec_refund_parameters_tail(*p),
        spec_refund_parameters_tail(*p).len() == 82,
{
    reveal(spec_refund_parameters_tail);
    push_key(out, p.payer_destination_token_account);
    push_u64(out, p.refund_amount_usdc);
    push_key(out, p.usdc_mint);
    push_u8(out, green_label_escrow_status_v1_tag(p.expected_escrow_status));
    push_u64(out, p.proposal_id);
    push_u8(out, governance_action_type_v1_tag(p.action_type));
    assert(out@ =~= old(out)@ + spec_refund_parameters_tail(*p));
}

/// The hash of refund parameters: the payload hash of the refund domain
/// separator followed by their encoding, once they pass their checks.
pub open spec fn spec_refund_parameters_hash(p: GreenLabelRefundParametersV1) -> ProgramResult<Hash32> {
    match spec_validate_refund_parameters(p) {
        Err(e) => Err(e),
        Ok(_) => Ok(spec_payload_hash(spec_domain(Domain::GreenLabelRefundParameters) + spec_refund_parameters_bytes(p))),
    }
}

/// Checks refund parameters and hashes them under the refund domain.
pub fn hash_green_label_refund_parameters_v1(parameters: &GreenLabelRefundParametersV1) -> (r: ProgramResult<Hash32>)
    ensures
        r == spec_refund_parameters_hash(*parameters),
{
    if parameters.schema_version != GREEN_LABEL_REFUND_SCHEMA_VERSION {
        return Err(CustomError::InvalidGreenLabelRefundSchema);
    }
    if parameters.action_type != GovernanceActionTypeV1::GreenLabelRefundBond {
        return Err(CustomError::GreenLabelRefundActionMismatch);
    }
    if parameters.green_label_config.is_zero() || parameters.green_label_project.is_zero()
        || parameters.refundable_escrow.is_zero() {
        return Err(CustomError::GreenLabelRefundTargetMismatch);
    }
    if parameters.refundable_vault.is_zero() {
        return Err(CustomError::GreenLabelRefundVaultMismatch);
    }
    if parameters.original_payer.is_zero() {
        return Err(CustomError::GreenLabelRefundWrongPayer);
    }
    if parameters.payer_destination_token_account.is_zero() {
        return Err(CustomError::GreenLabelRefundWrongDestination);
    }
    if parameters.refund_amount_usdc == 0 {
        return Err(CustomError::GreenLabelRefundAmountMismatch);
    }
    if parameters.usdc_mint.is_zero() {
        return Err(CustomError::GreenLabelRefundMintMismatch);
    }
    if parameters.proposal_id == 0 {
        return Err(CustomError::InvalidProposalId);
    }
    let mut bytes: Vec<u8> = Vec::new();
    push_domain(&mut bytes, Domain::GreenLabelRefundParameters);
    push_refund_parameters_head(&mut bytes, parameters);
    push_refund_parameters_tail(&mut bytes, parameters);
    assert(bytes@ =~= spec_domain(Domain::GreenLabelRefundParameters) + spec_refund_parameters_bytes(*parameters));
    hash_contributor_payload(&bytes)
}

impl GreenLabelRefundParametersV1 {
    /// Appends the Borsh encoding of these parameters to `out`.
    pub fn serialize(&self, out: &mut Vec<u8>) -> (r: ProgramResult<()>)
        ensures
            r is Ok,
            final(out)@ == old(out)@ + spec_refund_parameters_bytes(*self),
    {
        push_refund_parameters_head(out, self);
        push_refund_parameters_tail(out, self);
        assert(out@ =~= old(out)@ + spec_refund_parameters_bytes(*self));
        Ok(())
    }
}

/// The refund parameters of a governance refund.
pub open spec fn spec_refund_parameters(
    green_label_config: Pubkey,
    green_label_project: Pubkey,
    green_label_dispute: Pubkey,
    refundable_escrow: Pubkey,
    refundable_vault: Pubkey,
    original_payer: Pubkey,
    payer_destination_token_account: Pubkey,
    refund_amount_usdc: u64,
    usdc_mint: Pubkey,
    expected_escrow_status: GreenLabelEscrowStatusV1,
    proposal_id: u64,
) -> GreenLabelRefundParametersV1 {
    GreenLabelRefundParametersV1 {
        schema_version: GREEN_LABEL_REFUND_SCHEMA_VERSION,
        green_label_config,
        green_label_project,
        green_label_dispute,
        refundable_escrow,
        refundable_vault,
        original_payer,
        payer_destination_token_account,
        refund_amount_usdc,
        usdc_mint,
        expected_escrow_status,
        proposal_id,
        action_type: GovernanceActionTypeV1::GreenLabelRefundBond,
    }
}

/// Builds the parameters of a governance refund.
pub fn build_green_label_refund_parameters_v1(
    green_label_config: Pubkey,
    green_label_project: Pubkey,
    green_label_dispute: Pubkey,
    refundable_escrow: Pubkey,
    refundable_vault: Pubkey,
    original_payer: Pubkey,
    payer_destination_token_account: Pubkey,
    refund_amount_usdc: u64,
    usdc_mint: Pubkey,
    expected_escrow_status: GreenLabelEscrowStatusV1,
    proposal_id: u64,
) -> (r: ProgramResult<GreenLabelRefundParametersV1>)
    ensures
        r == Ok::<GreenLabelRefundParametersV1, CustomError>(spec_refund_parameters(green_label_config,
            green_label_project, green_label_dispute, refundable_escrow, refundable_vault, original_payer,
            payer_destination_token_account, refund_amount_usdc, usdc_mint, expected_escrow_status, proposal_id)),
{
    Ok(GreenLabelRefundParametersV1 {
        schema_version: GREEN_LABEL_REFUND_SCHEMA_VERSION,
        green_label_config,
        green_label_project,
        green_label_dispute,
        refundable_escrow,
        refundable_vault,
        original_payer,
        payer_destination_token_account,
        refund_amount_usdc,
        usdc_mint,
        expected_escrow_status,
        proposal_id,
        action_type: GovernanceActionTypeV1::GreenLabelRefundBond,
    })
}

/// The outcome of checking forfeit parameters before they are hashed.
pub open spec fn spec_validate_forfeit_parameters(p: GreenLabelForfeitParametersV1) -> ProgramResult<()> {
    if p.schema_version != GREEN_LABEL_FORFEIT_SCHEMA_VERSION {
        Err(CustomError::InvalidGreenLabelForfeitSchema)
    } else if p.action_type != GovernanceActionTypeV1::GreenLabelSlashBond
        || p.revenue_type != RevenueType::GreenLabelForfeitedBond {
        Err(CustomError::GreenLabelForfeitActionMismatch)
    } else if p.green_label_config == Key32::zero() || p.green_label_project == Key32::zero() {
        Err(CustomError::GreenLabelForfeitTargetMismatch)
    } else if p.green_label_dispute == Key32::zero() {
        Err(CustomError::GreenLabelForfeitDisputeMismatch)
    } else if p.refundable_escrow == Key32::zero() {
        Err(CustomError::GreenLabelForfeitTargetMismatch)
    } else if p.refundable_vault == Key32::zero() {
        Err(CustomError::GreenLabelForfeitVaultMismatch)
    } else if p.forfeited_amount_usdc == 0 {
        Err(CustomError::GreenLabelForfeitAmountMismatch)
    } else if p.treasury_config == Key32::zero() || p.treasury_usdc_state == Key32::zero()
        || p.revenue_routing_stats == Key32::zero() {
        Err(CustomError::GreenLabelForfeitTargetMismatch)
    } else if p.relief_usdc_vault == Key32::zero() || p.buyback_usdc_vault == Key32::zero()
        || p.builders_usdc_vault == Key32::zero() || p.staking_usdc_vault == Key32::zero() {
        Err(CustomError::GreenLabelForfeitVaultMismatch)
    } else if p.usdc_mint == Key32::zero() {
        Err(CustomError::GreenLabelForfeitMintMismatch)
    } else if p.proposal_id == 0 {
        Err(CustomError::InvalidProposalId)
    } else {
        Ok(())
    }
}

/// The Borsh encoding of the escrow half of forfeit parameters.
#[verifier::opaque]
pub open spec fn spec_forfeit_parameters_head(p: GreenLabelForfeitParametersV1) -> Seq<u8> {
    le_u16(p.schema_version)
        + key_bytes(p.green_label_config)
        + key_bytes(p.green_label_project)
        + key_bytes(p.green_label_dispute)
        + key_bytes(p.refundable_escrow)
        + key_bytes(p.refundable_vault)
        + le_u64(p.forfeited_amount_usdc)
        + key_bytes(p.treasury_config)
}

/// The Borsh encoding of the treasury accounts of forfeit parameters.
#[verifier::opaque]
pub open spec fn spec_forfeit_parameters_accounts(p: GreenLabelForfeitParametersV1) -> Seq<u8> {
    key_bytes(p.treasury_usdc_state)
        + key_bytes(p.revenue_routing_stats)
        + key_bytes(p.relief_usdc_vault)
        + key_bytes(p.buyback_usdc_vault)
        + key_bytes(p.builders_usdc_vault)
        + key_bytes(p.staking_usdc_vault)
        + key_bytes(p.usdc_mint)
}

/// The Borsh encoding of the expectations of forfeit parameters.
#[verifier::opaque]
pub open spec fn spec_forfeit_parameters_expectations(p: GreenLabelForfeitParametersV1) -> Seq<u8> {
    seq![spec_revenue_type_tag(p.revenue_type)]
        + seq![spec_green_label_escrow_status_v1_tag(p.expected_escrow_status)]
        + seq![spec_green_label_status_tag(p.expected_project_status)]
        + seq![spec_dispute_status_tag(p.expected_dispute_status)]
        + seq![spec_governance_action_type_v1_tag(p.action_type)]
        + le_u64(p.proposal_id)
}

/// The Borsh encoding of forfeit parameters.
pub open spec fn spec_forfeit_parameters_bytes(p: GreenLabelForfeitParametersV1) -> Seq<u8> {
    spec_forfeit_parameters_head(p) + spec_forfeit_parameters_accounts(p) + spec_forfeit_parameters_expectations(p)
}

fn push_forfeit_parameters_head(out: &mut Vec<u8>, p: &GreenLabelForfeitParametersV1)
    ensures
        final(out)@ == old(out)@ + spec_forfeit_parameters_head(*p),
        spec_forfeit_parameters_head(*p).len() == 202,
{
    reveal(spec_forfeit_parameters_head);
    push_u16(out, p.schema_version);
    push_key(out, p.green_label_config);
    push_key(out, p.green_label_project);
    push_key(out, p.green_label_dispute);
    push_key(out, p.refundable_escrow);
    push_key(out, p.refundable_vault);
    push_u64(out, p.forfeited_amount_usdc);
    push_key(out, p.treasury_config);
    assert(out@ =~= old(out)@ + spec_forfeit_parameters_head(*p));
}

fn push_forfeit_parameters_accounts(out: &mut Vec<u8>, p: &GreenLabelForfeitParametersV1)
    ensures
        final(out)@ == old(out)@ + spec_forfeit_parameters_accounts(*p),
        spec_forfeit_parameters_accounts(*p).len() == 224,
{
    reveal(spec_forfeit_parameters_accounts);
    push_key(out, p.treasury_usdc_state);
    push_key(out, p.revenue_routing_stats);
    push_key(out, p.relief_usdc_vault);
    push_key(out, p.buyback_usdc_vault);
    push_key(out, p.builders_usdc_vault);
    push_key(out, p.staking_usdc_vault);
    push_key(out, p.usdc_mint);
    assert(out@ =~= old(out)@ + spec_forfeit_parameters_accounts(*p));
}

fn push_forfeit_parameters_expectations(out: &mut Vec<u8>, p: &GreenLabelForfeitParametersV1)
    ensures
        final(out)@ == old(out)@ + spec_forfeit_parameters_expectations(*p),
        spec_forfeit_parameters_expectations(*p).len() == 13,
{
    reveal(spec_forfeit_parameters_expectations);
    push_u8(out, revenue_type_tag(p.revenue_type));
    push_u8(out, green_label_escrow_status_v1_tag(p.expected_escrow_status));
    push_u8(out, green_label_status_tag(p.expected_project_status));
    push_u8(out, dispute_status_tag(p.expected_dispute_status));
    push_u8(out, governance_action_type_v1_tag(p.action_type));
    push_u64(out, p.proposal_id);
    assert(out@ =~= old(out)@ + spec_forfeit_parameters_expectations(*p));
}

/// The hash of forfeit parameters: the payload hash of the forfeit domain
/// separator followed by their encoding, once they pass their checks.
pub open spec fn spec_forfeit_parameters_hash(p: GreenLabelForfeitParametersV1) -> ProgramResult<Hash32> {
    match spec_validate_forfeit_parameters(p) {
        Err(e) => Err(e),
        Ok(_) => Ok(spec_payload_hash(spec_domain(Domain::GreenLabelForfeitParameters) + spec_forfeit_parameters_bytes(p))),
    }
}

/// Checks forfeit parameters and hashes them under the forfeit domain.
pub fn hash_green_label_forfeit_parameters_v1(parameters: &GreenLabelForfeitParametersV1) -> (r: ProgramResult<Hash32>)
    ensures
        r == spec_forfeit_parameters_hash(*parameters),
{
    if parameters.schema_version != GREEN_LABEL_FORFEIT_SCHEMA_VERSION {
        return Err(CustomError::InvalidGreenLabelForfeitSchema);
    }
    if parameters.action_type != GovernanceActionTypeV1::GreenLabelSlashBond {
        return Err(CustomError::GreenLabelForfeitActionMismatch);
    }
    if parameters.revenue_type != RevenueType::GreenLabelForfeitedBond {
        return Err(CustomError::GreenLabelForfeitActionMismatch);
    }
    if parameters.green_label_config.is_zero() || parameters.green_label_project.is_zero() {
        return Err(CustomError::GreenLabelForfeitTargetMismatch);
    }
    if parameters.green_label_dispute.is_zero() {
        return Err(CustomError::GreenLabelForfeitDisputeMismatch);
    }
    if parameters.refundable_escrow.is_zero() {
        return Err(CustomError::GreenLabelForfeitTargetMismatch);
    }
    if parameters.refundable_vault.is_zero() {
        return Err(CustomError::GreenLabelForfeitVaultMismatch);
    }
    if parameters.forfeited_amount_usdc == 0 {
        return Err(CustomError::GreenLabelForfeitAmountMismatch);
    }
    if parameters.treasury_config.is_zero() || parameters.treasury_usdc_state.is_zero()
        || parameters.revenue_routing_stats.is_zero() {
        return Err(CustomError::GreenLabelForfeitTargetMismatch);
    }
    if parameters.relief_usdc_vault.is_zero() || parameters.buyback_usdc_vault.is_zero()
        || parameters.builders_usdc_vault.is_zero() || parameters.staking_usdc_vault.is_zero() {
        return Err(CustomError::GreenLabelForfeitVaultMismatch);
    }
    if parameters.usdc_mint.is_zero() {
        return Err(CustomError::GreenLabelForfeitMintMismatch);
    }
    if parameters.proposal_id == 0 {
        return Err(CustomError::InvalidProposalId);
    }
    let mut bytes: Vec<u8> = Vec::new();
    push_domain(&mut bytes, Domain::GreenLabelForfeitParameters);
    push_forfeit_parameters_head(&mut bytes, parameters);
    push_forfeit_parameters_accounts(&mut bytes, parameters);
    push_forfeit_parameters_expectations(&mut bytes, parameters);
    assert(bytes@ =~= spec_domain(Domain::GreenLabelForfeitParameters) + spec_forfeit_parameters_bytes(*parameters));
    hash_contributor_payload(&bytes)
}

impl GreenLabelForfeitParametersV1 {
    /// Appends the Borsh encoding of these parameters to `out`.
    pub fn serialize(&self, out: &mut Vec<u8>) -> (r: ProgramResult<()>)
        ensures
            r is Ok,
            final(out)@ == old(out)@ + spec_forfeit_parameters_bytes(*self),
    {
        push_forfeit_parameters_head(out, self);
        push_forfeit_parameters_accounts(out, self);
        push_forfeit_parameters_expectations(out, self);
        assert(out@ =~= old(out)@ + spec_forfeit_parameters_bytes(*self));
        Ok(())
    }
}

/// The forfeit parameters of a governance forfeit.
pub open spec fn spec_forfeit_parameters(
    green_label_config: Pubkey,
    green_label_project: Pubkey,
    green_label_dispute: Pubkey,
    refundable_escrow: Pubkey,
    refundable_vault: Pubkey,
    forfeited_amount_usdc: u64,
    treasury_config: Pubkey,
    treasury_usdc_state: Pubkey,
    revenue_routing_stats: Pubkey,
    relief_usdc_vault: Pubkey,
    buyback_usdc_vault: Pubkey,
    builders_usdc_vault: Pubkey,
    staking_usdc_vault: Pubkey,
    usdc_mint: Pubkey,
    expected_escrow_status: GreenLabelEscrowStatusV1,
    expected_project_status: GreenLabelStatus,
    expected_dispute_status: DisputeStatus,
    proposal_id: u64,
) -> GreenLabelForfeitParametersV1 {
    GreenLabelForfeitParametersV1 {
        schema_version: GREEN_LABEL_FORFEIT_SCHEMA_VERSION,
        green_label_config,
        green_label_project,
        green_label_dispute,
        refundable_escrow,
        refundable_vault,
        forfeited_amount_usdc,
        treasury_config,
        treasury_usdc_state,
        revenue_routing_stats,
        relief_usdc_vault,
        buyback_usdc_vault,
        builders_usdc_vault,
        staking_usdc_vault,
        usdc_mint,
        revenue_type: RevenueType::GreenLabelForfeitedBond,
        expected_escrow_status,
        expected_project_status,
        expected_dispute_status,
        action_type: GovernanceActionTypeV1::GreenLabelSlashBond,
        proposal_id,
    }
}

/// Builds the parameters of a governance forfeit.
pub fn build_green_label_forfeit_parameters_v1(
    green_label_config: Pubkey,
    green_label_project: Pubkey,
    green_label_dispute: Pubkey,
    refundable_escrow: Pubkey,
    refundable_vault: Pubkey,
    forfeited_amount_usdc: u64,
    treasury_config: Pubkey,
    treasury_usdc_state: Pubkey,
    revenue_routing_stats: Pubkey,
    relief_usdc_vault: Pubkey,
    buyback_usdc_vault: Pubkey,
    builders_usdc_vault: Pubkey,
    staking_usdc_vault: Pubkey,
    usdc_mint: Pubkey,
    expected_escrow_status: GreenLabelEscrowStatusV1,
    expected_project_status: GreenLabelStatus,
    expected_dispute_status: DisputeStatus,
    proposal_id: u64,
) -> (r: ProgramResult<GreenLabelForfeitParametersV1>)
    ensures
        r == Ok::<GreenLabelForfeitParametersV1, CustomError>(spec_forfeit_parameters(green_label_config,
            green_label_project, green_label_dispute, refundable_escrow, refundable_vault, forfeited_amount_usdc,
            treasury_config, treasury_usdc_state, revenue_routing_stats, relief_usdc_vault, buyback_usdc_vault,
            builders_usdc_vault, staking_usdc_vault, usdc_mint, expected_escrow_status, expected_project_status,
            expected_dispute_status, proposal_id)),
{
    Ok(GreenLabelForfeitParametersV1 {
        schema_version: GREEN_LABEL_FORFEIT_SCHEMA_VERSION,
        green_label_config,
        green_label_project,
        green_label_dispute,
        refundable_escrow,
        refundable_vault,
        forfeited_amount_usdc,
        treasury_config,
        treasury_usdc_state,
        revenue_routing_stats,
        relief_usdc_vault,
        buyback_usdc_vault,
        builders_usdc_vault,
        staking_usdc_vault,
        usdc_mint,
        revenue_type: RevenueType::GreenLabelForfeitedBond,
        expected_escrow_status,
        expected_project_status,
        expected_dispute_status,
        action_type: GovernanceActionTypeV1::GreenLabelSlashBond,
        proposal_id,
    })
}

/// The legacy slash entrypoint is disabled.
pub fn reject_legacy_green_label_slash_v1() -> (r: ProgramResult<()>)
    ensures
        r == Err::<(), CustomError>(CustomError::LegacyGreenLabelSlashDisabled),
{
    Err(CustomError::LegacyGreenLabelSlashDisabled)
}

/// The legacy forfeit entrypoint is disabled.
pub fn reject_legacy_green_label_forfeit_v1() -> (r: ProgramResult<()>)
    ensures
        r == Err::<(), CustomError>(CustomError::LegacyGreenLabelForfeitDisabled),
{
    Err(CustomError::LegacyGreenLabelForfeitDisabled)
}

/// `spec_refund_parameters_head` written as its pieces.
proof fn lemma_refund_parameters_head_parts(p: GreenLabelRefundParametersV1)
    ensures
        spec_refund_parameters_head(p) == u16_part(p.schema_version) + key_part(p.green_label_config) + key_part(p.green_label_project) + key_part(p.green_label_dispute) + key_part(p.refundable_escrow) + key_part(p.refundable_vault) + key_part(p.original_payer),
{
    reveal(spec_refund_parameters_head);
    reveal(key_part);
    reveal(u16_part);
}

/// The encoding `spec_refund_parameters_head` has a fixed length and determines its fields.
proof fn lemma_refund_parameters_head_injective(p: GreenLabelRefundParametersV1, q: GreenLabelRefundParametersV1)
    ensures
        spec_refund_parameters_head(p).len() == 194,
        spec_refund_parameters_head(p) == spec_refund_parameters_head(q) ==> p.schema_version == q.schema_version && p.green_label_config == q.green_label_config && p.green_label_project == q.green_label_project && p.green_label_dispute == q.green_label_dispute && p.refundable_escrow == q.refundable_escrow && p.refundable_vault == q.refundable_vault && p.original_payer == q.original_payer,
{
    lemma_refund_parameters_head_parts(p);
    lemma_refund_parameters_head_parts(q);
    lemma_u16_part(p.schema_version, q.schema_version);
    lemma_u16_part(q.schema_version, p.schema_version);
    lemma_key_part(p.green_label_config, q.green_label_config);
    lemma_key_part(q.green_label_config, p.green_label_config);
    lemma_key_part(p.green_label_project, q.green_label_project);
    lemma_key_part(q.green_label_project, p.green_label_project);
    lemma_key_part(p.green_label_dispute, q.green_label_dispute);
    lemma_key_part(q.green_label_dispute, p.green_label_dispute);
    lemma_key_part(p.refundable_escrow, q.refundable_escrow);
    lemma_key_part(q.refundable_escrow, p.refundable_escrow);
    lemma_key_part(p.refundable_vault, q.refundable_vault);
    lemma_key_part(q.refundable_vault, p.refundable_vault);
    lemma_key_part(p.original_payer, q.original_payer);
    lemma_key_part(q.original_payer, p.original_payer);
    if spec_refund_parameters_head(p) == spec_refund_parameters_head(q) {
        lemma_concat_split(u16_part(p.schema_version) + key_part(p.green_label_config) + key_part(p.green_label_project) + key_part(p.green_label_dispute) + key_part(p.refundable_escrow) + key_part(p.refundable_vault), key_part(p.original_payer),
            u16_part(q.schema_version) + key_part(q.green_label_config) + key_part(q.green_label_project) + key_part(q.green_label_dispute) + key_part(q.refundable_escrow) + key_part(q.refundable_vault), key_part(q.original_payer));
        lemma_concat_split(u16_part(p.schema_version) + key_part(p.green_label_config) + key_part(p.green_label_project) + key_part(p.green_label_dispute) + key_part(p.refundable_escrow), key_part(p.refundable_vault),
            u16_part(q.schema_version) + key_part(q.green_label_config) + key_part(q.green_label_project) + key_part(q.green_label_dispute) + key_part(q.refundable_escrow), key_part(q.refundable_vault));
        lemma_concat_split(u16_part(p.schema_version) + key_part(p.green_label_config) + key_part(p.green_label_project) + key_part(p.green_label_dispute), key_part(p.refundable_escrow),
            u16_part(q.schema_version) + key_part(q.green_label_config) + key_part(q.green_label_project) + key_part(q.green_label_dispute), key_part(q.refundable_escrow));
        lemma_concat_split(u16_part(p.schema_version) + key_part(p.green_label_config) + key_part(p.green_label_project), key_part(p.green_label_dispute),
            u16_part(q.schema_version) + key_part(q.green_label_config) + key_part(q.green_label_project), key_part(q.green_label_dispute));
        lemma_concat_split(u16_part(p.schema_version) + key_part(p.green_label_config), key_part(p.green_label_project),
            u16_part(q.schema_version) + key_part(q.green_label_config), key_part(q.green_label_project));
        lemma_concat_split(u16_part(p.schema_version), key_part(p.green_label_config),
            u16_part(q.schema_version), key_part(q.green_label_config));
    }
}

/// `spec_refund_parameters_tail` written as its pieces.
proof fn lemma_refund_parameters_tail_parts(p: GreenLabelRefundParametersV1)
    ensures
        spec_refund_parameters_tail(p) == key_part(p.payer_destination_token_account) + u64_part(p.refund_amount_usdc) + key_part(p.usdc_mint) + byte_part(spec_green_label_escrow_status_v1_tag(p.expected_escrow_status)) + u64_part(p.proposal_id) + byte_part(spec_governance_action_type_v1_tag(p.action_type)),
{
    reveal(spec_refund_parameters_tail);
    reveal(byte_part);
    reveal(key_part);
    reveal(u64_part);
}

/// The encoding `spec_refund_parameters_tail` has a fixed length and determines its fields.
proof fn lemma_refund_parameters_tail_injective(p: GreenLabelRefundParametersV1, q: GreenLabelRefundParametersV1)
    ensures
        spec_refund_parameters_tail(p).len() == 82,
        spec_refund_parameters_tail(p) == spec_refund_parameters_tail(q) ==> p.payer_destination_token_account == q.payer_destination_token_account && p.refund_amount_usdc == q.refund_amount_usdc && p.usdc_mint == q.usdc_mint && p.expected_escrow_status == q.expected_escrow_status && p.proposal_id == q.proposal_id && p.action_type == q.action_type,
{
    lemma_refund_parameters_tail_parts(p);
    lemma_refund_parameters_tail_parts(q);
    lemma_key_part(p.payer_destination_token_account, q.payer_destination_token_account);
    lemma_key_part(q.payer_destination_token_account, p.payer_destination_token_account);
    lemma_u64_part(p.refund_amount_usdc, q.refund_amount_usdc);
    lemma_u64_part(q.refund_amount_usdc, p.refund_amount_usdc);
    lemma_key_part(p.usdc_mint, q.usdc_mint);
    lemma_key_part(q.usdc_mint, p.usdc_mint);
    lemma_byte_part(spec_green_label_escrow_status_v1_tag(p.expected_escrow_status), spec_green_label_escrow_status_v1_tag(q.expected_escrow_status));
    lemma_byte_part(spec_green_label_escrow_status_v1_tag(q.expected_escrow_status), spec_green_label_escrow_status_v1_tag(p.expected_escrow_status));
    lemma_u64_part(p.proposal_id, q.proposal_id);
    lemma_u64_part(q.proposal_id, p.proposal_id);
    lemma_byte_part(spec_governance_action_type_v1_tag(p.action_type), spec_governance_action_type_v1_tag(q.action_type));
    lemma_byte_part(spec_governance_action_type_v1_tag(q.action_type), spec_governance_action_type_v1_tag(p.action_type));
    if spec_refund_parameters_tail(p) == spec_refund_parameters_tail(q) {
        lemma_concat_split(key_part(p.payer_destination_token_account) + u64_part(p.refund_amount_usdc) + key_part(p.usdc_mint) + byte_part(spec_green_label_escrow_status_v1_tag(p.expected_escrow_status)) + u64_part(p.proposal_id), byte_part(spec_governance_action_type_v1_tag(p.action_type)),
            key_part(q.payer_destination_token_account) + u64_part(q.refund_amount_usdc) + key_part(q.usdc_mint) + byte_part(spec_green_label_escrow_status_v1_tag(q.expected_escrow_status)) + u64_part(q.proposal_id), byte_part(spec_governance_action_type_v1_tag(q.action_type)));
        lemma_concat_split(key_part(p.payer_destination_token_account) + u64_part(p.refund_amount_usdc) + key_part(p.usdc_mint) + byte_part(spec_green_label_escrow_status_v1_tag(p.expected_escrow_status)), u64_part(p.proposal_id),
            key_part(q.payer_destination_token_account) + u64_part(q.refund_amount_usdc) + key_part(q.usdc_mint) + byte_part(spec_green_label_escrow_status_v1_tag(q.expected_escrow_status)), u64_part(q.proposal_id));
        lemma_concat_split(key_part(p.payer_destination_token_account) + u64_part(p.refund_amount_usdc) + key_part(p.usdc_mint), byte_part(spec_green_label_escrow_status_v1_tag(p.expected_escrow_status)),
            key_part(q.payer_destination_token_account) + u64_part(q.refund_amount_usdc) + key_part(q.usdc_mint), byte_part(spec_green_label_escrow_status_v1_tag(q.expected_escrow_status)));
        lemma_concat_split(key_part(p.payer_destination_token_account) + u64_part(p.refund_amount_usdc), key_part(p.usdc_mint),
            key_part(q.payer_destination_token_account) + u64_part(q.refund_amount_usdc), key_part(q.usdc_mint));
        lemma_concat_split(key_part(p.payer_destination_token_account), u64_part(p.refund_amount_usdc),
            key_part(q.payer_destination_token_account), u64_part(q.refund_amount_usdc));
        lemma_green_label_escrow_status_v1_tag_injective(p.expected_escrow_status, q.expected_escrow_status);
        lemma_governance_action_type_v1_tag_injective(p.action_type, q.action_type);
    }
}

/// Parameters with the same encoding are the same parameters.
proof fn lemma_refund_parameters_bytes_injective(p: GreenLabelRefundParametersV1, q: GreenLabelRefundParametersV1)
    ensures
        spec_refund_parameters_bytes(p) == spec_refund_parameters_bytes(q) ==> p == q,
{
    if spec_refund_parameters_bytes(p) == spec_refund_parameters_bytes(q) {
        lemma_refund_parameters_head_injective(p, q);
        lemma_refund_parameters_head_injective(q, p);
        lemma_refund_parameters_tail_injective(p, q);
        lemma_refund_parameters_tail_injective(q, p);
        lemma_concat_split(spec_refund_parameters_head(p), spec_refund_parameters_tail(p), spec_refund_parameters_head(q), spec_refund_parameters_tail(q));
    }
}

/// The refund parameters are bound by what is hashed: two parameter values
/// give the same hash pre-image (the refund domain followed by their
/// encoding) only when they are equal in every field.
pub proof fn law_refund_parameters_preimage_is_injective(p: GreenLabelRefundParametersV1, q: GreenLabelRefundParametersV1)
    ensures
        (spec_domain(Domain::GreenLabelRefundParameters) + spec_refund_parameters_bytes(p) == spec_domain(Domain::GreenLabelRefundParameters) + spec_refund_parameters_bytes(q)) == (p == q),
{
    if spec_domain(Domain::GreenLabelRefundParameters) + spec_refund_parameters_bytes(p) == spec_domain(Domain::GreenLabelRefundParameters) + spec_refund_parameters_bytes(q) {
        lemma_concat_split(spec_domain(Domain::GreenLabelRefundParameters), spec_refund_parameters_bytes(p), spec_domain(Domain::GreenLabelRefundParameters), spec_refund_parameters_bytes(q));
        lemma_refund_parameters_bytes_injective(p, q);
    }
}

/// `spec_forfeit_parameters_head` written as its pieces.
proof fn lemma_forfeit_parameters_head_parts(p: GreenLabelForfeitParametersV1)
    ensures
        spec_forfeit_parameters_head(p) == u16_part(p.schema_version) + key_part(p.green_label_config) + key_part(p.green_label_project) + key_part(p.green_label_dispute) + key_part(p.refundable_escrow) + key_part(p.refundable_vault) + u64_part(p.forfeited_amount_usdc) + key_part(p.treasury_config),
{
    reveal(spec_forfeit_parameters_head);
    reveal(key_part);
    reveal(u16_part);
    reveal(u64_part);
}

/// The encoding `spec_forfeit_parameters_head` has a fixed length and determines its fields.
proof fn lemma_forfeit_parameters_head_injective(p: GreenLabelForfeitParametersV1, q: GreenLabelForfeitParametersV1)
    ensures
        spec_forfeit_parameters_head(p).len() == 202,
        spec_forfeit_parameters_head(p) == spec_forfeit_parameters_head(q) ==> p.schema_version == q.schema_version && p.green_label_config == q.green_label_config && p.green_label_project == q.green_label_project && p.green_label_dispute == q.green_label_dispute && p.refundable_escrow == q.refundable_escrow && p.refundable_vault == q.refundable_vault && p.forfeited_amount_usdc == q.forfeited_amount_usdc && p.treasury_config == q.treasury_config,
{
    lemma_forfeit_parameters_head_parts(p);
    lemma_forfeit_parameters_head_parts(q);
    lemma_u16_part(p.schema_version, q.schema_version);
    lemma_u16_part(q.schema_version, p.schema_version);
    lemma_key_part(p.green_label_config, q.green_label_config);
    lemma_key_part(q.green_label_config, p.green_label_config);
    lemma_key_part(p.green_label_project, q.green_label_project);
    lemma_key_part(q.green_label_project, p.green_label_project);
    lemma_key_part(p.green_label_dispute, q.green_label_dispute);
    lemma_key_part(q.green_label_dispute, p.green_label_dispute);
    lemma_key_part(p.refundable_escrow, q.refundable_escrow);
    lemma_key_part(q.refundable_escrow, p.refundable_escrow);
    lemma_key_part(p.refundable_vault, q.refundable_vault);
    lemma_key_part(q.refundable_vault, p.refundable_vault);
    lemma_u64_part(p.forfeited_amount_usdc, q.forfeited_amount_usdc);
    lemma_u64_part(q.forfeited_amount_usdc, p.forfeited_amount_usdc);
    lemma_key_part(p.treasury_config, q.treasury_config);
    lemma_key_part(q.treasury_config, p.treasury_config);
    if spec_forfeit_parameters_head(p) == spec_forfeit_parameters_head(q) {
        lemma_concat_split(u16_part(p.schema_version) + key_part(p.green_label_config) + key_part(p.green_label_project) + key_part(p.green_label_dispute) + key_part(p.refundable_escrow) + key_part(p.refundable_vault) + u64_part(p.forfeited_amount_usdc), key_part(p.treasury_config),
            u16_part(q.schema_version) + key_part(q.green_label_config) + key_part(q.green_label_project) + key_part(q.green_label_dispute) + key_part(q.refundable_escrow) + key_part(q.refundable_vault) + u64_part(q.forfeited_amount_usdc), key_part(q.treasury_config));
        lemma_concat_split(u16_part(p.schema_version) + key_part(p.green_label_config) + key_part(p.green_label_project) + key_part(p.green_label_dispute) + key_part(p.refundable_escrow) + key_part(p.refundable_vault), u64_part(p.forfeited_amount_usdc),
            u16_part(q.schema_version) + key_part(q.green_label_config) + key_part(q.green_label_project) + key_part(q.green_label_dispute) + key_part(q.refundable_escrow) + key_part(q.refundable_vault), u64_part(q.forfeited_amount_usdc));
        lemma_concat_split(u16_part(p.schema_version) + key_part(p.green_label_config) + key_part(p.green_label_project) + key_part(p.green_label_dispute) + key_part(p.refundable_escrow), key_part(p.refundable_vault),
            u16_part(q.schema_version) + key_part(q.green_label_config) + key_part(q.green_label_project) + key_part(q.green_label_dispute) + key_part(q.refundable_escrow), key_part(q.refundable_vault));
        lemma_concat_split(u16_part(p.schema_version) + key_part(p.green_label_config) + key_part(p.green_label_project) + key_part(p.green_label_dispute), key_part(p.refundable_escrow),
            u16_part(q.schema_version) + key_part(q.green_label_config) + key_part(q.green_label_project) + key_part(q.green_label_dispute), key_part(q.refundable_escrow));
        lemma_concat_split(u16_part(p.schema_version) + key_part(p.green_label_config) + key_part(p.green_label_project), key_part(p.green_label_dispute),
            u16_part(q.schema_version) + key_part(q.green_label_config) + key_part(q.green_label_project), key_part(q.green_label_dispute));
        lemma_concat_split(u16_part(p.schema_version) + key_part(p.green_label_config), key_part(p.green_label_project),
            u16_part(q.schema_version) + key_part(q.green_label_config), key_part(q.green_label_project));
        lemma_concat_split(u16_part(p.schema_version), key_part(p.green_label_config),
            u16_part(q.schema_version), key_part(q.green_label_config));
    }
}

/// `spec_forfeit_parameters_accounts` written as its pieces.
proof fn lemma_forfeit_parameters_accounts_parts(p: GreenLabelForfeitParametersV1)
    ensures
        spec_forfeit_parameters_accounts(p) == key_part(p.treasury_usdc_state) + key_part(p.revenue_routing_stats) + key_part(p.relief_usdc_vault) + key_part(p.buyback_usdc_vault) + key_part(p.builders_usdc_vault) + key_part(p.staking_usdc_vault) + key_part(p.usdc_mint),
{
    reveal(spec_forfeit_parameters_accounts);
    reveal(key_part);
}

/// The encoding `spec_forfeit_parameters_accounts` has a fixed length and determines its fields.
proof fn lemma_forfeit_parameters_accounts_injective(p: GreenLabelForfeitParametersV1, q: GreenLabelForfeitParametersV1)
    ensures
        spec_forfeit_parameters_accounts(p).len() == 224,
        spec_forfeit_parameters_accounts(p) == spec_forfeit_parameters_accounts(q) ==> p.treasury_usdc_state == q.treasury_usdc_state && p.revenue_routing_stats == q.revenue_routing_stats && p.relief_usdc_vault == q.relief_usdc_vault && p.buyback_usdc_vault == q.buyback_usdc_vault && p.builders_usdc_vault == q.builders_usdc_vault && p.staking_usdc_vault == q.staking_usdc_vault && p.usdc_mint == q.usdc_mint,
{
    lemma_forfeit_parameters_accounts_parts(p);
    lemma_forfeit_parameters_accounts_parts(q);
    lemma_key_part(p.treasury_usdc_state, q.treasury_usdc_state);
    lemma_key_part(q.treasury_usdc_state, p.treasury_usdc_state);
    lemma_key_part(p.revenue_routing_stats, q.revenue_routing_stats);
    lemma_key_part(q.revenue_routing_stats, p.revenue_routing_stats);
    lemma_key_part(p.relief_usdc_vault, q.relief_usdc_vault);
    lemma_key_part(q.relief_usdc_vault, p.relief_usdc_vault);
    lemma_key_part(p.buyback_usdc_vault, q.buyback_usdc_vault);
    lemma_key_part(q.buyback_usdc_vault, p.buyback_usdc_vault);
    lemma_key_part(p.builders_usdc_vault, q.builders_usdc_vault);
    lemma_key_part(q.builders_usdc_vault, p.builders_usdc_vault);
    lemma_key_part(p.staking_usdc_vault, q.staking_usdc_vault);
    lemma_key_part(q.staking_usdc_vault, p.staking_usdc_vault);
    lemma_key_part(p.usdc_mint, q.usdc_mint);
    lemma_key_part(q.usdc_mint, p.usdc_mint);
    if spec_forfeit_parameters_accounts(p) == spec_forfeit_parameters_accounts(q) {
        lemma_concat_split(key_part(p.treasury_usdc_state) + key_part(p.revenue_routing_stats) + key_part(p.relief_usdc_vault) + key_part(p.buyback_usdc_vault) + key_part(p.builders_usdc_vault) + key_part(p.staking_usdc_vault), key_part(p.usdc_mint),
            key_part(q.treasury_usdc_state) + key_part(q.revenue_routing_stats) + key_part(q.relief_usdc_vault) + key_part(q.buyback_usdc_vault) + key_part(q.builders_usdc_vault) + key_part(q.staking_usdc_vault), key_part(q.usdc_mint));
        lemma_concat_split(key_part(p.treasury_usdc_state) + key_part(p.revenue_routing_stats) + key_part(p.relief_usdc_vault) + key_part(p.buyback_usdc_vault) + key_part(p.builders_usdc_vault), key_part(p.staking_usdc_vault),
            key_part(q.treasury_usdc_state) + key_part(q.revenue_routing_stats) + key_part(q.relief_usdc_vault) + key_part(q.buyback_usdc_vault) + key_part(q.builders_usdc_vault), key_part(q.staking_usdc_vault));
        lemma_concat_split(key_part(p.treasury_usdc_state) + key_part(p.revenue_routing_stats) + key_part(p.relief_usdc_vault) + key_part(p.buyback_usdc_vault), key_part(p.builders_usdc_vault),
            key_part(q.treasury_usdc_state) + key_part(q.revenue_routing_stats) + key_part(q.relief_usdc_vault) + key_part(q.buyback_usdc_vault), key_part(q.builders_usdc_vault));
        lemma_concat_split(key_part(p.treasury_usdc_state) + key_part(p.revenue_routing_stats) + key_part(p.relief_usdc_vault), key_part(p.buyback_usdc_vault),
            key_part(q.treasury_usdc_state) + key_part(q.revenue_routing_stats) + key_part(q.relief_usdc_vault), key_part(q.buyback_usdc_vault));
        lemma_concat_split(key_part(p.treasury_usdc_state) + key_part(p.revenue_routing_stats), key_part(p.relief_usdc_vault),
            key_part(q.treasury_usdc_state) + key_part(q.revenue_routing_stats), key_part(q.relief_usdc_vault));
        lemma_concat_split(key_part(p.treasury_usdc_state), key_part(p.revenue_routing_stats),
            key_part(q.treasury_usdc_state), key_part(q.revenue_routing_stats));
    }
}

/// `spec_forfeit_parameters_expectations` written as its pieces.
proof fn lemma_forfeit_parameters_expectations_parts(p: GreenLabelForfeitParametersV1)
    ensures
        spec_forfeit_parameters_expectations(p) == byte_part(spec_revenue_type_tag(p.revenue_type)) + byte_part(spec_green_label_escrow_status_v1_tag(p.expected_escrow_status)) + byte_part(spec_green_label_status_tag(p.expected_project_status)) + byte_part(spec_dispute_status_tag(p.expected_dispute_status)) + byte_part(spec_governance_action_type_v1_tag(p.action_type)) + u64_part(p.proposal_id),
{
    reveal(spec_forfeit_parameters_expectations);
    reveal(byte_part);
    reveal(u64_part);
}

/// The encoding `spec_forfeit_parameters_expectations` has a fixed length and determines its fields.
proof fn lemma_forfeit_parameters_expectations_injective(p: GreenLabelForfeitParametersV1, q: GreenLabelForfeitParametersV1)
    ensures
        spec_forfeit_parameters_expectations(p).len() == 13,
        spec_forfeit_parameters_expectations(p) == spec_forfeit_parameters_expectations(q) ==> p.revenue_type == q.revenue_type && p.expected_escrow_status == q.expected_escrow_status && p.expected_project_status == q.expected_project_status && p.expected_dispute_status == q.expected_dispute_status && p.action_type == q.action_type && p.proposal_id == q.proposal_id,
{
    lemma_forfeit_parameters_expectations_parts(p);
    lemma_forfeit_parameters_expectations_parts(q);
    lemma_byte_part(spec_revenue_type_tag(p.revenue_type), spec_revenue_type_tag(q.revenue_type));
    lemma_byte_part(spec_revenue_type_tag(q.revenue_type), spec_revenue_type_tag(p.revenue_type));
    lemma_byte_part(spec_green_label_escrow_status_v1_tag(p.expected_escrow_status), spec_green_label_escrow_status_v1_tag(q.expected_escrow_status));
    lemma_byte_part(spec_green_label_escrow_status_v1_tag(q.expected_escrow_status), spec_green_label_escrow_status_v1_tag(p.expected_escrow_status));
    lemma_byte_part(spec_green_label_status_tag(p.expected_project_status), spec_green_label_status_tag(q.expected_project_status));
    lemma_byte_part(spec_green_label_status_tag(q.expected_project_status), spec_green_label_status_tag(p.expected_project_status));
    lemma_byte_part(spec_dispute_status_tag(p.expected_dispute_status), spec_dispute_status_tag(q.expected_dispute_status));
    lemma_byte_part(spec_dispute_status_tag(q.expected_dispute_status), spec_dispute_status_tag(p.expected_dispute_status));
    lemma_byte_part(spec_governance_action_type_v1_tag(p.action_type), spec_governance_action_type_v1_tag(q.action_type));
    lemma_byte_part(spec_governance_action_type_v1_tag(q.action_type), spec_governance_action_type_v1_tag(p.action_type));
    lemma_u64_part(p.proposal_id, q.proposal_id);
    lemma_u64_part(q.proposal_id, p.proposal_id);
    if spec_forfeit_parameters_expectations(p) == spec_forfeit_parameters_expectations(q) {
        lemma_concat_split(byte_part(spec_revenue_type_tag(p.revenue_type)) + byte_part(spec_green_label_escrow_status_v1_tag(p.expected_escrow_status)) + byte_part(spec_green_label_status_tag(p.expected_project_status)) + byte_part(spec_dispute_status_tag(p.expected_dispute_status)) + byte_part(spec_governance_action_type_v1_tag(p.action_type)), u64_part(p.proposal_id),
            byte_part(spec_revenue_type_tag(q.revenue_type)) + byte_part(spec_green_label_escrow_status_v1_tag(q.expected_escrow_status)) + byte_part(spec_green_label_status_tag(q.expected_project_status)) + byte_part(spec_dispute_status_tag(q.expected_dispute_status)) + byte_part(spec_governance_action_type_v1_tag(q.action_type)), u64_part(q.proposal_id));
        lemma_concat_split(byte_part(spec_revenue_type_tag(p.revenue_type)) + byte_part(spec_green_label_escrow_status_v1_tag(p.expected_escrow_status)) + byte_part(spec_green_label_status_tag(p.expected_project_status)) + byte_part(spec_dispute_status_tag(p.expected_dispute_status)), byte_part(spec_governance_action_type_v1_tag(p.action_type)),
            byte_part(spec_revenue_type_tag(q.revenue_type)) + byte_part(spec_green_label_escrow_status_v1_tag(q.expected_escrow_status)) + byte_part(spec_green_label_status_tag(q.expected_project_status)) + byte_part(spec_dispute_status_tag(q.expected_dispute_status)), byte_part(spec_governance_action_type_v1_tag(q.action_type)));
        lemma_concat_split(byte_part(spec_revenue_type_tag(p.revenue_type)) + byte_part(spec_green_label_escrow_status_v1_tag(p.expected_escrow_status)) + byte_part(spec_green_label_status_tag(p.expected_project_status)), byte_part(spec_dispute_status_tag(p.expected_dispute_status)),
            byte_part(spec_revenue_type_tag(q.revenue_type)) + byte_part(spec_green_label_escrow_status_v1_tag(q.expected_escrow_status)) + byte_part(spec_green_label_status_tag(q.expected_project_status)), byte_part(spec_dispute_status_tag(q.expected_dispute_status)));
        lemma_concat_split(byte_part(spec_revenue_type_tag(p.revenue_type)) + byte_part(spec_green_label_escrow_status_v1_tag(p.expected_escrow_status)), byte_part(spec_green_label_status_tag(p.expected_project_status)),
            byte_part(spec_revenue_type_tag(q.revenue_type)) + byte_part(spec_green_label_escrow_status_v1_tag(q.expected_escrow_status)), byte_part(spec_green_label_status_tag(q.expected_project_status)));
        lemma_concat_split(byte_part(spec_revenue_type_tag(p.revenue_type)), byte_part(spec_green_label_escrow_status_v1_tag(p.expected_escrow_status)),
            byte_part(spec_revenue_type_tag(q.revenue_type)), byte_part(spec_green_label_escrow_status_v1_tag(q.expected_escrow_status)));
        lemma_revenue_type_tag_injective(p.revenue_type, q.revenue_type);
        lemma_green_label_escrow_status_v1_tag_injective(p.expected_escrow_status, q.expected_escrow_status);
        lemma_green_label_status_tag_injective(p.expected_project_status, q.expected_project_status);
        lemma_dispute_status_tag_injective(p.expected_dispute_status, q.expected_dispute_status);
        lemma_governance_action_type_v1_tag_injective(p.action_type, q.action_type);
    }
}

/// Parameters with the same encoding are the same parameters.
proof fn lemma_forfeit_parameters_bytes_injective(p: GreenLabelForfeitParametersV1, q: GreenLabelForfeitParametersV1)
    ensures
        spec_forfeit_parameters_bytes(p) == spec_forfeit_parameters_bytes(q) ==> p == q,
{
    if spec_forfeit_parameters_bytes(p) == spec_forfeit_parameters_bytes(q) {
        lemma_forfeit_parameters_head_injective(p, q);
        lemma_forfeit_parameters_head_injective(q, p);
        lemma_forfeit_parameters_accounts_injective(p, q);
        lemma_forfeit_parameters_accounts_injective(q, p);
        lemma_forfeit_parameters_expectations_injective(p, q);
        lemma_forfeit_parameters_expectations_injective(q, p);
        lemma_concat_split(spec_forfeit_parameters_head(p) + spec_forfeit_parameters_accounts(p), spec_forfeit_parameters_expectations(p), spec_forfeit_parameters_head(q) + spec_forfeit_parameters_accounts(q), spec_forfeit_parameters_expectations(q));
        lemma_concat_split(spec_forfeit_parameters_head(p), spec_forfeit_parameters_accounts(p), spec_forfeit_parameters_head(q), spec_forfeit_parameters_accounts(q));
    }
}

/// The forfeit parameters are bound by what is hashed: two parameter values
/// give the same hash pre-image (the forfeit domain followed by their
/// encoding) only when they are equal in every field.
pub proof fn law_forfeit_parameters_preimage_is_injective(p: GreenLabelForfeitParametersV1, q: GreenLabelForfeitParametersV1)
    ensures
        (spec_domain(Domain::GreenLabelForfeitParameters) + spec_forfeit_parameters_bytes(p) == spec_domain(Domain::GreenLabelForfeitParameters) + spec_forfeit_parameters_bytes(q)) == (p == q),
{
    if spec_domain(Domain::GreenLabelForfeitParameters) + spec_forfeit_parameters_bytes(p) == spec_domain(Domain::GreenLabelForfeitParameters) + spec_forfeit_parameters_bytes(q) {
        lemma_concat_split(spec_domain(Domain::GreenLabelForfeitParameters), spec_forfeit_parameters_bytes(p), spec_domain(Domain::GreenLabelForfeitParameters), spec_forfeit_parameters_bytes(q));
        lemma_forfeit_parameters_bytes_injective(p, q);
    }
}

} // verus!
