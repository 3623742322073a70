//! The escrow and fee instructions as state changes. Those that move
//! tokens are split at the transfer: a check that returns what to transfer
//! (and what it commits to), and a record for after it.
use vstd::prelude::*;
use crate::error::{CustomError, ProgramResult};
use crate::green_label_escrow::{
    record_green_label_escrow_refunded, spec_bond_deposit, spec_escrow_init, spec_escrow_payable, spec_escrow_refund,
    derive_green_label_forfeitable_amount_v1, derive_green_label_refund_amount_v1,
    validate_green_label_escrow_refund, validate_green_label_refundable_bond_deposit,
    validate_green_label_refundable_escrow_initialization,
};
use crate::green_label_escrow_governance::{
    record_green_label_forfeit_governance_v1, record_green_label_refund_governance_v1, spec_closed_project,
    spec_forfeit_record, spec_forfeit_record_checks, spec_refund_record, spec_resolved_dispute,
    PayoutAccounts, spec_dispute_value, spec_forfeit_context, spec_refund_context, validate_green_label_forfeit_execution_context_v1,
    validate_green_label_refund_execution_context_v1, TreasuryKeys, TreasuryVaults,
};
use crate::green_label_escrow_params::{
    build_green_label_forfeit_parameters_v1, build_green_label_refund_parameters_v1, spec_forfeit_parameters,
    spec_forfeit_parameters_hash, spec_refund_parameters_hash,
    spec_refund_parameters, GreenLabelForfeitParametersV1, GreenLabelRefundParametersV1,
};
use crate::green_label_fee::{
    law_fee_receipt_is_recorded_once, record_green_label_certification_fee_receipt_v1, spec_fee_receipt,
    build_green_label_certification_fee_parameters_v1, record_green_label_certification_fee_policy_init_v1,
    spec_fee_once, spec_fee_parameters, spec_fee_policy_init, validate_green_label_certification_fee_once_v1, validate_green_label_certification_fee_policy_init_v1,
    GreenLabelCertificationFeeParametersV1,
};
use crate::keys::{Hash32, Key32, Pubkey};
use crate::state::{
    GreenLabelCertificationFeeReceiptV1, GreenLabelForfeitExecutionRecordV1, RevenueType, ActionType, DisputeStatus, GreenLabelRefundExecutionRecordV1, GreenLabelStatus, ExecutionQueueItemV1, GovernanceConfigV1, GovernanceProposalActionV1, GovernanceProposalV1,
    GreenLabelCertificationFeePolicyV1, GreenLabelConfigV1, GreenLabelDisputeV1, GreenLabelEscrowStatusV1,
    GreenLabelProjectV1, GreenLabelRefundableEscrowV1, ProposalDecisionV1, ProtocolModuleRegistryV1,
    RevenueRoutingStatsV1, TokenAccount, TreasuryConfigV2, TreasuryUsdcStateV2, UniversalGovernanceDecisionAdapterV1,
};

verus! {

/// Opens a refundable escrow for a project, locked and empty, paid into by
/// the project owner; a refused request changes nothing.
pub fn initialize_green_label_refundable_escrow(
    green_label_config: &GreenLabelConfigV1,
    green_label_project: &GreenLabelProjectV1,
    green_label_project_key: Pubkey,
    escrow: &mut GreenLabelRefundableEscrowV1,
    payer: Pubkey,
    usdc_mint: Pubkey,
    refundable_vault_key: Pubkey,
    refund_available_after: i64,
    now: i64,
    bump: u8,
    vault_bump: u8,
) -> (r: ProgramResult<()>)
    ensures
        r == spec_escrow_init(green_label_config.is_paused, green_label_project.project_owner, payer,
            green_label_config.usdc_mint, usdc_mint, now, refund_available_after),
        r is Err ==> *final(escrow) == *old(escrow),
        r is Ok ==> *final(escrow) == (GreenLabelRefundableEscrowV1 {
            authority: green_label_config.authority,
            project: green_label_project_key,
            project_id: green_label_project.project_id,
            payer,
            usdc_mint,
            refundable_vault: refundable_vault_key,
            deposited_amount: 0,
            refundable_amount: 0,
            refunded_amount: 0,
            forfeited_amount: 0,
            deposit_ts: 0,
            refund_available_after,
            status: GreenLabelEscrowStatusV1::Locked,
            bump,
            vault_bump,
        }),
{
    validate_green_label_refundable_escrow_initialization(green_label_config.is_paused, green_label_project.project_owner,
        payer, green_label_config.usdc_mint, usdc_mint, now, refund_available_after)?;
    escrow.authority = green_label_config.authority;
    escrow.project = green_label_project_key;
    escrow.project_id = green_label_project.project_id;
    escrow.payer = payer;
    escrow.usdc_mint = usdc_mint;
    escrow.refundable_vault = refundable_vault_key;
    escrow.deposited_amount = 0;
    escrow.refundable_amount = 0;
    escrow.refunded_amount = 0;
    escrow.forfeited_amount = 0;
    escrow.deposit_ts = 0;
    escrow.refund_available_after = refund_available_after;
    escrow.status = GreenLabelEscrowStatusV1::Locked;
    escrow.bump = bump;
    escrow.vault_bump = vault_bump;
    Ok(())
}

/// Checks a deposit into an escrow and returns the amount the payer must
/// transfer into its vault.
pub fn plan_green_label_refundable_bond_deposit(
    escrow: &GreenLabelRefundableEscrowV1,
    escrow_key: Pubkey,
    payer: Pubkey,
    payer_usdc_account: &TokenAccount,
    refundable_vault: &TokenAccount,
    usdc_mint: Pubkey,
    usdc_decimals: u8,
    amount: u64,
) -> (r: ProgramResult<u64>)
    ensures
        ({
            let check = spec_bond_deposit(escrow.status, escrow.payer, payer, escrow.usdc_mint, payer_usdc_account.mint,
                refundable_vault.mint, refundable_vault.owner, escrow_key, usdc_mint, usdc_decimals, amount);
            r == (if check is Err { Err::<u64, CustomError>(check->Err_0) } else { Ok::<u64, CustomError>(amount) })
        }),
{
    validate_green_label_refundable_bond_deposit(escrow.status, escrow.payer, payer, escrow.usdc_mint,
        payer_usdc_account.mint, refundable_vault.mint, refundable_vault.owner, escrow_key, usdc_mint, usdc_decimals,
        amount)?;
    Ok(amount)
}

/// Checks a refund of an escrow to its payer (by its refund time, or by a
/// recorded refund decision) and returns the amount to transfer back.
pub fn plan_green_label_escrow_refund(
    escrow: &GreenLabelRefundableEscrowV1,
    escrow_key: Pubkey,
    green_label_project: &GreenLabelProjectV1,
    payer_refund_usdc_account: &TokenAccount,
    refundable_vault: &TokenAccount,
    usdc_mint: Pubkey,
    usdc_decimals: u8,
    now: i64,
) -> (r: ProgramResult<u64>)
    ensures
        r == spec_escrow_refund(escrow.status, escrow.refundable_amount, escrow.refunded_amount, escrow.forfeited_amount,
            escrow.refund_available_after, now, green_label_project.active_dispute,
            green_label_project.terminal_action_type, green_label_project.terminal_proposal_id,
            green_label_project.terminal_payload_hash, escrow.payer, payer_refund_usdc_account.owner, escrow.usdc_mint,
            payer_refund_usdc_account.mint, refundable_vault.mint, refundable_vault.owner, escrow_key, usdc_mint,
            usdc_decimals, refundable_vault.amount),
{
    validate_green_label_escrow_refund(escrow.status, escrow.refundable_amount, escrow.refunded_amount,
        escrow.forfeited_amount, escrow.refund_available_after, now, green_label_project.active_dispute,
        green_label_project.terminal_action_type, green_label_project.terminal_proposal_id,
        green_label_project.terminal_payload_hash, escrow.payer, payer_refund_usdc_account.owner, escrow.usdc_mint,
        payer_refund_usdc_account.mint, refundable_vault.mint, refundable_vault.owner, escrow_key, usdc_mint,
        usdc_decimals, refundable_vault.amount)
}

/// Sets the certification fee policy once its request is checked; a refused
/// request changes nothing.
pub fn initialize_green_label_certification_fee_policy(
    green_label_config: &GreenLabelConfigV1,
    green_label_config_key: Pubkey,
    policy: &mut GreenLabelCertificationFeePolicyV1,
    authority: Pubkey,
    fee_amount_usdc: u64,
    now: i64,
    bump: u8,
) -> (r: ProgramResult<()>)
    ensures
        ({
            let check = spec_fee_policy_init(green_label_config.authority, authority, green_label_config.usdc_mint,
                fee_amount_usdc);
            &&& check is Err ==> r == check && *final(policy) == *old(policy)
            &&& check is Ok && old(policy).green_label_config != Key32::zero() ==> r == Err::<(), CustomError>(
                CustomError::GreenLabelCertificationFeePolicyAlreadyInitialized) && *final(policy) == *old(policy)
            &&& check is Ok && old(policy).green_label_config == Key32::zero() ==> r == Ok::<(), CustomError>(())
                && *final(policy) == (GreenLabelCertificationFeePolicyV1 {
                    green_label_config: green_label_config_key,
                    usdc_mint: green_label_config.usdc_mint,
                    fee_amount_usdc,
                    policy_version: crate::constants::GREEN_LABEL_CERTIFICATION_FEE_POLICY_VERSION,
                    active: true,
                    initialized_by: authority,
                    created_at: now,
                    schema_version: crate::constants::GREEN_LABEL_CERTIFICATION_FEE_SCHEMA_VERSION,
                    bump,
                })
        }),
{
    validate_green_label_certification_fee_policy_init_v1(green_label_config.authority, authority,
        green_label_config.usdc_mint, fee_amount_usdc)?;
    record_green_label_certification_fee_policy_init_v1(policy, green_label_config_key, green_label_config.usdc_mint,
        fee_amount_usdc, authority, now, bump)
}

/// The treasury accounts a fee or forfeit is routed through.
#[derive(Clone, Copy, Debug, PartialEq, Eq)]
pub struct TreasuryAccounts {
    pub treasury_config: TreasuryConfigV2,
    pub treasury_config_key: Pubkey,
    pub treasury_usdc_state: TreasuryUsdcStateV2,
    pub treasury_usdc_state_key: Pubkey,
    pub revenue_routing_stats: RevenueRoutingStatsV1,
    pub revenue_routing_stats_key: Pubkey,
    pub vault_authority_key: Pubkey,
    pub relief_usdc_vault: TokenAccount,
    pub relief_usdc_vault_key: Pubkey,
    pub buyback_usdc_vault: TokenAccount,
    pub buyback_usdc_vault_key: Pubkey,
    pub builders_usdc_vault: TokenAccount,
    pub builders_usdc_vault_key: Pubkey,
    pub staking_usdc_vault: TokenAccount,
    pub staking_usdc_vault_key: Pubkey,
}

/// The outcome of checking a one-time certification fee payment: its
/// parameters and their hash, or the first error the checks meet.
pub open spec fn spec_plan_fee_once(
    green_label_config: GreenLabelConfigV1,
    green_label_config_key: Pubkey,
    green_label_project: GreenLabelProjectV1,
    green_label_project_key: Pubkey,
    fee_policy: GreenLabelCertificationFeePolicyV1,
    fee_policy_key: Pubkey,
    payer: Pubkey,
    payer_usdc_account: TokenAccount,
    payer_usdc_account_key: Pubkey,
    t: TreasuryAccounts,
    usdc_mint: Pubkey,
    usdc_decimals: u8,
) -> ProgramResult<(GreenLabelCertificationFeeParametersV1, Hash32)> {
    let p = spec_fee_parameters(green_label_config_key, fee_policy_key, fee_policy, green_label_project_key,
        green_label_project, payer, payer_usdc_account_key, t.treasury_config_key, t.treasury_usdc_state_key,
        t.revenue_routing_stats_key, t.relief_usdc_vault_key, t.buyback_usdc_vault_key, t.builders_usdc_vault_key,
        t.staking_usdc_vault_key);
    match spec_fee_once(green_label_config, green_label_config_key, green_label_project,
        green_label_project_key, fee_policy, fee_policy_key, payer_usdc_account, payer_usdc_account_key, payer,
        t.treasury_config, t.treasury_config_key, t.treasury_usdc_state_key, t.revenue_routing_stats,
        t.revenue_routing_stats_key, t.vault_authority_key, t.relief_usdc_vault_key, t.relief_usdc_vault,
        t.buyback_usdc_vault_key, t.buyback_usdc_vault, t.builders_usdc_vault_key, t.builders_usdc_vault,
        t.staking_usdc_vault_key, t.staking_usdc_vault, usdc_mint, usdc_decimals, p) {
        Err(e) => Err(e),
        Ok(h) => Ok((p, h)),
    }
}

/// Checks a one-time certification fee payment and returns its parameters
/// and their hash; the fee policy's amount is then routed to the treasury.
pub fn plan_green_label_certification_fee_once(
    green_label_config: &GreenLabelConfigV1,
    green_label_config_key: Pubkey,
    green_label_project: &GreenLabelProjectV1,
    green_label_project_key: Pubkey,
    fee_policy: &GreenLabelCertificationFeePolicyV1,
    fee_policy_key: Pubkey,
    payer: Pubkey,
    payer_usdc_account: &TokenAccount,
    payer_usdc_account_key: Pubkey,
    t: &TreasuryAccounts,
    usdc_mint: Pubkey,
    usdc_decimals: u8,
) -> (r: ProgramResult<(GreenLabelCertificationFeeParametersV1, Hash32)>)
    ensures
        r == spec_plan_fee_once(*green_label_config, green_label_config_key, *green_label_project,
            green_label_project_key, *fee_policy, fee_policy_key, payer, *payer_usdc_account, payer_usdc_account_key,
            *t, usdc_mint, usdc_decimals),
{
    let parameters = build_green_label_certification_fee_parameters_v1(green_label_config_key, fee_policy_key, fee_policy,
        green_label_project_key, green_label_project, payer, payer_usdc_account_key, t.treasury_config_key,
        t.treasury_usdc_state_key, t.revenue_routing_stats_key, t.relief_usdc_vault_key, t.buyback_usdc_vault_key,
        t.builders_usdc_vault_key, t.staking_usdc_vault_key)?;
    let parameters_hash = validate_green_label_certification_fee_once_v1(green_label_config, green_label_config_key,
        green_label_project, green_label_project_key, fee_policy, fee_policy_key, payer_usdc_account,
        payer_usdc_account_key, payer, &t.treasury_config, t.treasury_config_key, &t.treasury_usdc_state,
        t.treasury_usdc_state_key, &t.revenue_routing_stats, t.revenue_routing_stats_key, t.vault_authority_key,
        t.relief_usdc_vault_key, &t.relief_usdc_vault, t.buyback_usdc_vault_key, &t.buyback_usdc_vault,
        t.builders_usdc_vault_key, &t.builders_usdc_vault, t.staking_usdc_vault_key, &t.staking_usdc_vault, usdc_mint,
        usdc_decimals, &parameters)?;
    Ok((parameters, parameters_hash))
}

/// Charges a project's certification fee once. On success the result is the
/// fee policy's amount, which the caller routes from the payer's USDC
/// account to the treasury as certification-fee revenue, and the receipt
/// names the project, the payer, that amount, the parameters' hash and
/// `now`; a receipt already written refuses every later charge. A failed
/// check changes nothing.
pub fn route_green_label_certification_fee_once_v1_handler(
    green_label_config: &GreenLabelConfigV1,
    green_label_config_key: Pubkey,
    green_label_project: &GreenLabelProjectV1,
    green_label_project_key: Pubkey,
    fee_policy: &GreenLabelCertificationFeePolicyV1,
    fee_policy_key: Pubkey,
    payer: Pubkey,
    payer_usdc_account: &TokenAccount,
    payer_usdc_account_key: Pubkey,
    t: &TreasuryAccounts,
    usdc_mint: Pubkey,
    usdc_decimals: u8,
    receipt: &mut GreenLabelCertificationFeeReceiptV1,
    receipt_key: Pubkey,
    now: i64,
    bump: u8,
) -> (r: ProgramResult<u64>)
    ensures
        ({
            let plan = spec_plan_fee_once(*green_label_config, green_label_config_key, *green_label_project,
                green_label_project_key, *fee_policy, fee_policy_key, payer, *payer_usdc_account,
                payer_usdc_account_key, *t, usdc_mint, usdc_decimals);
            &&& plan is Err ==> r == Err::<u64, CustomError>(plan->Err_0)
            &&& plan is Ok ==> r == (if old(receipt).green_label_project != Key32::zero() {
                Err::<u64, CustomError>(CustomError::GreenLabelCertificationFeeAlreadyPaid)
            } else if receipt_key == Key32::zero() {
                Err::<u64, CustomError>(CustomError::GreenLabelCertificationFeeParametersMismatch)
            } else {
                Ok::<u64, CustomError>(fee_policy.fee_amount_usdc)
            })
            &&& r is Err ==> *final(receipt) == *old(receipt)
            &&& r is Ok ==> {
                &&& *final(receipt) == spec_fee_receipt(*old(receipt), plan->Ok_0.0, plan->Ok_0.1, now, bump)
                &&& r->Ok_0 == fee_policy.fee_amount_usdc
                &&& old(receipt).green_label_project == Key32::zero()
                &&& final(receipt).green_label_project == green_label_project_key
                &&& final(receipt).green_label_project != Key32::zero()
                &&& final(receipt).payer == payer
                &&& final(receipt).amount_usdc == fee_policy.fee_amount_usdc
                &&& final(receipt).revenue_type == RevenueType::GreenLabelCertificationFee
                &&& final(receipt).parameters_hash == plan->Ok_0.1
                &&& final(receipt).routed_at == now
            }
        }),
{
    let (parameters, parameters_hash) = plan_green_label_certification_fee_once(green_label_config,
        green_label_config_key, green_label_project, green_label_project_key, fee_policy, fee_policy_key, payer,
        payer_usdc_account, payer_usdc_account_key, t, usdc_mint, usdc_decimals)?;
    proof {
        law_fee_receipt_is_recorded_once(*receipt, parameters, parameters_hash, now, bump);
    }
    record_green_label_certification_fee_receipt_v1(receipt, &parameters, parameters_hash, now, bump, receipt_key)?;
    Ok(fee_policy.fee_amount_usdc)
}

/// The governance accounts behind a governance payout of an escrow.
#[derive(Clone, Copy, Debug, PartialEq, Eq)]
pub struct PayoutGovernance {
    pub security_governance_config: GovernanceConfigV1,
    pub security_governance_config_key: Pubkey,
    pub protocol_module_registry: ProtocolModuleRegistryV1,
    pub protocol_module_registry_key: Pubkey,
    pub governance_proposal: GovernanceProposalV1,
    pub governance_proposal_key: Pubkey,
    pub governance_proposal_action: GovernanceProposalActionV1,
    pub governance_proposal_action_key: Pubkey,
    pub governance_decision_adapter: UniversalGovernanceDecisionAdapterV1,
    pub governance_decision_adapter_key: Pubkey,
    pub proposal_decision: ProposalDecisionV1,
    pub proposal_decision_key: Pubkey,
    pub execution_queue_item: ExecutionQueueItemV1,
    pub execution_queue_item_key: Pubkey,
}

/// The outcome of checking a governance refund of an escrow to its payer:
/// the amount to transfer and the parameters it was decided on, or the first
/// error the checks meet.
pub open spec fn spec_plan_refund_governance(
    g: PayoutGovernance,
    green_label_config: GreenLabelConfigV1,
    green_label_config_key: Pubkey,
    green_label_project: GreenLabelProjectV1,
    green_label_project_key: Pubkey,
    green_label_dispute: Option<GreenLabelDisputeV1>,
    green_label_dispute_key: Pubkey,
    escrow: GreenLabelRefundableEscrowV1,
    escrow_key: Pubkey,
    refundable_vault_key: Pubkey,
    refundable_vault: TokenAccount,
    payer_refund_usdc_account_key: Pubkey,
    payer_refund_usdc_account: TokenAccount,
    usdc_mint: Pubkey,
    usdc_decimals: u8,
    now: i64,
) -> ProgramResult<(u64, GreenLabelRefundParametersV1)> {
    match spec_escrow_payable(escrow, CustomError::GreenLabelRefundNotEligible,
        CustomError::GreenLabelRefundAmountMismatch) {
        Err(e) => Err(e),
        Ok(amount) => {
            let dispute_key = if green_label_dispute is Some { green_label_dispute_key } else { Key32::zero() };
            let p = spec_refund_parameters(green_label_config_key, green_label_project_key, dispute_key, escrow_key,
                refundable_vault_key, escrow.payer, payer_refund_usdc_account_key, amount, escrow.usdc_mint,
                escrow.status, g.governance_proposal.proposal_id);
            let check = spec_refund_context(g.security_governance_config, g.security_governance_config_key,
                green_label_config, green_label_config_key, green_label_project, green_label_project_key,
                green_label_dispute, escrow, escrow_key, g.protocol_module_registry,
                g.protocol_module_registry_key, g.governance_proposal, g.governance_proposal_key,
                g.governance_proposal_action, g.governance_proposal_action_key, g.governance_decision_adapter,
                g.governance_decision_adapter_key, g.proposal_decision, g.proposal_decision_key,
                g.execution_queue_item, g.execution_queue_item_key, refundable_vault_key, refundable_vault.mint,
                refundable_vault.owner, payer_refund_usdc_account_key, payer_refund_usdc_account.owner,
                payer_refund_usdc_account.mint, usdc_mint, usdc_decimals, refundable_vault.amount,
                green_label_dispute is Some, now, p);
            if check is Err {
                Err(check->Err_0)
            } else {
                Ok((amount, p))
            }
        },
    }
}

/// Checks a governance refund of an escrow to its payer, with the project's
/// dispute when `green_label_dispute` is given and without one otherwise,
/// and returns the amount to transfer and the parameters it was decided on.
pub fn plan_green_label_refund_governance(
    g: &PayoutGovernance,
    green_label_config: &GreenLabelConfigV1,
    green_label_config_key: Pubkey,
    green_label_project: &GreenLabelProjectV1,
    green_label_project_key: Pubkey,
    green_label_dispute: Option<&GreenLabelDisputeV1>,
    green_label_dispute_key: Pubkey,
    escrow: &GreenLabelRefundableEscrowV1,
    escrow_key: Pubkey,
    refundable_vault_key: Pubkey,
    refundable_vault: &TokenAccount,
    payer_refund_usdc_account_key: Pubkey,
    payer_refund_usdc_account: &TokenAccount,
    usdc_mint: Pubkey,
    usdc_decimals: u8,
    now: i64,
) -> (r: ProgramResult<(u64, GreenLabelRefundParametersV1)>)
    ensures
        r == spec_plan_refund_governance(*g, *green_label_config, green_label_config_key, *green_label_project,
            green_label_project_key, spec_dispute_value(green_label_dispute), green_label_dispute_key, *escrow,
            escrow_key, refundable_vault_key, *refundable_vault, payer_refund_usdc_account_key,
            *payer_refund_usdc_account, usdc_mint, usdc_decimals, now),
{
    let refund_amount = derive_green_label_refund_amount_v1(escrow)?;
    let requires_dispute = green_label_dispute.is_some();
    let dispute_key = if requires_dispute { green_label_dispute_key } else { Key32::default() };
    let parameters = build_green_label_refund_parameters_v1(green_label_config_key, green_label_project_key, dispute_key,
        escrow_key, refundable_vault_key, escrow.payer, payer_refund_usdc_account_key, refund_amount, escrow.usdc_mint,
        escrow.status, g.governance_proposal.proposal_id)?;
    validate_green_label_refund_execution_context_v1(&g.security_governance_config, g.security_governance_config_key,
        green_label_config, green_label_config_key, green_label_project, green_label_project_key, green_label_dispute,
        escrow, escrow_key, &g.protocol_module_registry, g.protocol_module_registry_key, &g.governance_proposal,
        g.governance_proposal_key, &g.governance_proposal_action, g.governance_proposal_action_key,
        &g.governance_decision_adapter, g.governance_decision_adapter_key, &g.proposal_decision,
        g.proposal_decision_key, &g.execution_queue_item, g.execution_queue_item_key, refundable_vault_key,
        refundable_vault.mint, refundable_vault.owner, payer_refund_usdc_account_key, payer_refund_usdc_account.owner,
        payer_refund_usdc_account.mint, usdc_mint, usdc_decimals, refundable_vault.amount, requires_dispute, now,
        &parameters)?;
    Ok((refund_amount, parameters))
}

/// The result of recording a checked governance refund of `amount` decided
/// on `parameters`: the escrow's refunded total must not overflow, the
/// execution record must not be written yet, the parameters must hash, and
/// the record must have an address.
pub open spec fn spec_refund_governance_result(
    escrow: GreenLabelRefundableEscrowV1,
    execution_record: GreenLabelRefundExecutionRecordV1,
    amount: u64,
    parameters: GreenLabelRefundParametersV1,
    execution_record_key: Pubkey,
) -> ProgramResult<u64> {
    if escrow.refunded_amount + amount > u64::MAX {
        Err(CustomError::GreenLabelMathOverflow)
    } else if execution_record.execution_queue_item != Key32::zero() {
        Err(CustomError::GreenLabelRefundExecutionAlreadyCompleted)
    } else if spec_refund_parameters_hash(parameters) is Err {
        Err(spec_refund_parameters_hash(parameters)->Err_0)
    } else if execution_record_key == Key32::zero() {
        Err(CustomError::GreenLabelRefundExecutionAlreadyCompleted)
    } else {
        Ok(amount)
    }
}

/// Carries out a governance refund of an escrow when the project has an
/// open dispute. On success the result is the amount the caller transfers
/// from the escrow's vault to the payer's USDC account, signed by the
/// escrow; the escrow is Refunded with that amount added, the project is
/// Refunded at `now` with the decision as its terminal one and no active
/// dispute, the dispute is resolved for the refund, and the execution record
/// is written once.
pub fn execute_green_label_refund_dispute_governance_v1_handler(
    g: &PayoutGovernance,
    green_label_config: &GreenLabelConfigV1,
    green_label_config_key: Pubkey,
    green_label_project: &mut GreenLabelProjectV1,
    green_label_project_key: Pubkey,
    green_label_dispute: &mut GreenLabelDisputeV1,
    green_label_dispute_key: Pubkey,
    escrow: &mut GreenLabelRefundableEscrowV1,
    escrow_key: Pubkey,
    refundable_vault_key: Pubkey,
    refundable_vault: &TokenAccount,
    payer_refund_usdc_account_key: Pubkey,
    payer_refund_usdc_account: &TokenAccount,
    usdc_mint: Pubkey,
    usdc_decimals: u8,
    execution_record: &mut GreenLabelRefundExecutionRecordV1,
    execution_record_key: Pubkey,
    executor: Pubkey,
    now: i64,
    bump: u8,
) -> (r: ProgramResult<u64>)
    ensures
        ({
            let plan = spec_plan_refund_governance(*g, *green_label_config, green_label_config_key,
                *old(green_label_project), green_label_project_key, Some(*old(green_label_dispute)), green_label_dispute_key,
                *old(escrow), escrow_key, refundable_vault_key, *refundable_vault, payer_refund_usdc_account_key,
                *payer_refund_usdc_account, usdc_mint, usdc_decimals, now);
            &&& plan is Err ==> {
                &&& r == Err::<u64, CustomError>(plan->Err_0)
                &&& *final(green_label_project) == *old(green_label_project)
                &&& *final(escrow) == *old(escrow)
                &&& *final(execution_record) == *old(execution_record)
                &&& *final(green_label_dispute) == *old(green_label_dispute)
            }
            &&& plan is Ok ==> r == spec_refund_governance_result(*old(escrow), *old(execution_record),
                plan->Ok_0.0, plan->Ok_0.1, execution_record_key)
            &&& r is Ok ==> {
                let amount = plan->Ok_0.0;
                let parameters = plan->Ok_0.1;
                &&& r->Ok_0 == amount
                &&& spec_escrow_payable(*old(escrow), CustomError::GreenLabelRefundNotEligible,
                    CustomError::GreenLabelRefundAmountMismatch) == Ok::<u64, CustomError>(amount)
                &&& *final(escrow) == (GreenLabelRefundableEscrowV1 {
                    refunded_amount: (old(escrow).refunded_amount + amount) as u64,
                    status: GreenLabelEscrowStatusV1::Refunded,
                    ..*old(escrow)
                })
                &&& *final(green_label_project) == spec_closed_project(*old(green_label_project),
                    GreenLabelStatus::Refunded, now, parameters.proposal_id, g.proposal_decision_key,
                    g.execution_queue_item_key, g.governance_proposal_action.canonical_payload_hash,
                    ActionType::GreenLabelRefund)
                &&& *final(green_label_dispute) == spec_resolved_dispute(*old(green_label_dispute),
                    DisputeStatus::ResolvedRefund, now, parameters.proposal_id, g.proposal_decision_key,
                    g.execution_queue_item_key, g.governance_proposal_action.canonical_payload_hash,
                    ActionType::GreenLabelRefund)
                &&& *final(execution_record) == spec_refund_record(PayoutAccounts {
                    execution_queue_item: g.execution_queue_item_key,
                    proposal_decision: g.proposal_decision_key,
                    governance_proposal: g.governance_proposal_key,
                    governance_proposal_action: g.governance_proposal_action_key,
                    module_registry: g.protocol_module_registry_key,
                    green_label_config: green_label_config_key,
                    green_label_project: green_label_project_key,
                    green_label_dispute: green_label_dispute_key,
                    refundable_escrow: escrow_key,
                    refundable_vault: refundable_vault_key,
                }, old(escrow).payer, payer_refund_usdc_account_key, amount, old(escrow).usdc_mint,
                    spec_refund_parameters_hash(parameters)->Ok_0, g.governance_proposal_action.canonical_payload_hash,
                    old(escrow).status, old(green_label_project).status, executor, now, bump)
            }
        }),
{
    let (refund_amount, parameters) = plan_green_label_refund_governance(g, green_label_config, green_label_config_key,
        green_label_project, green_label_project_key, Some(&*green_label_dispute), green_label_dispute_key, escrow, escrow_key,
        refundable_vault_key, refundable_vault, payer_refund_usdc_account_key, payer_refund_usdc_account, usdc_mint,
        usdc_decimals, now)?;
    let escrow_status_before = escrow.status;
    let project_status_before = green_label_project.status;
    record_green_label_escrow_refunded(escrow, refund_amount)?;
    record_green_label_refund_governance_v1(green_label_project, Some(green_label_dispute), execution_record,
        g.execution_queue_item_key, g.proposal_decision_key, g.governance_proposal_key,
        g.governance_proposal_action_key, g.protocol_module_registry_key, green_label_config_key,
        green_label_project_key, green_label_dispute_key, escrow_key, refundable_vault_key, escrow.payer,
        payer_refund_usdc_account_key, refund_amount, escrow.usdc_mint, parameters,
        g.governance_proposal_action.canonical_payload_hash, escrow_status_before, project_status_before, executor,
        now, bump, execution_record_key)?;
    Ok(refund_amount)
}

/// Carries out a governance refund of an escrow for a project without a
/// dispute. On success the result is the amount the caller transfers from
/// the escrow's vault to the payer's USDC account, signed by the escrow; the
/// escrow is Refunded with that amount added, the project is Refunded at
/// `now` with the decision as its terminal one, and the execution record is
/// written once. A failed check changes nothing; a failure while recording
/// fails the instruction as a whole.
pub fn execute_green_label_refund_no_dispute_governance_v1_handler(
    g: &PayoutGovernance,
    green_label_config: &GreenLabelConfigV1,
    green_label_config_key: Pubkey,
    green_label_project: &mut GreenLabelProjectV1,
    green_label_project_key: Pubkey,
    escrow: &mut GreenLabelRefundableEscrowV1,
    escrow_key: Pubkey,
    refundable_vault_key: Pubkey,
    refundable_vault: &TokenAccount,
    payer_refund_usdc_account_key: Pubkey,
    payer_refund_usdc_account: &TokenAccount,
    usdc_mint: Pubkey,
    usdc_decimals: u8,
    execution_record: &mut GreenLabelRefundExecutionRecordV1,
    execution_record_key: Pubkey,
    executor: Pubkey,
    now: i64,
    bump: u8,
) -> (r: ProgramResult<u64>)
    ensures
        ({
            let plan = spec_plan_refund_governance(*g, *green_label_config, green_label_config_key,
                *old(green_label_project), green_label_project_key, None::<GreenLabelDisputeV1>, Key32::zero(),
                *old(escrow), escrow_key, refundable_vault_key, *refundable_vault, payer_refund_usdc_account_key,
                *payer_refund_usdc_account, usdc_mint, usdc_decimals, now);
            &&& plan is Err ==> {
                &&& r == Err::<u64, CustomError>(plan->Err_0)
                &&& *final(green_label_project) == *old(green_label_project)
                &&& *final(escrow) == *old(escrow)
                &&& *final(execution_record) == *old(execution_record)
            }
            &&& plan is Ok ==> r == spec_refund_governance_result(*old(escrow), *old(execution_record),
                plan->Ok_0.0, plan->Ok_0.1, execution_record_key)
            &&& r is Ok ==> {
                let amount = plan->Ok_0.0;
                let parameters = plan->Ok_0.1;
                &&& r->Ok_0 == amount
                &&& spec_escrow_payable(*old(escrow), CustomError::GreenLabelRefundNotEligible,
                    CustomError::GreenLabelRefundAmountMismatch) == Ok::<u64, CustomError>(amount)
                &&& *final(escrow) == (GreenLabelRefundableEscrowV1 {
                    refunded_amount: (old(escrow).refunded_amount + amount) as u64,
                    status: GreenLabelEscrowStatusV1::Refunded,
                    ..*old(escrow)
                })
                &&& *final(green_label_project) == spec_closed_project(*old(green_label_project),
                    GreenLabelStatus::Refunded, now, parameters.proposal_id, g.proposal_decision_key,
                    g.execution_queue_item_key, g.governance_proposal_action.canonical_payload_hash,
                    ActionType::GreenLabelRefund)
                &&& *final(execution_record) == spec_refund_record(PayoutAccounts {
                    execution_queue_item: g.execution_queue_item_key,
                    proposal_decision: g.proposal_decision_key,
                    governance_proposal: g.governance_proposal_key,
                    governance_proposal_action: g.governance_proposal_action_key,
                    module_registry: g.protocol_module_registry_key,
                    green_label_config: green_label_config_key,
                    green_label_project: green_label_project_key,
                    green_label_dispute: Key32::zero(),
                    refundable_escrow: escrow_key,
                    refundable_vault: refundable_vault_key,
                }, old(escrow).payer, payer_refund_usdc_account_key, amount, old(escrow).usdc_mint,
                    spec_refund_parameters_hash(parameters)->Ok_0, g.governance_proposal_action.canonical_payload_hash,
                    old(escrow).status, old(green_label_project).status, executor, now, bump)
            }
        }),
{
    let (refund_amount, parameters) = plan_green_label_refund_governance(g, green_label_config, green_label_config_key,
        green_label_project, green_label_project_key, None, Key32::default(), escrow, escrow_key,
        refundable_vault_key, refundable_vault, payer_refund_usdc_account_key, payer_refund_usdc_account, usdc_mint,
        usdc_decimals, now)?;
    let escrow_status_before = escrow.status;
    let project_status_before = green_label_project.status;
    record_green_label_escrow_refunded(escrow, refund_amount)?;
    record_green_label_refund_governance_v1(green_label_project, None, execution_record,
        g.execution_queue_item_key, g.proposal_decision_key, g.governance_proposal_key,
        g.governance_proposal_action_key, g.protocol_module_registry_key, green_label_config_key,
        green_label_project_key, Key32::default(), escrow_key, refundable_vault_key, escrow.payer,
        payer_refund_usdc_account_key, refund_amount, escrow.usdc_mint, parameters,
        g.governance_proposal_action.canonical_payload_hash, escrow_status_before, project_status_before, executor,
        now, bump, execution_record_key)?;
    Ok(refund_amount)
}

/// The outcome of checking a governance forfeit of an escrow to the
/// treasury: the amount to route and the parameters it was decided on, or
/// the first error the checks meet.
pub open spec fn spec_plan_forfeit_governance(
    g: PayoutGovernance,
    green_label_config: GreenLabelConfigV1,
    green_label_config_key: Pubkey,
    green_label_project: GreenLabelProjectV1,
    green_label_project_key: Pubkey,
    green_label_dispute: GreenLabelDisputeV1,
    green_label_dispute_key: Pubkey,
    escrow: GreenLabelRefundableEscrowV1,
    escrow_key: Pubkey,
    refundable_vault_key: Pubkey,
    refundable_vault: TokenAccount,
    t: TreasuryAccounts,
    usdc_mint: Pubkey,
    usdc_decimals: u8,
    now: i64,
) -> ProgramResult<(u64, GreenLabelForfeitParametersV1)> {
    match spec_escrow_payable(escrow, CustomError::GreenLabelForfeitNotEligible,
        CustomError::GreenLabelForfeitAmountMismatch) {
        Err(e) => Err(e),
        Ok(amount) => {
            let p = spec_forfeit_parameters(green_label_config_key, green_label_project_key, green_label_dispute_key,
                escrow_key, refundable_vault_key, amount, t.treasury_config_key, t.treasury_usdc_state_key,
                t.revenue_routing_stats_key, t.relief_usdc_vault_key, t.buyback_usdc_vault_key,
                t.builders_usdc_vault_key, t.staking_usdc_vault_key, escrow.usdc_mint, escrow.status,
                green_label_project.status, green_label_dispute.status, g.governance_proposal.proposal_id);
            let check = spec_forfeit_context(g.security_governance_config, g.security_governance_config_key,
                green_label_config, green_label_config_key, green_label_project, green_label_project_key,
                green_label_dispute, green_label_dispute_key, escrow, escrow_key, g.protocol_module_registry,
                g.protocol_module_registry_key, g.governance_proposal, g.governance_proposal_key,
                g.governance_proposal_action, g.governance_proposal_action_key, g.governance_decision_adapter,
                g.governance_decision_adapter_key, g.proposal_decision, g.proposal_decision_key,
                g.execution_queue_item, g.execution_queue_item_key, t.treasury_config, t.revenue_routing_stats,
                TreasuryKeys {
                    treasury_config: t.treasury_config_key,
                    treasury_usdc_state: t.treasury_usdc_state_key,
                    revenue_routing_stats: t.revenue_routing_stats_key,
                    relief_usdc_vault: t.relief_usdc_vault_key,
                    buyback_usdc_vault: t.buyback_usdc_vault_key,
                    builders_usdc_vault: t.builders_usdc_vault_key,
                    staking_usdc_vault: t.staking_usdc_vault_key,
                }, t.vault_authority_key, refundable_vault_key, refundable_vault.mint, refundable_vault.owner,
                refundable_vault.amount, TreasuryVaults {
                    relief_mint: t.relief_usdc_vault.mint,
                    relief_owner: t.relief_usdc_vault.owner,
                    buyback_mint: t.buyback_usdc_vault.mint,
                    buyback_owner: t.buyback_usdc_vault.owner,
                    builders_mint: t.builders_usdc_vault.mint,
                    builders_owner: t.builders_usdc_vault.owner,
                    staking_mint: t.staking_usdc_vault.mint,
                    staking_owner: t.staking_usdc_vault.owner,
                }, usdc_mint, usdc_decimals, now, p);
            if check is Err {
                Err(check->Err_0)
            } else {
                Ok((amount, p))
            }
        },
    }
}

/// Checks a governance forfeit of an escrow to the treasury and returns the
/// amount to route and the parameters it was decided on.
pub fn plan_green_label_forfeit_governance(
    g: &PayoutGovernance,
    green_label_config: &GreenLabelConfigV1,
    green_label_config_key: Pubkey,
    green_label_project: &GreenLabelProjectV1,
    green_label_project_key: Pubkey,
    green_label_dispute: &GreenLabelDisputeV1,
    green_label_dispute_key: Pubkey,
    escrow: &GreenLabelRefundableEscrowV1,
    escrow_key: Pubkey,
    refundable_vault_key: Pubkey,
    refundable_vault: &TokenAccount,
    t: &TreasuryAccounts,
    usdc_mint: Pubkey,
    usdc_decimals: u8,
    now: i64,
) -> (r: ProgramResult<(u64, GreenLabelForfeitParametersV1)>)
    ensures
        r == spec_plan_forfeit_governance(*g, *green_label_config, green_label_config_key, *green_label_project,
            green_label_project_key, *green_label_dispute, green_label_dispute_key, *escrow, escrow_key,
            refundable_vault_key, *refundable_vault, *t, usdc_mint, usdc_decimals, now),
{
    let forfeit_amount = derive_green_label_forfeitable_amount_v1(escrow)?;
    let parameters = build_green_label_forfeit_parameters_v1(green_label_config_key, green_label_project_key,
        green_label_dispute_key, escrow_key, refundable_vault_key, forfeit_amount, t.treasury_config_key,
        t.treasury_usdc_state_key, t.revenue_routing_stats_key, t.relief_usdc_vault_key, t.buyback_usdc_vault_key,
        t.builders_usdc_vault_key, t.staking_usdc_vault_key, escrow.usdc_mint, escrow.status, green_label_project.status,
        green_label_dispute.status, g.governance_proposal.proposal_id)?;
    validate_green_label_forfeit_execution_context_v1(&g.security_governance_config, g.security_governance_config_key,
        green_label_config, green_label_config_key, green_label_project, green_label_project_key, green_label_dispute,
        green_label_dispute_key, escrow, escrow_key, &g.protocol_module_registry, g.protocol_module_registry_key,
        &g.governance_proposal, g.governance_proposal_key, &g.governance_proposal_action,
        g.governance_proposal_action_key, &g.governance_decision_adapter, g.governance_decision_adapter_key,
        &g.proposal_decision, g.proposal_decision_key, &g.execution_queue_item, g.execution_queue_item_key,
        &t.treasury_config, t.treasury_config_key, &t.treasury_usdc_state, t.treasury_usdc_state_key,
        &t.revenue_routing_stats, t.revenue_routing_stats_key, t.vault_authority_key, refundable_vault_key,
        refundable_vault.mint, refundable_vault.owner, refundable_vault.amount, t.relief_usdc_vault_key,
        t.relief_usdc_vault.mint, t.relief_usdc_vault.owner, t.buyback_usdc_vault_key, t.buyback_usdc_vault.mint,
        t.buyback_usdc_vault.owner, t.builders_usdc_vault_key, t.builders_usdc_vault.mint, t.builders_usdc_vault.owner,
        t.staking_usdc_vault_key, t.staking_usdc_vault.mint, t.staking_usdc_vault.owner, usdc_mint, usdc_decimals, now,
        &parameters)?;
    Ok((forfeit_amount, parameters))
}

/// The result of recording a checked governance forfeit of `amount` decided
/// on `parameters`: the record checks must pass and the record must have an
/// address.
pub open spec fn spec_forfeit_governance_result(
    escrow: GreenLabelRefundableEscrowV1,
    execution_record: GreenLabelForfeitExecutionRecordV1,
    amount: u64,
    parameters: GreenLabelForfeitParametersV1,
    execution_record_key: Pubkey,
) -> ProgramResult<u64> {
    match spec_forfeit_record_checks(execution_record, escrow, amount, parameters) {
        Err(e) => Err(e),
        Ok(_) => if execution_record_key == Key32::zero() {
            Err(CustomError::GreenLabelForfeitExecutionAlreadyCompleted)
        } else {
            Ok(amount)
        },
    }
}

/// The decision part of carrying out a governance forfeit of an escrow. On
/// success the result is the escrow's whole remaining amount, which the
/// caller routes once from the escrow's vault, signed by the escrow, to the
/// treasury as forfeited-bond revenue; the escrow is Forfeited with that
/// amount added, the project is Slashed at `now` with the decision as its
/// terminal one and no active dispute, the dispute is resolved for the
/// slash, and the execution record is written once. A failed check changes
/// nothing; a failure while recording fails the instruction as a whole.
pub fn execute_green_label_forfeit_governance_v1_handler(
    g: &PayoutGovernance,
    green_label_config: &GreenLabelConfigV1,
    green_label_config_key: Pubkey,
    green_label_project: &mut GreenLabelProjectV1,
    green_label_project_key: Pubkey,
    green_label_dispute: &mut GreenLabelDisputeV1,
    green_label_dispute_key: Pubkey,
    escrow: &mut GreenLabelRefundableEscrowV1,
    escrow_key: Pubkey,
    refundable_vault_key: Pubkey,
    refundable_vault: &TokenAccount,
    t: &TreasuryAccounts,
    usdc_mint: Pubkey,
    usdc_decimals: u8,
    execution_record: &mut GreenLabelForfeitExecutionRecordV1,
    execution_record_key: Pubkey,
    executor: Pubkey,
    now: i64,
    bump: u8,
) -> (r: ProgramResult<u64>)
    ensures
        ({
            let plan = spec_plan_forfeit_governance(*g, *green_label_config, green_label_config_key,
                *old(green_label_project), green_label_project_key, *old(green_label_dispute), green_label_dispute_key,
                *old(escrow), escrow_key, refundable_vault_key, *refundable_vault, *t, usdc_mint, usdc_decimals, now);
            &&& plan is Err ==> {
                &&& r == Err::<u64, CustomError>(plan->Err_0)
                &&& *final(green_label_project) == *old(green_label_project)
                &&& *final(green_label_dispute) == *old(green_label_dispute)
                &&& *final(escrow) == *old(escrow)
                &&& *final(execution_record) == *old(execution_record)
            }
            &&& plan is Ok ==> r == spec_forfeit_governance_result(*old(escrow), *old(execution_record),
                plan->Ok_0.0, plan->Ok_0.1, execution_record_key)
            &&& r is Ok ==> {
                let amount = plan->Ok_0.0;
                let parameters = plan->Ok_0.1;
                &&& r->Ok_0 == amount
                &&& spec_escrow_payable(*old(escrow), CustomError::GreenLabelForfeitNotEligible,
                    CustomError::GreenLabelForfeitAmountMismatch) == Ok::<u64, CustomError>(amount)
                &&& *final(escrow) == (GreenLabelRefundableEscrowV1 {
                    forfeited_amount: (old(escrow).forfeited_amount + amount) as u64,
                    status: GreenLabelEscrowStatusV1::Forfeited,
                    ..*old(escrow)
                })
                &&& *final(green_label_project) == spec_closed_project(*old(green_label_project),
                    GreenLabelStatus::Slashed, now, parameters.proposal_id, g.proposal_decision_key,
                    g.execution_queue_item_key, g.governance_proposal_action.canonical_payload_hash,
                    ActionType::GreenLabelSlash)
                &&& *final(green_label_dispute) == spec_resolved_dispute(*old(green_label_dispute),
                    DisputeStatus::ResolvedSlash, now, parameters.proposal_id, g.proposal_decision_key,
                    g.execution_queue_item_key, g.governance_proposal_action.canonical_payload_hash,
                    ActionType::GreenLabelSlash)
                &&& *final(execution_record) == spec_forfeit_record(PayoutAccounts {
                    execution_queue_item: g.execution_queue_item_key,
                    proposal_decision: g.proposal_decision_key,
                    governance_proposal: g.governance_proposal_key,
                    governance_proposal_action: g.governance_proposal_action_key,
                    module_registry: g.protocol_module_registry_key,
                    green_label_config: green_label_config_key,
                    green_label_project: green_label_project_key,
                    green_label_dispute: green_label_dispute_key,
                    refundable_escrow: escrow_key,
                    refundable_vault: refundable_vault_key,
                }, TreasuryKeys {
                    treasury_config: t.treasury_config_key,
                    treasury_usdc_state: t.treasury_usdc_state_key,
                    revenue_routing_stats: t.revenue_routing_stats_key,
                    relief_usdc_vault: t.relief_usdc_vault_key,
                    buyback_usdc_vault: t.buyback_usdc_vault_key,
                    builders_usdc_vault: t.builders_usdc_vault_key,
                    staking_usdc_vault: t.staking_usdc_vault_key,
                }, amount, old(escrow).usdc_mint, spec_forfeit_parameters_hash(parameters)->Ok_0,
                    g.governance_proposal_action.canonical_payload_hash, old(escrow).status,
                    old(green_label_project).status, old(green_label_dispute).status, executor, now, bump)
            }
        }),
{
    let (forfeit_amount, parameters) = plan_green_label_forfeit_governance(g, green_label_config,
        green_label_config_key, green_label_project, green_label_project_key, green_label_dispute,
        green_label_dispute_key, escrow, escrow_key, refundable_vault_key, refundable_vault, t, usdc_mint,
        usdc_decimals, now)?;
    let escrow_status_before = escrow.status;
    let project_status_before = green_label_project.status;
    let dispute_status_before = green_label_dispute.status;
    let escrow_usdc_mint = escrow.usdc_mint;
    record_green_label_forfeit_governance_v1(green_label_project, green_label_dispute, escrow, execution_record,
        g.execution_queue_item_key, g.proposal_decision_key, g.governance_proposal_key,
        g.governance_proposal_action_key, g.protocol_module_registry_key, green_label_config_key,
        green_label_project_key, green_label_dispute_key, escrow_key, refundable_vault_key, t.treasury_config_key,
        t.treasury_usdc_state_key, t.revenue_routing_stats_key, t.relief_usdc_vault_key, t.buyback_usdc_vault_key,
        t.builders_usdc_vault_key, t.staking_usdc_vault_key, forfeit_amount, escrow_usdc_mint, parameters,
        g.governance_proposal_action.canonical_payload_hash, escrow_status_before, project_status_before,
        dispute_status_before, executor, now, bump, execution_record_key)?;
    Ok(forfeit_amount)
}

} // verus!
