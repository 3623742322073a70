//! The Green Label instructions as state changes: each takes the accounts
//! an instruction reads and writes (the program's clock time among its
//! inputs) and decides, verified, what the instruction does. Those that move
//! tokens are split at the transfer: a check that returns what to transfer,
//! and a record for after it.
use vstd::prelude::*;
use crate::constants::GREEN_LABEL_USDC_DECIMALS;
use crate::error::{CustomError, ProgramResult};
use crate::green_label_bond::{
    calculate_green_label_refund, spec_refund, GreenLabelRefundAmounts,
};
use crate::green_label_dispute::{
    build_dispute_windows, record_dispute_ready_for_decision, record_green_label_dispute_opened,
    record_green_label_security_decision_link, spec_decision_link, spec_linked_dispute, spec_linked_project,
    spec_mark_ready, spec_open_dispute, validate_green_label_security_decision_link, validate_mark_dispute_ready,
    validate_open_green_label_dispute,
};
use crate::green_label_project::{
    record_green_bond_vault_initialization, spec_bond_vault_init, validate_green_bond_vault_initialization,
    build_default_green_label_config_values, build_observation_window, build_pending_bond_project_values,
    record_green_label_bond_locked, record_green_label_min_base_bond_update, record_green_label_window_update,
    spec_bond_lock, spec_default_config, spec_min_base_bond_update, spec_pending_project, spec_window_update,
    spec_zero_reserved, validate_green_label_bond_lock, validate_green_label_min_base_bond_update,
    validate_green_label_window_update, GreenLabelConfigInitValues, GreenLabelProjectInitValues,
};
use crate::green_label_bond::spec_split_and_tier;
use crate::green_label_execution::{record_green_label_refunded, spec_refund_execution, validate_green_label_refund_execution};
use crate::keys::{Hash32, Key32, Pubkey};
use crate::pda::{program_id, spec_program_id};
use crate::state::{
    ActionType, DisputeStatus, ExecutionQueueItemV1, GreenLabelConfigV1, GreenLabelDisputeV1, GreenLabelProjectV1,
    GreenLabelStatus, ProposalDecisionV1, RugReasonCode, TokenAccount,
};

verus! {

/// The configuration account written from its initial values.
pub open spec fn spec_config_from_values(v: GreenLabelConfigInitValues) -> GreenLabelConfigV1 {
    GreenLabelConfigV1 {
        authority: v.authority,
        usdc_mint: v.usdc_mint,
        min_base_bond_usdc: v.min_base_bond_usdc,
        base_refund_bps: v.base_refund_bps,
        base_treasury_bps: v.base_treasury_bps,
        observation_period_seconds: v.observation_period_seconds,
        dispute_window_seconds: v.dispute_window_seconds,
        response_window_seconds: v.response_window_seconds,
        project_count: v.project_count,
        treasury_usdc_state_v2: v.treasury_usdc_state_v2,
        base_bond_treasury_vault: v.base_bond_treasury_vault,
        relief_or_risk_vault: v.relief_or_risk_vault,
        vault_authority_v2: v.vault_authority_v2,
        security_governance_config: v.security_governance_config,
        is_paused: v.is_paused,
        bump: v.bump,
        reserved: v.reserved,
    }
}

/// Initializes the Green Label configuration with the default values.
pub fn initialize_green_label_config(
    green_label_config: &mut GreenLabelConfigV1,
    authority: Pubkey,
    usdc_mint: Pubkey,
    treasury_usdc_state_v2: Pubkey,
    base_bond_treasury_vault: Pubkey,
    relief_or_risk_vault: Pubkey,
    vault_authority_v2: Pubkey,
    security_governance_config: Pubkey,
    bump: u8,
) -> (r: ProgramResult<()>)
    ensures
        r == Ok::<(), CustomError>(()),
        exists|v: GreenLabelConfigInitValues| spec_default_config(authority, usdc_mint, treasury_usdc_state_v2,
            base_bond_treasury_vault, relief_or_risk_vault, vault_authority_v2, security_governance_config, bump, v)
            && *final(green_label_config) == spec_config_from_values(v),
{
    let values = build_default_green_label_config_values(authority, usdc_mint, treasury_usdc_state_v2,
        base_bond_treasury_vault, relief_or_risk_vault, vault_authority_v2, security_governance_config, bump)?;
    green_label_config.authority = values.authority;
    green_label_config.usdc_mint = values.usdc_mint;
    green_label_config.min_base_bond_usdc = values.min_base_bond_usdc;
    green_label_config.base_refund_bps = values.base_refund_bps;
    green_label_config.base_treasury_bps = values.base_treasury_bps;
    green_label_config.observation_period_seconds = values.observation_period_seconds;
    green_label_config.dispute_window_seconds = values.dispute_window_seconds;
    green_label_config.response_window_seconds = values.response_window_seconds;
    green_label_config.project_count = values.project_count;
    green_label_config.treasury_usdc_state_v2 = values.treasury_usdc_state_v2;
    green_label_config.base_bond_treasury_vault = values.base_bond_treasury_vault;
    green_label_config.relief_or_risk_vault = values.relief_or_risk_vault;
    green_label_config.vault_authority_v2 = values.vault_authority_v2;
    green_label_config.security_governance_config = values.security_governance_config;
    green_label_config.is_paused = values.is_paused;
    green_label_config.bump = values.bump;
    green_label_config.reserved = values.reserved;
    assert(*green_label_config == spec_config_from_values(values));
    Ok(())
}

/// Updates the three windows after the authority's request is checked; a
/// refused request changes nothing.
pub fn update_green_label_windows(
    green_label_config: &mut GreenLabelConfigV1,
    signer: Pubkey,
    observation_period_seconds: i64,
    dispute_window_seconds: i64,
    response_window_seconds: i64,
) -> (r: ProgramResult<()>)
    ensures
        r == spec_window_update(old(green_label_config).is_paused, old(green_label_config).authority, signer,
            observation_period_seconds, dispute_window_seconds, response_window_seconds),
        r is Err ==> *final(green_label_config) == *old(green_label_config),
        r is Ok ==> *final(green_label_config) == (GreenLabelConfigV1 {
            observation_period_seconds,
            dispute_window_seconds,
            response_window_seconds,
            ..*old(green_label_config)
        }),
{
    validate_green_label_window_update(green_label_config.is_paused, green_label_config.authority, signer,
        observation_period_seconds, dispute_window_seconds, response_window_seconds)?;
    record_green_label_window_update(green_label_config, observation_period_seconds, dispute_window_seconds,
        response_window_seconds);
    Ok(())
}

/// Updates the minimum base bond after the authority's request is checked;
/// a refused request changes nothing.
pub fn update_green_label_min_base_bond(green_label_config: &mut GreenLabelConfigV1, signer: Pubkey, min_base_bond_usdc: u64) -> (r: ProgramResult<()>)
    ensures
        r == spec_min_base_bond_update(old(green_label_config).is_paused, old(green_label_config).authority, signer,
            min_base_bond_usdc),
        r is Err ==> *final(green_label_config) == *old(green_label_config),
        r is Ok ==> *final(green_label_config) == (GreenLabelConfigV1 { min_base_bond_usdc, ..*old(green_label_config) }),
{
    validate_green_label_min_base_bond_update(green_label_config.is_paused, green_label_config.authority, signer,
        min_base_bond_usdc)?;
    record_green_label_min_base_bond_update(green_label_config, min_base_bond_usdc);
    Ok(())
}

/// The project account written from its initial values.
pub open spec fn spec_project_from_values(v: GreenLabelProjectInitValues) -> GreenLabelProjectV1 {
    GreenLabelProjectV1 {
        project_id: v.project_id,
        project_owner: v.project_owner,
        project_name_hash: v.project_name_hash,
        project_url_hash: v.project_url_hash,
        token_mint: v.token_mint,
        project_treasury_wallet: v.project_treasury_wallet,
        base_bond_amount: v.base_bond_amount,
        extra_bond_amount: v.extra_bond_amount,
        total_bond_amount: v.total_bond_amount,
        bond_vault: v.bond_vault,
        bond_vault_authority: v.bond_vault_authority,
        bond_tier: v.bond_tier,
        status: v.status,
        submitted_at: v.submitted_at,
        observation_start_ts: v.observation_start_ts,
        observation_end_ts: v.observation_end_ts,
        dispute_count: v.dispute_count,
        active_dispute: v.active_dispute,
        approved_at: v.approved_at,
        refunded_at: v.refunded_at,
        slashed_at: v.slashed_at,
        risk_score_snapshot: v.risk_score_snapshot,
        terminal_proposal_id: v.terminal_proposal_id,
        terminal_proposal_decision: v.terminal_proposal_decision,
        terminal_execution_queue_item: v.terminal_execution_queue_item,
        terminal_payload_hash: v.terminal_payload_hash,
        terminal_action_type: v.terminal_action_type,
        bump: v.bump,
        reserved: v.reserved,
    }
}

/// Submits a project: it is written awaiting its bond deposit under the next
/// project id, which the configuration then counts. A refused submission
/// (paused, wrong id, bond below the minimum) changes nothing.
pub fn submit_green_label_application(
    green_label_config: &mut GreenLabelConfigV1,
    green_label_project: &mut GreenLabelProjectV1,
    project_owner: Pubkey,
    token_mint: Pubkey,
    expected_project_id: u64,
    project_name_hash: Hash32,
    project_url_hash: Hash32,
    project_treasury_wallet: Pubkey,
    total_bond_amount: u64,
    now: i64,
    bump: u8,
) -> (r: ProgramResult<()>)
    ensures
        ({
            let c = *old(green_label_config);
            let ok = !c.is_paused && c.project_count < u64::MAX && expected_project_id == c.project_count + 1
                && spec_split_and_tier(total_bond_amount, c.min_base_bond_usdc) is Ok;
            &&& c.is_paused ==> r == Err::<(), CustomError>(CustomError::InvalidGreenLabelStatus)
            &&& !c.is_paused && c.project_count == u64::MAX ==> r == Err::<(), CustomError>(CustomError::GreenLabelMathOverflow)
            &&& !c.is_paused && c.project_count < u64::MAX && expected_project_id != c.project_count + 1
                ==> r == Err::<(), CustomError>(CustomError::InvalidGreenLabelProjectId)
            &&& !c.is_paused && c.project_count < u64::MAX && expected_project_id == c.project_count + 1
                && spec_split_and_tier(total_bond_amount, c.min_base_bond_usdc) is Err
                ==> r == Err::<(), CustomError>(spec_split_and_tier(total_bond_amount, c.min_base_bond_usdc)->Err_0)
            &&& !ok ==> *final(green_label_config) == c && *final(green_label_project) == *old(green_label_project)
            &&& ok ==> {
                let (split, tier) = spec_split_and_tier(total_bond_amount, c.min_base_bond_usdc)->Ok_0;
                &&& r == Ok::<(), CustomError>(())
                &&& *final(green_label_config) == (GreenLabelConfigV1 { project_count: expected_project_id, ..c })
                &&& exists|v: GreenLabelProjectInitValues| spec_pending_project(expected_project_id, project_owner,
                    project_name_hash, project_url_hash, token_mint, project_treasury_wallet, split.base_bond_amount,
                    split.extra_bond_amount, split.total_bond_amount, tier, now, bump, v)
                    && *final(green_label_project) == spec_project_from_values(v)
            }
        }),
{
    let values = build_pending_bond_project_values(green_label_config.is_paused, green_label_config.min_base_bond_usdc,
        green_label_config.project_count, expected_project_id, project_owner, project_name_hash, project_url_hash,
        token_mint, project_treasury_wallet, total_bond_amount, now, bump)?;
    green_label_project.project_id = values.project_id;
    green_label_project.project_owner = values.project_owner;
    green_label_project.project_name_hash = values.project_name_hash;
    green_label_project.project_url_hash = values.project_url_hash;
    green_label_project.token_mint = values.token_mint;
    green_label_project.project_treasury_wallet = values.project_treasury_wallet;
    green_label_project.base_bond_amount = values.base_bond_amount;
    green_label_project.extra_bond_amount = values.extra_bond_amount;
    green_label_project.total_bond_amount = values.total_bond_amount;
    green_label_project.bond_vault = values.bond_vault;
    green_label_project.bond_vault_authority = values.bond_vault_authority;
    green_label_project.bond_tier = values.bond_tier;
    green_label_project.status = values.status;
    green_label_project.submitted_at = values.submitted_at;
    green_label_project.observation_start_ts = values.observation_start_ts;
    green_label_project.observation_end_ts = values.observation_end_ts;
    green_label_project.dispute_count = values.dispute_count;
    green_label_project.active_dispute = values.active_dispute;
    green_label_project.approved_at = values.approved_at;
    green_label_project.refunded_at = values.refunded_at;
    green_label_project.slashed_at = values.slashed_at;
    green_label_project.risk_score_snapshot = values.risk_score_snapshot;
    green_label_project.terminal_proposal_id = values.terminal_proposal_id;
    green_label_project.terminal_proposal_decision = values.terminal_proposal_decision;
    green_label_project.terminal_execution_queue_item = values.terminal_execution_queue_item;
    green_label_project.terminal_payload_hash = values.terminal_payload_hash;
    green_label_project.terminal_action_type = values.terminal_action_type;
    green_label_project.bump = values.bump;
    green_label_project.reserved = values.reserved;
    green_label_config.project_count = values.project_id;
    assert(*green_label_project == spec_project_from_values(values));
    Ok(())
}

/// Creates the project's bond vault record once its request is checked: the
/// vault and its authority are recorded, nothing else; a refused request
/// changes nothing.
pub fn initialize_green_bond_vault(
    green_label_config: &GreenLabelConfigV1,
    green_label_project: &mut GreenLabelProjectV1,
    signer: Pubkey,
    provided_usdc_mint: Pubkey,
    green_bond_vault: Pubkey,
    green_bond_vault_authority: Pubkey,
) -> (r: ProgramResult<()>)
    ensures
        r == spec_bond_vault_init(green_label_config.is_paused, old(green_label_project).project_owner, signer,
            old(green_label_project).status, old(green_label_project).bond_vault,
            old(green_label_project).bond_vault_authority, green_label_config.usdc_mint, provided_usdc_mint),
        r is Err ==> *final(green_label_project) == *old(green_label_project),
        r is Ok ==> *final(green_label_project) == (GreenLabelProjectV1 {
            bond_vault: green_bond_vault,
            bond_vault_authority: green_bond_vault_authority,
            ..*old(green_label_project)
        }),
{
    validate_green_bond_vault_initialization(green_label_config.is_paused, green_label_project.project_owner, signer,
        green_label_project.status, green_label_project.bond_vault, green_label_project.bond_vault_authority,
        green_label_config.usdc_mint, provided_usdc_mint)?;
    record_green_bond_vault_initialization(green_label_project, green_bond_vault, green_bond_vault_authority);
    Ok(())
}

/// Checks a bond lock and returns the amount the owner must transfer into
/// the vault: the project's whole bond, in USDC with 6 decimals.
pub fn plan_green_label_bond_lock(
    green_label_config: &GreenLabelConfigV1,
    green_label_project: &GreenLabelProjectV1,
    signer: Pubkey,
    green_bond_vault_key: Pubkey,
    green_bond_vault: &TokenAccount,
    project_owner_usdc_ata: &TokenAccount,
    usdc_mint: Pubkey,
    usdc_decimals: u8,
) -> (r: ProgramResult<u64>)
    ensures
        ({
            let lock = spec_bond_lock(green_label_config.is_paused, green_label_project.project_owner, signer,
                green_label_project.status, green_label_project.bond_vault, green_label_project.bond_vault_authority,
                green_bond_vault_key, green_bond_vault.mint, green_bond_vault.owner, green_label_config.usdc_mint,
                project_owner_usdc_ata.owner, project_owner_usdc_ata.mint, usdc_mint, green_label_project.base_bond_amount,
                green_label_project.extra_bond_amount, green_label_project.total_bond_amount);
            r == (if lock is Err {
                Err::<u64, CustomError>(lock->Err_0)
            } else if usdc_decimals != GREEN_LABEL_USDC_DECIMALS {
                Err::<u64, CustomError>(CustomError::InvalidGreenLabelMint)
            } else {
                Ok::<u64, CustomError>(green_label_project.total_bond_amount)
            })
        }),
{
    validate_green_label_bond_lock(green_label_config.is_paused, green_label_project.project_owner, signer,
        green_label_project.status, green_label_project.bond_vault, green_label_project.bond_vault_authority,
        green_bond_vault_key, green_bond_vault.mint, green_bond_vault.owner, green_label_config.usdc_mint,
        project_owner_usdc_ata.owner, project_owner_usdc_ata.mint, usdc_mint, green_label_project.base_bond_amount,
        green_label_project.extra_bond_amount, green_label_project.total_bond_amount)?;
    if usdc_decimals != GREEN_LABEL_USDC_DECIMALS {
        return Err(CustomError::InvalidGreenLabelMint);
    }
    Ok(green_label_project.total_bond_amount)
}

/// After the bond is transferred, the project enters observation from `now`
/// for the configured period; an overflowing end time fails and changes
/// nothing.
pub fn finish_green_label_bond_lock(
    green_label_config: &GreenLabelConfigV1,
    green_label_project: &mut GreenLabelProjectV1,
    now: i64,
) -> (r: ProgramResult<()>)
    ensures
        !(i64::MIN <= now + green_label_config.observation_period_seconds <= i64::MAX) ==> {
            &&& r == Err::<(), CustomError>(CustomError::GreenLabelMathOverflow)
            &&& *final(green_label_project) == *old(green_label_project)
        },
        (i64::MIN <= now + green_label_config.observation_period_seconds <= i64::MAX) ==> {
            &&& r == Ok::<(), CustomError>(())
            &&& *final(green_label_project) == (GreenLabelProjectV1 {
                status: GreenLabelStatus::PendingObservation,
                observation_start_ts: now,
                observation_end_ts: (now + green_label_config.observation_period_seconds) as i64,
                ..*old(green_label_project)
            })
        },
{
    let (_, observation_end_ts) = build_observation_window(now, green_label_config.observation_period_seconds)?;
    record_green_label_bond_locked(green_label_project, now, observation_end_ts)
}

/// The dispute a newly opened dispute is written as.
pub open spec fn spec_opened_dispute(
    dispute: GreenLabelDisputeV1,
    project: GreenLabelProjectV1,
    project_key: Pubkey,
    disputer: Pubkey,
    dispute_id: u64,
    reason_code: RugReasonCode,
    evidence_hash: Hash32,
    now: i64,
    evidence_end_ts: i64,
    response_end_ts: i64,
    bump: u8,
) -> bool {
    &&& dispute.project_id == project.project_id
    &&& dispute.dispute_id == dispute_id
    &&& dispute.project == project_key
    &&& dispute.disputer == disputer
    &&& dispute.reason_code == reason_code
    &&& dispute.evidence_hash == evidence_hash
    &&& dispute.status == DisputeStatus::EvidencePeriod
    &&& dispute.opened_at == now
    &&& dispute.evidence_end_ts == evidence_end_ts
    &&& dispute.response_end_ts == response_end_ts
    &&& dispute.resolved_at == 0
    &&& dispute.proposal_id == 0
    &&& dispute.proposal_decision == Key32::zero()
    &&& dispute.execution_queue_item == Key32::zero()
    &&& dispute.payload_hash == Key32::zero()
    &&& dispute.action_type == ActionType::Noop
    &&& dispute.bump == bump
    &&& dispute.reserved@ == spec_zero_reserved(128)
}

/// Opens a dispute against a project: the dispute starts its evidence
/// period now, with the evidence and response windows of the configuration,
/// and the project becomes Disputed with this dispute active. A refused
/// request, or windows that overflow, change nothing.
pub fn open_green_label_dispute(
    green_label_config: &GreenLabelConfigV1,
    green_label_project: &mut GreenLabelProjectV1,
    green_label_project_key: Pubkey,
    green_label_dispute: &mut GreenLabelDisputeV1,
    green_label_dispute_key: Pubkey,
    disputer: Pubkey,
    expected_dispute_id: u64,
    reason_code: RugReasonCode,
    evidence_hash: Hash32,
    now: i64,
    bump: u8,
) -> (r: ProgramResult<()>)
    ensures
        ({
            let p = *old(green_label_project);
            let c = *green_label_config;
            let check = spec_open_dispute(c.is_paused, p.status, p.active_dispute, p.dispute_count, expected_dispute_id,
                evidence_hash);
            let evidence_ok = i64::MIN <= now + c.dispute_window_seconds <= i64::MAX;
            let response_ok = i64::MIN <= now + c.dispute_window_seconds + c.response_window_seconds <= i64::MAX;
            &&& check is Err ==> r == check && *final(green_label_project) == p
                && *final(green_label_dispute) == *old(green_label_dispute)
            &&& check is Ok && !(evidence_ok && response_ok) ==> r == Err::<(), CustomError>(CustomError::GreenLabelMathOverflow)
                && *final(green_label_project) == p && *final(green_label_dispute) == *old(green_label_dispute)
            &&& check is Ok && evidence_ok && response_ok ==> {
                &&& r == Ok::<(), CustomError>(())
                &&& spec_opened_dispute(*final(green_label_dispute), p, green_label_project_key, disputer,
                    expected_dispute_id, reason_code, evidence_hash, now, (now + c.dispute_window_seconds) as i64,
                    (now + c.dispute_window_seconds + c.response_window_seconds) as i64, bump)
                &&& *final(green_label_project) == (GreenLabelProjectV1 {
                    status: GreenLabelStatus::Disputed,
                    active_dispute: green_label_dispute_key,
                    dispute_count: expected_dispute_id,
                    ..p
                })
            }
        }),
{
    validate_open_green_label_dispute(green_label_config.is_paused, green_label_project.status,
        green_label_project.active_dispute, green_label_project.dispute_count, expected_dispute_id, evidence_hash)?;
    let (evidence_end_ts, response_end_ts) = build_dispute_windows(now, green_label_config.dispute_window_seconds,
        green_label_config.response_window_seconds)?;
    green_label_dispute.project_id = green_label_project.project_id;
    green_label_dispute.dispute_id = expected_dispute_id;
    green_label_dispute.project = green_label_project_key;
    green_label_dispute.disputer = disputer;
    green_label_dispute.reason_code = reason_code;
    green_label_dispute.evidence_hash = evidence_hash;
    green_label_dispute.status = DisputeStatus::EvidencePeriod;
    green_label_dispute.opened_at = now;
    green_label_dispute.evidence_end_ts = evidence_end_ts;
    green_label_dispute.response_end_ts = response_end_ts;
    green_label_dispute.resolved_at = 0;
    green_label_dispute.proposal_id = 0;
    green_label_dispute.proposal_decision = Key32::default();
    green_label_dispute.execution_queue_item = Key32::default();
    green_label_dispute.payload_hash = Key32::default();
    green_label_dispute.action_type = ActionType::Noop;
    green_label_dispute.bump = bump;
    green_label_dispute.reserved = [0u8; 128];
    assert(green_label_dispute.reserved@ =~= spec_zero_reserved(128));
    record_green_label_dispute_opened(green_label_project, green_label_dispute_key, expected_dispute_id)
}

/// Marks a dispute ready for a decision once its windows have closed; a
/// refused request changes nothing.
pub fn mark_dispute_ready_for_decision(
    green_label_config: &GreenLabelConfigV1,
    green_label_project: &GreenLabelProjectV1,
    green_label_project_key: Pubkey,
    green_label_dispute: &mut GreenLabelDisputeV1,
    green_label_dispute_key: Pubkey,
    now: i64,
) -> (r: ProgramResult<()>)
    ensures
        r == spec_mark_ready(green_label_config.is_paused, green_label_project.status, green_label_project.active_dispute,
            green_label_dispute_key, old(green_label_dispute).project, green_label_project_key,
            old(green_label_dispute).status, now, old(green_label_dispute).response_end_ts),
        r is Err ==> *final(green_label_dispute) == *old(green_label_dispute),
        r is Ok ==> *final(green_label_dispute) == (GreenLabelDisputeV1 {
            status: DisputeStatus::ReadyForDecision,
            ..*old(green_label_dispute)
        }),
{
    validate_mark_dispute_ready(green_label_config.is_paused, green_label_project.status,
        green_label_project.active_dispute, green_label_dispute_key, green_label_dispute.project, green_label_project_key,
        green_label_dispute.status, now, green_label_dispute.response_end_ts)?;
    record_dispute_ready_for_decision(green_label_dispute)
}

/// Links a dispute ready for a decision to the approved Security Layer
/// decision and its queued item; a refused link changes nothing.
pub fn link_green_label_security_decision(
    green_label_config: &GreenLabelConfigV1,
    green_label_project: &mut GreenLabelProjectV1,
    green_label_project_key: Pubkey,
    green_label_dispute: &mut GreenLabelDisputeV1,
    green_label_dispute_key: Pubkey,
    proposal_decision: &ProposalDecisionV1,
    proposal_decision_key: Pubkey,
    execution_queue_item: &ExecutionQueueItemV1,
    execution_queue_item_key: Pubkey,
    expected_proposal_id: u64,
    expected_action_type: ActionType,
    expected_payload_hash: Hash32,
) -> (r: ProgramResult<()>)
    ensures
        ({
            let p = *old(green_label_project);
            let d = *old(green_label_dispute);
            let check = spec_decision_link(green_label_config.is_paused, p.status, p.active_dispute,
                green_label_dispute_key, d.project, green_label_project_key, d.status, expected_proposal_id,
                expected_action_type, expected_payload_hash, proposal_decision.proposal_id,
                proposal_decision.proposal_type, proposal_decision.decision, execution_queue_item.proposal_id,
                execution_queue_item.action_type, execution_queue_item.status, execution_queue_item.payload_hash,
                execution_queue_item.target_program, spec_program_id(), execution_queue_item.target_account,
                green_label_dispute_key);
            &&& r == check
            &&& check is Err ==> *final(green_label_project) == p && *final(green_label_dispute) == d
            &&& check is Ok ==> *final(green_label_project) == spec_linked_project(p, expected_proposal_id,
                proposal_decision_key, execution_queue_item_key, expected_payload_hash, expected_action_type)
                && *final(green_label_dispute) == spec_linked_dispute(d, expected_proposal_id, proposal_decision_key,
                execution_queue_item_key, expected_payload_hash, expected_action_type)
        }),
{
    let id = program_id();
    validate_green_label_security_decision_link(green_label_config.is_paused, green_label_project.status,
        green_label_project.active_dispute, green_label_dispute_key, green_label_dispute.project, green_label_project_key,
        green_label_dispute.status, expected_proposal_id, expected_action_type, expected_payload_hash,
        proposal_decision.proposal_id, proposal_decision.proposal_type, proposal_decision.decision,
        execution_queue_item.proposal_id, execution_queue_item.action_type, execution_queue_item.status,
        execution_queue_item.payload_hash, execution_queue_item.target_program, id, execution_queue_item.target_account,
        green_label_dispute_key)?;
    record_green_label_security_decision_link(green_label_project, green_label_dispute, expected_proposal_id,
        proposal_decision_key, execution_queue_item_key, expected_payload_hash, expected_action_type)
}

/// The outcome of checking a refund of a disputed project's bond: the two
/// transfers' amounts, or the first error the checks meet.
pub open spec fn spec_plan_green_label_refund(
    green_label_config: GreenLabelConfigV1,
    p: GreenLabelProjectV1,
    green_label_project_key: Pubkey,
    d: GreenLabelDisputeV1,
    green_label_dispute_key: Pubkey,
    proposal_decision: ProposalDecisionV1,
    proposal_decision_key: Pubkey,
    execution_queue_item: ExecutionQueueItemV1,
    execution_queue_item_key: Pubkey,
    green_bond_vault_key: Pubkey,
    green_bond_vault: TokenAccount,
    green_bond_vault_authority_key: Pubkey,
    project_owner_usdc_ata: TokenAccount,
    base_bond_treasury_vault_key: Pubkey,
    base_bond_treasury_vault: TokenAccount,
    usdc_mint: Pubkey,
    usdc_decimals: u8,
    now: i64,
) -> ProgramResult<GreenLabelRefundAmounts> {
    match spec_refund(p.base_bond_amount, p.extra_bond_amount) {
        Err(e) => Err(e),
        Ok(a) => {
            let check = spec_refund_execution(green_label_config.is_paused, p.status, p.active_dispute,
                green_label_dispute_key, p.bond_vault, p.bond_vault_authority, p.project_owner,
                p.terminal_proposal_id, p.terminal_proposal_decision, p.terminal_execution_queue_item,
                p.terminal_payload_hash, p.terminal_action_type, d.project, green_label_project_key, d.status,
                d.proposal_id, d.proposal_decision, d.execution_queue_item, d.payload_hash, d.action_type,
                proposal_decision_key, proposal_decision.proposal_id, proposal_decision.decision,
                execution_queue_item_key, execution_queue_item.proposal_id, execution_queue_item.status,
                execution_queue_item.action_type, execution_queue_item.payload_hash,
                execution_queue_item.target_program, spec_program_id(), execution_queue_item.target_account,
                green_label_dispute_key, now, execution_queue_item.execute_after, green_bond_vault_key,
                green_bond_vault.mint, green_bond_vault.owner, green_bond_vault_authority_key,
                project_owner_usdc_ata.owner, project_owner_usdc_ata.mint, base_bond_treasury_vault_key,
                base_bond_treasury_vault.mint, green_label_config.base_bond_treasury_vault,
                green_label_config.usdc_mint, usdc_mint, usdc_decimals, green_bond_vault.amount,
                a.project_refund_amount, a.treasury_amount);
            if check is Err {
                Err(check->Err_0)
            } else {
                Ok(a)
            }
        },
    }
}

/// Checks a refund of a disputed project's bond under its linked Security
/// Layer decision and returns the two transfers to make from the bond vault:
/// the project's refund to the owner and the treasury's share.
pub fn plan_green_label_refund(
    green_label_config: &GreenLabelConfigV1,
    green_label_project: &GreenLabelProjectV1,
    green_label_project_key: Pubkey,
    green_label_dispute: &GreenLabelDisputeV1,
    green_label_dispute_key: Pubkey,
    proposal_decision: &ProposalDecisionV1,
    proposal_decision_key: Pubkey,
    execution_queue_item: &ExecutionQueueItemV1,
    execution_queue_item_key: Pubkey,
    green_bond_vault_key: Pubkey,
    green_bond_vault: &TokenAccount,
    green_bond_vault_authority_key: Pubkey,
    project_owner_usdc_ata: &TokenAccount,
    base_bond_treasury_vault_key: Pubkey,
    base_bond_treasury_vault: &TokenAccount,
    usdc_mint: Pubkey,
    usdc_decimals: u8,
    now: i64,
) -> (r: ProgramResult<GreenLabelRefundAmounts>)
    ensures
        r == spec_plan_green_label_refund(*green_label_config, *green_label_project, green_label_project_key,
            *green_label_dispute, green_label_dispute_key, *proposal_decision, proposal_decision_key,
            *execution_queue_item, execution_queue_item_key, green_bond_vault_key, *green_bond_vault,
            green_bond_vault_authority_key, *project_owner_usdc_ata, base_bond_treasury_vault_key,
            *base_bond_treasury_vault, usdc_mint, usdc_decimals, now),
{
    let amounts = calculate_green_label_refund(green_label_project.base_bond_amount, green_label_project.extra_bond_amount)?;
    let id = program_id();
    validate_green_label_refund_execution(green_label_config.is_paused, green_label_project.status,
        green_label_project.active_dispute, green_label_dispute_key, green_label_project.bond_vault,
        green_label_project.bond_vault_authority, green_label_project.project_owner,
        green_label_project.terminal_proposal_id, green_label_project.terminal_proposal_decision,
        green_label_project.terminal_execution_queue_item, green_label_project.terminal_payload_hash,
        green_label_project.terminal_action_type, green_label_dispute.project, green_label_project_key,
        green_label_dispute.status, green_label_dispute.proposal_id, green_label_dispute.proposal_decision,
        green_label_dispute.execution_queue_item, green_label_dispute.payload_hash, green_label_dispute.action_type,
        proposal_decision_key, proposal_decision.proposal_id, proposal_decision.decision, execution_queue_item_key,
        execution_queue_item.proposal_id, execution_queue_item.status, execution_queue_item.action_type,
        execution_queue_item.payload_hash, execution_queue_item.target_program, id, execution_queue_item.target_account,
        green_label_dispute_key, now, execution_queue_item.execute_after, green_bond_vault_key, green_bond_vault.mint,
        green_bond_vault.owner, green_bond_vault_authority_key, project_owner_usdc_ata.owner,
        project_owner_usdc_ata.mint, base_bond_treasury_vault_key, base_bond_treasury_vault.mint,
        green_label_config.base_bond_treasury_vault, green_label_config.usdc_mint, usdc_mint, usdc_decimals,
        green_bond_vault.amount, amounts.project_refund_amount, amounts.treasury_amount)?;
    Ok(amounts)
}

/// Proof that a planned refund pays out exactly the bond: the owner's refund
/// and the treasury's share add up to the project's base plus extra bond,
/// and the vault holds at least that much.
pub proof fn law_planned_refund_pays_out_the_bond(
    base: u64,
    extra: u64,
    a: GreenLabelRefundAmounts,
    vault_balance: u64,
)
    requires
        spec_refund(base, extra) == Ok::<GreenLabelRefundAmounts, CustomError>(a),
        vault_balance >= a.project_refund_amount + a.treasury_amount,
    ensures
        a.project_refund_amount + a.treasury_amount == base + extra,
        vault_balance >= base + extra,
{
    crate::green_label_bond::law_refund_conserves_bond(base, extra);
}

/// Carries out a refund of a disputed project's bond under its linked
/// Security Layer decision. On success the project is Refunded at `now` with
/// no active dispute, the dispute is resolved for the refund, and the result
/// gives the two transfers the caller makes from the bond vault, in this
/// order: `project_refund_amount` to the owner's USDC account, then
/// `treasury_amount` to the base-bond treasury vault. Together they are
/// exactly the project's base plus extra bond, which the vault holds. On an
/// error nothing changes and nothing is to be transferred.
pub fn execute_green_label_refund_handler(
    green_label_config: &GreenLabelConfigV1,
    green_label_project: &mut GreenLabelProjectV1,
    green_label_project_key: Pubkey,
    green_label_dispute: &mut GreenLabelDisputeV1,
    green_label_dispute_key: Pubkey,
    proposal_decision: &ProposalDecisionV1,
    proposal_decision_key: Pubkey,
    execution_queue_item: &ExecutionQueueItemV1,
    execution_queue_item_key: Pubkey,
    green_bond_vault_key: Pubkey,
    green_bond_vault: &TokenAccount,
    green_bond_vault_authority_key: Pubkey,
    project_owner_usdc_ata: &TokenAccount,
    base_bond_treasury_vault_key: Pubkey,
    base_bond_treasury_vault: &TokenAccount,
    usdc_mint: Pubkey,
    usdc_decimals: u8,
    now: i64,
) -> (r: ProgramResult<GreenLabelRefundAmounts>)
    ensures
        r == spec_plan_green_label_refund(*green_label_config, *old(green_label_project), green_label_project_key,
            *old(green_label_dispute), green_label_dispute_key, *proposal_decision, proposal_decision_key,
            *execution_queue_item, execution_queue_item_key, green_bond_vault_key, *green_bond_vault,
            green_bond_vault_authority_key, *project_owner_usdc_ata, base_bond_treasury_vault_key,
            *base_bond_treasury_vault, usdc_mint, usdc_decimals, now),
        r is Err ==> *final(green_label_project) == *old(green_label_project)
            && *final(green_label_dispute) == *old(green_label_dispute),
        r is Ok ==> {
            &&& r->Ok_0.project_refund_amount + r->Ok_0.treasury_amount
                == old(green_label_project).base_bond_amount + old(green_label_project).extra_bond_amount
            &&& green_bond_vault.amount >= old(green_label_project).base_bond_amount + old(green_label_project).extra_bond_amount
            &&& *final(green_label_project) == (GreenLabelProjectV1 {
                status: GreenLabelStatus::Refunded,
                refunded_at: now,
                active_dispute: Key32::zero(),
                ..*old(green_label_project)
            })
            &&& *final(green_label_dispute) == (GreenLabelDisputeV1 {
                status: DisputeStatus::ResolvedRefund,
                resolved_at: now,
                ..*old(green_label_dispute)
            })
        },
{
    let amounts = plan_green_label_refund(green_label_config, green_label_project, green_label_project_key,
        green_label_dispute, green_label_dispute_key, proposal_decision, proposal_decision_key, execution_queue_item,
        execution_queue_item_key, green_bond_vault_key, green_bond_vault, green_bond_vault_authority_key,
        project_owner_usdc_ata, base_bond_treasury_vault_key, base_bond_treasury_vault, usdc_mint, usdc_decimals, now)?;
    proof {
        law_planned_refund_pays_out_the_bond(green_label_project.base_bond_amount,
            green_label_project.extra_bond_amount, amounts, green_bond_vault.amount);
    }
    record_green_label_refunded(green_label_project, Some(green_label_dispute), now)?;
    Ok(amounts)
}

} // verus!
