//! Green Label configuration and the project's life before any dispute:
//! default configuration, window and minimum-bond updates, submission, the
//! bond vault and the bond lock that starts the observation period.
use vstd::prelude::*;
use crate::constants::{
    BASE_BOND_REFUND_BPS, BASE_BOND_TREASURY_BPS, DEFAULT_DISPUTE_WINDOW_SECONDS,
    DEFAULT_OBSERVATION_PERIOD_SECONDS, DEFAULT_RESPONSE_WINDOW_SECONDS, GREEN_LABEL_CONFIG_SPACE,
    GREEN_LABEL_DISPUTE_SPACE, GREEN_LABEL_PROJECT_SPACE, MAX_GREEN_LABEL_WINDOW_SECONDS,
    MIN_GREEN_LABEL_BASE_BOND_USDC,
};
use crate::error::{CustomError, ProgramResult};
use crate::green_label_bond::{
    derive_bond_split_and_tier, spec_split_and_tier, validate_green_label_bps_config,
};
use crate::keys::{Hash32, Key32, Pubkey};
use crate::state::{ActionType, BondTier, GreenLabelConfigV1, GreenLabelProjectV1, GreenLabelStatus};

verus! {

/// The values a new Green Label configuration starts with.
#[derive(Clone, Copy, Debug, PartialEq, Eq)]
pub struct GreenLabelConfigInitValues {
    pub authority: Pubkey,
    pub usdc_mint: Pubkey,
    pub min_base_bond_usdc: u64,
    pub base_refund_bps: u16,
    pub base_treasury_bps: u16,
    pub observation_period_seconds: i64,
    pub dispute_window_seconds: i64,
    pub response_window_seconds: i64,
    pub project_count: u64,
    pub treasury_usdc_state_v2: Pubkey,
    pub base_bond_treasury_vault: Pubkey,
    pub relief_or_risk_vault: Pubkey,
    pub vault_authority_v2: Pubkey,
    pub security_governance_config: Pubkey,
    pub is_paused: bool,
    pub bump: u8,
    pub reserved: [u8; 128],
}

/// The values a newly submitted project starts with.
#[derive(Clone, Copy, Debug, PartialEq, Eq)]
pub struct GreenLabelProjectInitValues {
    pub project_id: u64,
    pub project_owner: Pubkey,
    pub project_name_hash: Hash32,
    pub project_url_hash: Hash32,
    pub token_mint: Pubkey,
    pub project_treasury_wallet: Pubkey,
    pub base_bond_amount: u64,
    pub extra_bond_amount: u64,
    pub total_bond_amount: u64,
    pub bond_vault: Pubkey,
    pub bond_vault_authority: Pubkey,
    pub bond_tier: BondTier,
    pub status: GreenLabelStatus,
    pub submitted_at: i64,
    pub observation_start_ts: i64,
    pub observation_end_ts: i64,
    pub dispute_count: u64,
    pub active_dispute: Pubkey,
    pub approved_at: i64,
    pub refunded_at: i64,
    pub slashed_at: i64,
    pub risk_score_snapshot: u16,
    pub terminal_proposal_id: u64,
    pub terminal_proposal_decision: Pubkey,
    pub terminal_execution_queue_item: Pubkey,
    pub terminal_payload_hash: Hash32,
    pub terminal_action_type: ActionType,
    pub bump: u8,
    pub reserved: [u8; 160],
}

/// `n` zero bytes.
pub open spec fn spec_zero_reserved(n: nat) -> Seq<u8> {
    Seq::new(n, |i: int| 0u8)
}

/// The default configuration: a 299 USDC minimum base bond, the 80/20
/// refund split, 7-day observation, 3-day dispute and 2-day response windows,
/// no projects, not paused, reserved bytes zero.
pub open spec fn spec_default_config(
    authority: Pubkey,
    usdc_mint: Pubkey,
    treasury_usdc_state_v2: Pubkey,
    base_bond_treasury_vault: Pubkey,
    relief_or_risk_vault: Pubkey,
    vault_authority_v2: Pubkey,
    security_governance_config: Pubkey,
    bump: u8,
    v: GreenLabelConfigInitValues,
) -> bool {
    &&& v.authority == authority
    &&& v.usdc_mint == usdc_mint
    &&& v.min_base_bond_usdc == MIN_GREEN_LABEL_BASE_BOND_USDC
    &&& v.base_refund_bps == BASE_BOND_REFUND_BPS
    &&& v.base_treasury_bps == BASE_BOND_TREASURY_BPS
    &&& v.observation_period_seconds == DEFAULT_OBSERVATION_PERIOD_SECONDS
    &&& v.dispute_window_seconds == DEFAULT_DISPUTE_WINDOW_SECONDS
    &&& v.response_window_seconds == DEFAULT_RESPONSE_WINDOW_SECONDS
    &&& v.project_count == 0
    &&& v.treasury_usdc_state_v2 == treasury_usdc_state_v2
    &&& v.base_bond_treasury_vault == base_bond_treasury_vault
    &&& v.relief_or_risk_vault == relief_or_risk_vault
    &&& v.vault_authority_v2 == vault_authority_v2
    &&& v.security_governance_config == security_governance_config
    &&& !v.is_paused
    &&& v.bump == bump
    &&& v.reserved@ == spec_zero_reserved(128)
}

/// Builds the default configuration values.
pub fn build_default_green_label_config_values(
    authority: Pubkey,
    usdc_mint: Pubkey,
    treasury_usdc_state_v2: Pubkey,
    base_bond_treasury_vault: Pubkey,
    relief_or_risk_vault: Pubkey,
    vault_authority_v2: Pubkey,
    security_governance_config: Pubkey,
    bump: u8,
) -> (r: ProgramResult<GreenLabelConfigInitValues>)
    ensures
        r matches Ok(v) && spec_default_config(
            authority, usdc_mint, treasury_usdc_state_v2, base_bond_treasury_vault,
            relief_or_risk_vault, vault_authority_v2, security_governance_config, bump, v,
        ),
{
    validate_green_label_bps_config(BASE_BOND_REFUND_BPS, BASE_BOND_TREASURY_BPS)?;
    let reserved = [0u8; 128];
    assert(reserved@ =~= spec_zero_reserved(128));
    Ok(GreenLabelConfigInitValues {
        authority,
        usdc_mint,
        min_base_bond_usdc: MIN_GREEN_LABEL_BASE_BOND_USDC,
        base_refund_bps: BASE_BOND_REFUND_BPS,
        base_treasury_bps: BASE_BOND_TREASURY_BPS,
        observation_period_seconds: DEFAULT_OBSERVATION_PERIOD_SECONDS,
        dispute_window_seconds: DEFAULT_DISPUTE_WINDOW_SECONDS,
        response_window_seconds: DEFAULT_RESPONSE_WINDOW_SECONDS,
        project_count: 0,
        treasury_usdc_state_v2,
        base_bond_treasury_vault,
        relief_or_risk_vault,
        vault_authority_v2,
        security_governance_config,
        is_paused: false,
        bump,
        reserved,
    })
}

/// Whether a window length lies in `1 ..= 30 days`.
pub open spec fn spec_window_in_range(seconds: i64) -> bool {
    0 < seconds && seconds <= MAX_GREEN_LABEL_WINDOW_SECONDS
}

/// The outcome of a window update request.
pub open spec fn spec_window_update(
    config_is_paused: bool,
    expected_authority: Pubkey,
    signer: Pubkey,
    observation_period_seconds: i64,
    dispute_window_seconds: i64,
    response_window_seconds: i64,
) -> ProgramResult<()> {
    if config_is_paused {
        Err(CustomError::InvalidGreenLabelStatus)
    } else if expected_authority != signer {
        Err(CustomError::UnauthorizedGreenLabelAuthority)
    } else if !spec_window_in_range(observation_period_seconds) || !spec_window_in_range(dispute_window_seconds)
        || !spec_window_in_range(response_window_seconds) {
        Err(CustomError::InvalidGreenLabelWindowConfig)
    } else {
        Ok(())
    }
}

/// Only the configuration authority, while not paused, may set the three
/// windows, each to between one second and 30 days.
pub fn validate_green_label_window_update(
    config_is_paused: bool,
    expected_authority: Pubkey,
    signer: Pubkey,
    observation_period_seconds: i64,
    dispute_window_seconds: i64,
    response_window_seconds: i64,
) -> (r: ProgramResult<()>)
    ensures
        r == spec_window_update(config_is_paused, expected_authority, signer, observation_period_seconds,
            dispute_window_seconds, response_window_seconds),
{
    if config_is_paused {
        return Err(CustomError::InvalidGreenLabelStatus);
    }
    if expected_authority != signer {
        return Err(CustomError::UnauthorizedGreenLabelAuthority);
    }
    if !(observation_period_seconds > 0 && observation_period_seconds <= MAX_GREEN_LABEL_WINDOW_SECONDS) {
        return Err(CustomError::InvalidGreenLabelWindowConfig);
    }
    if !(dispute_window_seconds > 0 && dispute_window_seconds <= MAX_GREEN_LABEL_WINDOW_SECONDS) {
        return Err(CustomError::InvalidGreenLabelWindowConfig);
    }
    if !(response_window_seconds > 0 && response_window_seconds <= MAX_GREEN_LABEL_WINDOW_SECONDS) {
        return Err(CustomError::InvalidGreenLabelWindowConfig);
    }
    Ok(())
}

/// Sets the three windows and nothing else.
pub fn record_green_label_window_update(
    green_label_config: &mut GreenLabelConfigV1,
    observation_period_seconds: i64,
    dispute_window_seconds: i64,
    response_window_seconds: i64,
)
    ensures
        *final(green_label_config) == (GreenLabelConfigV1 {
            observation_period_seconds,
            dispute_window_seconds,
            response_window_seconds,
            ..*old(green_label_config)
        }),
{
    green_label_config.observation_period_seconds = observation_period_seconds;
    green_label_config.dispute_window_seconds = dispute_window_seconds;
    green_label_config.response_window_seconds = response_window_seconds;
}

/// The outcome of a minimum base bond update request.
pub open spec fn spec_min_base_bond_update(
    config_is_paused: bool,
    expected_authority: Pubkey,
    signer: Pubkey,
    min_base_bond_usdc: u64,
) -> ProgramResult<()> {
    if config_is_paused {
        Err(CustomError::InvalidGreenLabelStatus)
    } else if expected_authority != signer {
        Err(CustomError::UnauthorizedGreenLabelAuthority)
    } else if !(0 < min_base_bond_usdc && min_base_bond_usdc <= MIN_GREEN_LABEL_BASE_BOND_USDC) {
        Err(CustomError::InvalidGreenLabelBondAmount)
    } else {
        Ok(())
    }
}

/// Only the configuration authority, while not paused, may set the minimum
/// base bond, to between one base unit and 299 USDC.
pub fn validate_green_label_min_base_bond_update(
    config_is_paused: bool,
    expected_authority: Pubkey,
    signer: Pubkey,
    min_base_bond_usdc: u64,
) -> (r: ProgramResult<()>)
    ensures
        r == spec_min_base_bond_update(config_is_paused, expected_authority, signer, min_base_bond_usdc),
{
    if config_is_paused {
        return Err(CustomError::InvalidGreenLabelStatus);
    }
    if expected_authority != signer {
        return Err(CustomError::UnauthorizedGreenLabelAuthority);
    }
    if !(min_base_bond_usdc > 0 && min_base_bond_usdc <= MIN_GREEN_LABEL_BASE_BOND_USDC) {
        return Err(CustomError::InvalidGreenLabelBondAmount);
    }
    Ok(())
}

/// Sets the minimum base bond and nothing else.
pub fn record_green_label_min_base_bond_update(green_label_config: &mut GreenLabelConfigV1, min_base_bond_usdc: u64)
    ensures
        *final(green_label_config) == (GreenLabelConfigV1 { min_base_bond_usdc, ..*old(green_label_config) }),
{
    green_label_config.min_base_bond_usdc = min_base_bond_usdc;
}

/// The project a submission creates: the next id, the bond split against the
/// configured minimum and its tier, awaiting the bond deposit, with no vault,
/// no observation period, no dispute and no terminal decision yet.
pub open spec fn spec_pending_project(
    project_id: u64,
    project_owner: Pubkey,
    project_name_hash: Hash32,
    project_url_hash: Hash32,
    token_mint: Pubkey,
    project_treasury_wallet: Pubkey,
    base_bond_amount: u64,
    extra_bond_amount: u64,
    total_bond_amount: u64,
    bond_tier: BondTier,
    submitted_at: i64,
    bump: u8,
    v: GreenLabelProjectInitValues,
) -> bool {
    &&& v.project_id == project_id
    &&& v.project_owner == project_owner
    &&& v.project_name_hash == project_name_hash
    &&& v.project_url_hash == project_url_hash
    &&& v.token_mint == token_mint
    &&& v.project_treasury_wallet == project_treasury_wallet
    &&& v.base_bond_amount == base_bond_amount
    &&& v.extra_bond_amount == extra_bond_amount
    &&& v.total_bond_amount == total_bond_amount
    &&& v.bond_vault == Key32::zero()
    &&& v.bond_vault_authority == Key32::zero()
    &&& v.bond_tier == bond_tier
    &&& v.status == GreenLabelStatus::PendingBondDeposit
    &&& v.submitted_at == submitted_at
    &&& v.observation_start_ts == 0
    &&& v.observation_end_ts == 0
    &&& v.dispute_count == 0
    &&& v.active_dispute == Key32::zero()
    &&& v.approved_at == 0
    &&& v.refunded_at == 0
    &&& v.slashed_at == 0
    &&& v.risk_score_snapshot == 0
    &&& v.terminal_proposal_id == 0
    &&& v.terminal_proposal_decision == Key32::zero()
    &&& v.terminal_execution_queue_item == Key32::zero()
    &&& v.terminal_payload_hash == Key32::zero()
    &&& v.terminal_action_type == ActionType::Noop
    &&& v.bump == bump
    &&& v.reserved@ == spec_zero_reserved(160)
}

/// Builds a new project awaiting its bond deposit. Fails while the
/// configuration is paused, when `expected_project_id` is not the next id,
/// and when the bond is below the configured minimum.
pub fn build_pending_bond_project_values(
    is_config_paused: bool,
    configured_min_base_bond_usdc: u64,
    current_project_count: u64,
    expected_project_id: u64,
    project_owner: Pubkey,
    project_name_hash: Hash32,
    project_url_hash: Hash32,
    token_mint: Pubkey,
    project_treasury_wallet: Pubkey,
    total_bond_amount: u64,
    submitted_at: i64,
    bump: u8,
) -> (r: ProgramResult<GreenLabelProjectInitValues>)
    ensures
        is_config_paused ==> r == Err::<GreenLabelProjectInitValues, CustomError>(CustomError::InvalidGreenLabelStatus),
        !is_config_paused && current_project_count == u64::MAX
            ==> r == Err::<GreenLabelProjectInitValues, CustomError>(CustomError::GreenLabelMathOverflow),
        !is_config_paused && current_project_count < u64::MAX && expected_project_id != current_project_count + 1
            ==> r == Err::<GreenLabelProjectInitValues, CustomError>(CustomError::InvalidGreenLabelProjectId),
        !is_config_paused && current_project_count < u64::MAX && expected_project_id == current_project_count + 1
            ==> match spec_split_and_tier(total_bond_amount, configured_min_base_bond_usdc) {
                Err(e) => r == Err::<GreenLabelProjectInitValues, CustomError>(e),
                Ok((split, tier)) => r matches Ok(v) && spec_pending_project(
                    expected_project_id, project_owner, project_name_hash, project_url_hash, token_mint,
                    project_treasury_wallet, split.base_bond_amount, split.extra_bond_amount,
                    split.total_bond_amount, tier, submitted_at, bump, v,
                ),
            },
{
    if is_config_paused {
        return Err(CustomError::InvalidGreenLabelStatus);
    }
    let next_project_id = match current_project_count.checked_add(1) {
        Some(v) => v,
        None => return Err(CustomError::GreenLabelMathOverflow),
    };
    if expected_project_id != next_project_id {
        return Err(CustomError::InvalidGreenLabelProjectId);
    }
    let (split, bond_tier) = derive_bond_split_and_tier(total_bond_amount, configured_min_base_bond_usdc)?;
    let reserved = [0u8; 160];
    assert(reserved@ =~= spec_zero_reserved(160));
    Ok(GreenLabelProjectInitValues {
        project_id: expected_project_id,
        project_owner,
        project_name_hash,
        project_url_hash,
        token_mint,
        project_treasury_wallet,
        base_bond_amount: split.base_bond_amount,
        extra_bond_amount: split.extra_bond_amount,
        total_bond_amount: split.total_bond_amount,
        bond_vault: Key32::default(),
        bond_vault_authority: Key32::default(),
        bond_tier,
        status: GreenLabelStatus::PendingBondDeposit,
        submitted_at,
        observation_start_ts: 0,
        observation_end_ts: 0,
        dispute_count: 0,
        active_dispute: Key32::default(),
        approved_at: 0,
        refunded_at: 0,
        slashed_at: 0,
        risk_score_snapshot: 0,
        terminal_proposal_id: 0,
        terminal_proposal_decision: Key32::default(),
        terminal_execution_queue_item: Key32::default(),
        terminal_payload_hash: Key32::default(),
        terminal_action_type: ActionType::Noop,
        bump,
        reserved,
    })
}

/// Account space of a Green Label configuration.
pub fn expected_green_label_config_space() -> (n: usize)
    ensures
        n == GREEN_LABEL_CONFIG_SPACE,
{
    GREEN_LABEL_CONFIG_SPACE
}

/// Account space of a Green Label project.
pub fn expected_green_label_project_space() -> (n: usize)
    ensures
        n == GREEN_LABEL_PROJECT_SPACE,
{
    GREEN_LABEL_PROJECT_SPACE
}

/// Account space of a Green Label dispute.
pub fn expected_green_label_dispute_space() -> (n: usize)
    ensures
        n == GREEN_LABEL_DISPUTE_SPACE,
{
    GREEN_LABEL_DISPUTE_SPACE
}

/// The outcome of a bond vault initialization request.
pub open spec fn spec_bond_vault_init(
    config_is_paused: bool,
    project_owner: Pubkey,
    signer: Pubkey,
    project_status: GreenLabelStatus,
    existing_bond_vault: Pubkey,
    existing_bond_vault_authority: Pubkey,
    expected_usdc_mint: Pubkey,
    provided_usdc_mint: Pubkey,
) -> ProgramResult<()> {
    if config_is_paused {
        Err(CustomError::InvalidGreenLabelStatus)
    } else if project_owner != signer {
        Err(CustomError::InvalidGreenLabelProjectOwner)
    } else if project_status != GreenLabelStatus::PendingBondDeposit {
        Err(CustomError::InvalidGreenLabelStatus)
    } else if existing_bond_vault != Key32::zero() || existing_bond_vault_authority != Key32::zero() {
        Err(CustomError::InvalidGreenLabelBondVaultState)
    } else if expected_usdc_mint != provided_usdc_mint {
        Err(CustomError::InvalidGreenLabelMint)
    } else {
        Ok(())
    }
}

/// The project owner may create the bond vault once, while the project
/// awaits its deposit and the configuration is not paused, for the USDC mint.
pub fn validate_green_bond_vault_initialization(
    config_is_paused: bool,
    project_owner: Pubkey,
    signer: Pubkey,
    project_status: GreenLabelStatus,
    existing_bond_vault: Pubkey,
    existing_bond_vault_authority: Pubkey,
    expected_usdc_mint: Pubkey,
    provided_usdc_mint: Pubkey,
) -> (r: ProgramResult<()>)
    ensures
        r == spec_bond_vault_init(config_is_paused, project_owner, signer, project_status, existing_bond_vault,
            existing_bond_vault_authority, expected_usdc_mint, provided_usdc_mint),
{
    if config_is_paused {
        return Err(CustomError::InvalidGreenLabelStatus);
    }
    if project_owner != signer {
        return Err(CustomError::InvalidGreenLabelProjectOwner);
    }
    if project_status != GreenLabelStatus::PendingBondDeposit {
        return Err(CustomError::InvalidGreenLabelStatus);
    }
    if !existing_bond_vault.is_zero() {
        return Err(CustomError::InvalidGreenLabelBondVaultState);
    }
    if !existing_bond_vault_authority.is_zero() {
        return Err(CustomError::InvalidGreenLabelBondVaultState);
    }
    if expected_usdc_mint != provided_usdc_mint {
        return Err(CustomError::InvalidGreenLabelMint);
    }
    Ok(())
}

/// Records the vault and its authority on the project, and nothing else.
pub fn record_green_bond_vault_initialization(
    green_label_project: &mut GreenLabelProjectV1,
    green_bond_vault: Pubkey,
    green_bond_vault_authority: Pubkey,
)
    ensures
        *final(green_label_project) == (GreenLabelProjectV1 {
            bond_vault: green_bond_vault,
            bond_vault_authority: green_bond_vault_authority,
            ..*old(green_label_project)
        }),
{
    green_label_project.bond_vault = green_bond_vault;
    green_label_project.bond_vault_authority = green_bond_vault_authority;
}

/// The outcome of a bond lock request.
pub open spec fn spec_bond_lock(
    config_is_paused: bool,
    project_owner: Pubkey,
    signer: Pubkey,
    project_status: GreenLabelStatus,
    bond_vault: Pubkey,
    bond_vault_authority: Pubkey,
    provided_bond_vault: Pubkey,
    provided_bond_vault_mint: Pubkey,
    provided_bond_vault_owner: Pubkey,
    expected_usdc_mint: Pubkey,
    owner_ata_owner: Pubkey,
    owner_ata_mint: Pubkey,
    usdc_mint: Pubkey,
    base_bond_amount: u64,
    extra_bond_amount: u64,
    total_bond_amount: u64,
) -> ProgramResult<()> {
    if config_is_paused {
        Err(CustomError::InvalidGreenLabelStatus)
    } else if project_owner != signer {
        Err(CustomError::InvalidGreenLabelProjectOwner)
    } else if project_status != GreenLabelStatus::PendingBondDeposit {
        Err(CustomError::InvalidGreenLabelStatus)
    } else if bond_vault == Key32::zero() || bond_vault_authority == Key32::zero() || provided_bond_vault != bond_vault {
        Err(CustomError::InvalidGreenLabelBondVaultState)
    } else if provided_bond_vault_mint != expected_usdc_mint {
        Err(CustomError::InvalidGreenLabelMint)
    } else if provided_bond_vault_owner != bond_vault_authority {
        Err(CustomError::InvalidGreenLabelBondVaultState)
    } else if owner_ata_owner != signer {
        Err(CustomError::InvalidGreenLabelTokenAccount)
    } else if owner_ata_mint != expected_usdc_mint || usdc_mint != expected_usdc_mint {
        Err(CustomError::InvalidGreenLabelMint)
    } else if base_bond_amount == 0 {
        Err(CustomError::InvalidGreenLabelBondAmount)
    } else if base_bond_amount + extra_bond_amount > u64::MAX {
        Err(CustomError::GreenLabelMathOverflow)
    } else if total_bond_amount != base_bond_amount + extra_bond_amount {
        Err(CustomError::InvalidGreenLabelBondAmount)
    } else {
        Ok(())
    }
}

/// The project owner may lock the bond while the project awaits it: the
/// vault must be the project's, hold USDC and belong to the vault authority;
/// the owner's token account must be theirs and hold USDC; the recorded
/// amounts must be a nonzero base plus the extra.
pub fn validate_green_label_bond_lock(
    config_is_paused: bool,
    project_owner: Pubkey,
    signer: Pubkey,
    project_status: GreenLabelStatus,
    bond_vault: Pubkey,
    bond_vault_authority: Pubkey,
    provided_bond_vault: Pubkey,
    provided_bond_vault_mint: Pubkey,
    provided_bond_vault_owner: Pubkey,
    expected_usdc_mint: Pubkey,
    owner_ata_owner: Pubkey,
    owner_ata_mint: Pubkey,
    usdc_mint: Pubkey,
    base_bond_amount: u64,
    extra_bond_amount: u64,
    total_bond_amount: u64,
) -> (r: ProgramResult<()>)
    ensures
        r == spec_bond_lock(config_is_paused, project_owner, signer, project_status, bond_vault, bond_vault_authority,
            provided_bond_vault, provided_bond_vault_mint, provided_bond_vault_owner, expected_usdc_mint,
            owner_ata_owner, owner_ata_mint, usdc_mint, base_bond_amount, extra_bond_amount, total_bond_amount),
{
    if config_is_paused {
        return Err(CustomError::InvalidGreenLabelStatus);
    }
    if project_owner != signer {
        return Err(CustomError::InvalidGreenLabelProjectOwner);
    }
    if project_status != GreenLabelStatus::PendingBondDeposit {
        return Err(CustomError::InvalidGreenLabelStatus);
    }
    if bond_vault.is_zero() {
        return Err(CustomError::InvalidGreenLabelBondVaultState);
    }
    if bond_vault_authority.is_zero() {
        return Err(CustomError::InvalidGreenLabelBondVaultState);
    }
    if provided_bond_vault != bond_vault {
        return Err(CustomError::InvalidGreenLabelBondVaultState);
    }
    if provided_bond_vault_mint != expected_usdc_mint {
        return Err(CustomError::InvalidGreenLabelMint);
    }
    if provided_bond_vault_owner != bond_vault_authority {
        return Err(CustomError::InvalidGreenLabelBondVaultState);
    }
    if owner_ata_owner != signer {
        return Err(CustomError::InvalidGreenLabelTokenAccount);
    }
    if owner_ata_mint != expected_usdc_mint {
        return Err(CustomError::InvalidGreenLabelMint);
    }
    if usdc_mint != expected_usdc_mint {
        return Err(CustomError::InvalidGreenLabelMint);
    }
    if base_bond_amount == 0 {
        return Err(CustomError::InvalidGreenLabelBondAmount);
    }
    let expected_total_bond_amount = match base_bond_amount.checked_add(extra_bond_amount) {
        Some(v) => v,
        None => return Err(CustomError::GreenLabelMathOverflow),
    };
    if total_bond_amount != expected_total_bond_amount {
        return Err(CustomError::InvalidGreenLabelBondAmount);
    }
    Ok(())
}

/// The observation period: from `now` for `observation_period_seconds`.
pub fn build_observation_window(now: i64, observation_period_seconds: i64) -> (r: ProgramResult<(i64, i64)>)
    ensures
        (now + observation_period_seconds < i64::MIN || now + observation_period_seconds > i64::MAX)
            ==> r == Err::<(i64, i64), CustomError>(CustomError::GreenLabelMathOverflow),
        (i64::MIN <= now + observation_period_seconds <= i64::MAX)
            ==> r == Ok::<(i64, i64), CustomError>((now, (now + observation_period_seconds) as i64)),
{
    let observation_end_ts = match now.checked_add(observation_period_seconds) {
        Some(v) => v,
        None => return Err(CustomError::GreenLabelMathOverflow),
    };
    Ok((now, observation_end_ts))
}

/// Once the bond is locked the project enters observation from `now` until
/// `observation_end_ts`; nothing else changes.
pub fn record_green_label_bond_locked(project: &mut GreenLabelProjectV1, now: i64, observation_end_ts: i64) -> (r: ProgramResult<()>)
    ensures
        r == Ok::<(), CustomError>(()),
        *final(project) == (GreenLabelProjectV1 {
            status: GreenLabelStatus::PendingObservation,
            observation_start_ts: now,
            observation_end_ts,
            ..*old(project)
        }),
{
    project.status = GreenLabelStatus::PendingObservation;
    project.observation_start_ts = now;
    project.observation_end_ts = observation_end_ts;
    Ok(())
}

} // verus!
