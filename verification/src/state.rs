//! On-chain account layouts and the enums they hold.
use vstd::prelude::*;
use crate::keys::{Hash32, Pubkey};

verus! {

#[derive(Clone, Copy, Debug, PartialEq, Eq, Structural)]
pub enum ActionType {
    Noop,
    GreenLabelSlash,
    GreenLabelRefund,
    PayrollEmployeeImpeach,
    PayrollPayout,
    TreasuryParamChange,
    EmergencyPause,
    GreenLabelApproveCertification,
    GreenLabelRejectCertification,
    GreenLabelRevokeCertification,
    ProtocolActivateDaoControl,
    ProtocolUnpauseSecurity,
}

#[derive(Clone, Copy, Debug, PartialEq, Eq, Structural)]
pub enum ProposalType {
    GreenLabelSlash,
    GreenLabelRefund,
    PayrollEmployeeImpeach,
    PayrollPayout,
    TreasuryParamChange,
    EmergencyPause,
    GreenLabelApproveCertification,
    GreenLabelRejectCertification,
    GreenLabelRevokeCertification,
    ProtocolActivateDaoControl,
    ProtocolUnpauseSecurity,
}

#[derive(Clone, Copy, Debug, PartialEq, Eq, Structural)]
pub enum ProposalDecision {
    Pending,
    Approved,
    Rejected,
    Partial,
}

#[derive(Clone, Copy, Debug, PartialEq, Eq, Structural)]
pub enum ExecutionStatus {
    Queued,
    Executed,
    Cancelled,
}

#[derive(Clone, Copy, Debug, PartialEq, Eq, Structural)]
pub enum GovernanceActionTypeV1 {
    GreenLabelApproveCertification,
    GreenLabelRejectCertification,
    GreenLabelRevokeCertification,
    GreenLabelRefundBond,
    GreenLabelSlashBond,
    ProtocolActivateDaoControl,
    ProtocolUnpauseSecurity,
}

#[derive(Clone, Copy, Debug, PartialEq, Eq, Structural)]
pub enum GovernanceProposalStatusV1 {
    Active,
    Passed,
    Rejected,
    Executed,
}

#[derive(Clone, Copy, Debug, PartialEq, Eq, Structural)]
pub enum ProtocolModuleIdV1 {
    Treasury,
    GreenLabel,
    VictimRelief,
    ScamRegistry,
    Contributor,
    Protocol,
}

#[derive(Clone, Copy, Debug, PartialEq, Eq, Structural)]
pub enum ProtocolAuthorityModeV1 {
    Bootstrap,
    DaoControlled,
}

#[derive(Clone, Copy, Debug, PartialEq, Eq, Structural)]
pub enum BondTier {
    Base,
    Bronze,
    Silver,
    Gold,
    Platinum,
}

#[derive(Clone, Copy, Debug, PartialEq, Eq, Structural)]
pub enum GreenLabelStatus {
    PendingBondDeposit,
    PendingObservation,
    ActiveGreenLabel,
    Disputed,
    RefundQueued,
    SlashQueued,
    Refunded,
    Slashed,
    Cancelled,
}

#[derive(Clone, Copy, Debug, PartialEq, Eq, Structural)]
pub enum DisputeStatus {
    EvidencePeriod,
    ProjectResponsePeriod,
    ReadyForDecision,
    DecisionQueued,
    ResolvedRefund,
    ResolvedSlash,
}

#[derive(Clone, Copy, Debug, PartialEq, Eq, Structural)]
pub enum RugReasonCode {
    LiquidityRemoved,
    TeamAbandoned,
    MintAuthorityAbuse,
    Other,
}

#[derive(Clone, Copy, Debug, PartialEq, Eq, Structural)]
pub enum GreenLabelCertificationStatusV1 {
    Pending,
    Approved,
    Rejected,
    Revoked,
}

#[derive(Clone, Copy, Debug, PartialEq, Eq, Structural)]
pub enum GreenLabelCertificationExecutionTypeV1 {
    Approve,
    Reject,
    Revoke,
}

#[derive(Clone, Copy, Debug, PartialEq, Eq, Structural)]
pub enum GreenLabelEscrowStatusV1 {
    Locked,
    Refundable,
    Refunded,
    Forfeited,
}

#[derive(Clone, Copy, Debug, PartialEq, Eq, Structural)]
pub enum GreenLabelEscrowExecutionTypeV1 {
    Refund,
    Forfeit,
}

#[derive(Clone, Copy, Debug, PartialEq, Eq, Structural)]
pub enum RevenueType {
    GreenLabelCertificationFee,
    GreenLabelForfeitedBond,
    ProtocolServiceFee,
    PlatformRevenue,
    PartnershipRevenue,
    ManualGovernanceApprovedRevenue,
}

/// The parts of an SPL token account that the program reads.
#[derive(Clone, Copy, Debug, PartialEq, Eq)]
pub struct TokenAccount {
    pub mint: Pubkey,
    pub owner: Pubkey,
    pub amount: u64,
}

#[derive(Clone, Copy, Debug, PartialEq, Eq)]
pub struct TreasuryState {
    pub authority: Pubkey,
    pub total_inflow: u64,
    pub relief_pool: u64,
    pub buyback_pool: u64,
    pub payroll_pool: u64,
    pub staking_pool: u64,
    pub bump: u8,
}

#[derive(Clone, Copy, Debug, PartialEq, Eq)]
pub struct TreasuryConfigV2 {
    pub authority: Pubkey,
    pub usdc_mint: Pubkey,
    pub alpha_mint: Pubkey,
    pub bump: u8,
}

#[derive(Clone, Copy, Debug, PartialEq, Eq)]
pub struct TreasuryUsdcStateV2 {
    pub total_usdc_inflow: u64,
    pub relief_usdc_total: u64,
    pub buyback_usdc_total: u64,
    pub builders_usdc_total: u64,
    pub staking_usdc_total: u64,
    pub bump: u8,
}

#[derive(Clone, Copy, Debug, PartialEq, Eq)]
pub struct RevenueRoutingStatsV1 {
    pub authority: Pubkey,
    pub usdc_mint: Pubkey,
    pub total_routed_usdc: u64,
    pub green_label_certification_fee_total: u64,
    pub green_label_forfeited_bond_total: u64,
    pub protocol_service_fee_total: u64,
    pub platform_revenue_total: u64,
    pub partnership_revenue_total: u64,
    pub manual_governance_approved_revenue_total: u64,
    pub bump: u8,
}

#[derive(Clone, Copy, Debug, PartialEq, Eq)]
pub struct StakingPoolV1 {
    pub authority: Pubkey,
    pub alpha_mint: Pubkey,
    pub usdc_mint: Pubkey,
    pub alpha_vault: Pubkey,
    pub alpha_vault_authority: Pubkey,
    pub staking_usdc_vault: Pubkey,
    pub vault_authority_v2: Pubkey,
    pub total_staked_alpha: u64,
    pub total_effective_weight: u128,
    pub acc_usdc_per_weight: u128,
    pub last_reward_update_ts: i64,
    pub last_observed_usdc_balance: u64,
    pub reward_release_bps: u16,
    pub min_claim_usdc: u64,
    pub vault_authority_v2_bump: u8,
    pub alpha_vault_authority_bump: u8,
    pub bump: u8,
}

#[derive(Clone, Copy, Debug, PartialEq, Eq)]
pub struct UserStakeAccount {
    pub owner: Pubkey,
    pub staked_amount: u64,
    pub effective_weight: u128,
    pub lock_start_ts: i64,
    pub lock_end_ts: i64,
    pub lock_tier: u8,
    pub multiplier_bps: u16,
    pub reward_debt: u128,
    pub pending_usdc: u64,
    pub next_reward_eligible_ts: i64,
    pub bump: u8,
}

#[derive(Clone, Copy, Debug, PartialEq, Eq)]
pub struct GovernanceConfigV1 {
    pub authority: Pubkey,
    pub min_execution_delay_seconds: i64,
    pub proposal_count: u64,
    pub emergency_guardian: Pubkey,
    pub is_paused: bool,
    pub bump: u8,
}

#[derive(Clone, Copy, Debug, PartialEq, Eq)]
pub struct ProposalDecisionV1 {
    pub proposal_id: u64,
    pub proposal_type: ProposalType,
    pub proposer: Pubkey,
    pub decision: ProposalDecision,
    pub yes_weight: u64,
    pub no_weight: u64,
    pub start_ts: i64,
    pub end_ts: i64,
    pub finalized_ts: i64,
    pub bump: u8,
}

#[derive(Clone, Copy, Debug, PartialEq, Eq)]
pub struct ExecutionQueueItemV1 {
    pub proposal_id: u64,
    pub proposer: Pubkey,
    pub action_type: ActionType,
    pub target_program: Pubkey,
    pub target_account: Pubkey,
    pub decision: ProposalDecision,
    pub created_at: i64,
    pub execute_after: i64,
    pub executed_at: i64,
    pub status: ExecutionStatus,
    pub payload_hash: Hash32,
    pub bump: u8,
}

/// The parts of a governance proposal that execution checks read.
#[derive(Clone, Copy, Debug, PartialEq, Eq)]
pub struct GovernanceProposalV1 {
    pub proposal_id: u64,
    pub proposer: Pubkey,
    pub status: GovernanceProposalStatusV1,
    pub payload_hash: Hash32,
    pub bump: u8,
}

/// The action a governance proposal carries.
#[derive(Clone, Copy, Debug, PartialEq, Eq)]
pub struct GovernanceProposalActionV1 {
    pub governance_proposal: Pubkey,
    pub proposal_id: u64,
    pub action_type: GovernanceActionTypeV1,
    pub module_id: ProtocolModuleIdV1,
    pub target_program: Pubkey,
    pub target_account: Pubkey,
    pub parameters_hash: Hash32,
    pub evidence_hash: Hash32,
    pub canonical_payload_hash: Hash32,
    pub created_at: i64,
    pub bump: u8,
}

/// Links a passed governance proposal to its Security Layer decision.
#[derive(Clone, Copy, Debug, PartialEq, Eq)]
pub struct UniversalGovernanceDecisionAdapterV1 {
    pub governance_proposal: Pubkey,
    pub proposal_decision: Pubkey,
    pub action_type: ActionType,
    pub target_program: Pubkey,
    pub target_account: Pubkey,
    pub payload_hash: Hash32,
    pub executed: bool,
    pub bump: u8,
}

#[derive(Clone, Copy, Debug, PartialEq, Eq)]
pub struct ProtocolModuleRegistryV1 {
    pub security_governance_config: Pubkey,
    pub module_id: ProtocolModuleIdV1,
    pub module_code: u8,
    pub program_id: Pubkey,
    pub enabled: bool,
    pub schema_version: u16,
    pub created_at: i64,
    pub updated_at: i64,
    pub bump: u8,
}

#[derive(Clone, Copy, Debug, PartialEq, Eq)]
pub struct ProtocolAuthorityControlV1 {
    pub governance_config: Pubkey,
    pub mode: ProtocolAuthorityModeV1,
    pub bootstrap_authority: Pubkey,
    pub emergency_guardian: Pubkey,
    pub activation_governance_proposal: Pubkey,
    pub activation_proposal_decision: Pubkey,
    pub activation_execution_queue_item: Pubkey,
    pub activated_at: i64,
    pub schema_version: u16,
    pub bump: u8,
    pub reserved: [u8; 64],
}

#[derive(Clone, Copy, Debug, PartialEq, Eq)]
pub struct ProtocolDaoControlActivationRecordV1 {
    pub authority_control: Pubkey,
    pub governance_config: Pubkey,
    pub governance_proposal: Pubkey,
    pub proposal_decision: Pubkey,
    pub execution_queue_item: Pubkey,
    pub governance_proposal_action: Pubkey,
    pub current_authority: Pubkey,
    pub emergency_guardian: Pubkey,
    pub mode_before: ProtocolAuthorityModeV1,
    pub mode_after: ProtocolAuthorityModeV1,
    pub parameters_hash: Hash32,
    pub canonical_governance_payload_hash: Hash32,
    pub executor: Pubkey,
    pub executed_at: i64,
    pub schema_version: u16,
    pub bump: u8,
    pub reserved: [u8; 64],
}

#[derive(Clone, Copy, Debug, PartialEq, Eq)]
pub struct ProtocolSecurityUnpauseExecutionRecordV1 {
    pub authority_control: Pubkey,
    pub governance_config: Pubkey,
    pub governance_proposal: Pubkey,
    pub proposal_decision: Pubkey,
    pub execution_queue_item: Pubkey,
    pub governance_proposal_action: Pubkey,
    pub paused_before: bool,
    pub paused_after: bool,
    pub parameters_hash: Hash32,
    pub canonical_governance_payload_hash: Hash32,
    pub executor: Pubkey,
    pub executed_at: i64,
    pub schema_version: u16,
    pub bump: u8,
    pub reserved: [u8; 64],
}

#[derive(Clone, Copy, Debug, PartialEq, Eq)]
pub struct ProtocolActivateDaoControlParametersV1 {
    pub schema_version: u16,
    pub authority_control: Pubkey,
    pub governance_config: Pubkey,
    pub expected_mode: ProtocolAuthorityModeV1,
    pub next_mode: ProtocolAuthorityModeV1,
    pub current_authority: Pubkey,
    pub emergency_guardian: Pubkey,
    pub governance_proposal: Pubkey,
    pub governance_proposal_action: Pubkey,
    pub proposal_decision: Pubkey,
    pub execution_queue_item: Pubkey,
    pub action_type: GovernanceActionTypeV1,
}

#[derive(Clone, Copy, Debug, PartialEq, Eq)]
pub struct ProtocolUnpauseSecurityParametersV1 {
    pub schema_version: u16,
    pub authority_control: Pubkey,
    pub governance_config: Pubkey,
    pub expected_mode: ProtocolAuthorityModeV1,
    pub expected_paused: bool,
    pub next_paused: bool,
    pub action_type: GovernanceActionTypeV1,
    pub governance_proposal: Pubkey,
    pub governance_proposal_action: Pubkey,
    pub proposal_decision: Pubkey,
    pub execution_queue_item: Pubkey,
    pub proposal_id: u64,
}

#[derive(Clone, Copy, Debug, PartialEq, Eq)]
pub struct GreenLabelConfigV1 {
    pub authority: Pubkey,
    pub usdc_mint: Pubkey,
    pub min_base_bond_usdc: u64,
    pub base_refund_bps: u16,
    pub base_treasury_bps: u16,
    pub observation_period_seconds: i64,
    pub dispute_window_seconds: i64,
    pub response_window_seconds: i64,
    pub project_count: u64,
    pub treasury_usdc_state_v2: Pubkey,
    pub base_bond_treasury_vault: Pubkey,
    pub relief_or_risk_vault: Pubkey,
    pub vault_authority_v2: Pubkey,
    pub security_governance_config: Pubkey,
    pub is_paused: bool,
    pub bump: u8,
    pub reserved: [u8; 128],
}

#[derive(Clone, Copy, Debug, PartialEq, Eq)]
pub struct GreenLabelProjectV1 {
    pub project_id: u64,
    pub project_owner: Pubkey,
    pub project_name_hash: Hash32,
    pub project_url_hash: Hash32,
    pub token_mint: Pubkey,
    pub project_treasury_wallet: Pubkey,
    pub base_bond_amount: u64,
    pub extra_bond_amount: u64,
    pub total_bond_amount: u64,
    pub bond_vault: Pubkey,
    pub bond_vault_authority: Pubkey,
    pub bond_tier: BondTier,
    pub status: GreenLabelStatus,
    pub submitted_at: i64,
    pub observation_start_ts: i64,
    pub observation_end_ts: i64,
    pub dispute_count: u64,
    pub active_dispute: Pubkey,
    pub approved_at: i64,
    pub refunded_at: i64,
    pub slashed_at: i64,
    pub risk_score_snapshot: u16,
    pub terminal_proposal_id: u64,
    pub terminal_proposal_decision: Pubkey,
    pub terminal_execution_queue_item: Pubkey,
    pub terminal_payload_hash: Hash32,
    pub terminal_action_type: ActionType,
    pub bump: u8,
    pub reserved: [u8; 160],
}

#[derive(Clone, Copy, Debug, PartialEq, Eq)]
pub struct GreenLabelDisputeV1 {
    pub project_id: u64,
    pub dispute_id: u64,
    pub project: Pubkey,
    pub disputer: Pubkey,
    pub reason_code: RugReasonCode,
    pub evidence_hash: Hash32,
    pub status: DisputeStatus,
    pub opened_at: i64,
    pub evidence_end_ts: i64,
    pub response_end_ts: i64,
    pub resolved_at: i64,
    pub proposal_id: u64,
    pub proposal_decision: Pubkey,
    pub execution_queue_item: Pubkey,
    pub payload_hash: Hash32,
    pub action_type: ActionType,
    pub bump: u8,
    pub reserved: [u8; 128],
}

#[derive(Clone, Copy, Debug, PartialEq, Eq)]
pub struct GreenLabelRefundableEscrowV1 {
    pub authority: Pubkey,
    pub project: Pubkey,
    pub project_id: u64,
    pub payer: Pubkey,
    pub usdc_mint: Pubkey,
    pub refundable_vault: Pubkey,
    pub deposited_amount: u64,
    pub refundable_amount: u64,
    pub refunded_amount: u64,
    pub forfeited_amount: u64,
    pub deposit_ts: i64,
    pub refund_available_after: i64,
    pub status: GreenLabelEscrowStatusV1,
    pub bump: u8,
    pub vault_bump: u8,
}

#[derive(Clone, Copy, Debug, PartialEq, Eq)]
pub struct GreenLabelCertificationFeePolicyV1 {
    pub green_label_config: Pubkey,
    pub usdc_mint: Pubkey,
    pub fee_amount_usdc: u64,
    pub policy_version: u64,
    pub active: bool,
    pub initialized_by: Pubkey,
    pub created_at: i64,
    pub schema_version: u16,
    pub bump: u8,
}

#[derive(Clone, Copy, Debug, PartialEq, Eq)]
pub struct GreenLabelCertificationFeeReceiptV1 {
    pub green_label_config: Pubkey,
    pub fee_policy: Pubkey,
    pub policy_version: u64,
    pub green_label_project: Pubkey,
    pub project_id: u64,
    pub project_owner: Pubkey,
    pub payer: Pubkey,
    pub payer_token_account: Pubkey,
    pub amount_usdc: u64,
    pub usdc_mint: Pubkey,
    pub treasury_config: Pubkey,
    pub treasury_usdc_state: Pubkey,
    pub revenue_routing_stats: Pubkey,
    pub relief_usdc_vault: Pubkey,
    pub buyback_usdc_vault: Pubkey,
    pub builders_usdc_vault: Pubkey,
    pub staking_usdc_vault: Pubkey,
    pub revenue_type: RevenueType,
    pub parameters_hash: Hash32,
    pub routed_at: i64,
    pub schema_version: u16,
    pub bump: u8,
}

#[derive(Clone, Copy, Debug, PartialEq, Eq)]
pub struct GreenLabelCertificationStateV1 {
    pub green_label_project: Pubkey,
    pub green_label_config: Pubkey,
    pub certification_status: GreenLabelCertificationStatusV1,
    pub last_governance_proposal: Pubkey,
    pub last_execution_queue: Pubkey,
    pub last_execution_record: Pubkey,
    pub last_action_type: GovernanceActionTypeV1,
    pub decision_at: i64,
    pub created_at: i64,
    pub updated_at: i64,
    pub schema_version: u16,
    pub bump: u8,
}

#[derive(Clone, Copy, Debug, PartialEq, Eq)]
pub struct GreenLabelCertificationExecutionRecordV1 {
    pub execution_queue_item: Pubkey,
    pub proposal_decision: Pubkey,
    pub governance_proposal: Pubkey,
    pub governance_proposal_action: Pubkey,
    pub green_label_project: Pubkey,
    pub certification_state: Pubkey,
    pub module_registry: Pubkey,
    pub execution_type: GreenLabelCertificationExecutionTypeV1,
    pub governance_action_type: GovernanceActionTypeV1,
    pub target_account: Pubkey,
    pub parameters_hash: Hash32,
    pub canonical_governance_payload_hash: Hash32,
    pub project_status_before: GreenLabelStatus,
    pub project_status_after: GreenLabelStatus,
    pub certification_status_before: GreenLabelCertificationStatusV1,
    pub certification_status_after: GreenLabelCertificationStatusV1,
    pub executor: Pubkey,
    pub executed_at: i64,
    pub schema_version: u16,
    pub bump: u8,
}

#[derive(Clone, Copy, Debug, PartialEq, Eq)]
pub struct GreenLabelRefundExecutionRecordV1 {
    pub execution_queue_item: Pubkey,
    pub proposal_decision: Pubkey,
    pub governance_proposal: Pubkey,
    pub governance_proposal_action: Pubkey,
    pub module_registry: Pubkey,
    pub green_label_config: Pubkey,
    pub green_label_project: Pubkey,
    pub green_label_dispute: Pubkey,
    pub refundable_escrow: Pubkey,
    pub refundable_vault: Pubkey,
    pub original_payer: Pubkey,
    pub payer_destination_token_account: Pubkey,
    pub refund_amount_usdc: u64,
    pub usdc_mint: Pubkey,
    pub execution_type: GreenLabelEscrowExecutionTypeV1,
    pub governance_action_type: GovernanceActionTypeV1,
    pub parameters_hash: Hash32,
    pub canonical_governance_payload_hash: Hash32,
    pub escrow_status_before: GreenLabelEscrowStatusV1,
    pub escrow_status_after: GreenLabelEscrowStatusV1,
    pub project_status_before: GreenLabelStatus,
    pub project_status_after: GreenLabelStatus,
    pub executor: Pubkey,
    pub executed_at: i64,
    pub schema_version: u16,
    pub bump: u8,
}

#[derive(Clone, Copy, Debug, PartialEq, Eq)]
pub struct GreenLabelForfeitExecutionRecordV1 {
    pub execution_queue_item: Pubkey,
    pub proposal_decision: Pubkey,
    pub governance_proposal: Pubkey,
    pub governance_proposal_action: Pubkey,
    pub module_registry: Pubkey,
    pub green_label_config: Pubkey,
    pub green_label_project: Pubkey,
    pub green_label_dispute: Pubkey,
    pub refundable_escrow: Pubkey,
    pub refundable_vault: Pubkey,
    pub treasury_config: Pubkey,
    pub treasury_usdc_state: Pubkey,
    pub revenue_routing_stats: Pubkey,
    pub relief_usdc_vault: Pubkey,
    pub buyback_usdc_vault: Pubkey,
    pub builders_usdc_vault: Pubkey,
    pub staking_usdc_vault: Pubkey,
    pub forfeited_amount_usdc: u64,
    pub usdc_mint: Pubkey,
    pub revenue_type: RevenueType,
    pub execution_type: GreenLabelEscrowExecutionTypeV1,
    pub governance_action_type: GovernanceActionTypeV1,
    pub parameters_hash: Hash32,
    pub canonical_governance_payload_hash: Hash32,
    pub escrow_status_before: GreenLabelEscrowStatusV1,
    pub escrow_status_after: GreenLabelEscrowStatusV1,
    pub project_status_before: GreenLabelStatus,
    pub project_status_after: GreenLabelStatus,
    pub dispute_status_before: DisputeStatus,
    pub dispute_status_after: DisputeStatus,
    pub executor: Pubkey,
    pub executed_at: i64,
    pub schema_version: u16,
    pub bump: u8,
}


impl ProtocolAuthorityControlV1 {
    /// Serialized size of the account's fields (without the discriminator).
    pub const INIT_SPACE: usize = 32 + 1 + 32 * 5 + 8 + 2 + 1 + 64;
}

impl ProtocolDaoControlActivationRecordV1 {
    /// Serialized size of the account's fields (without the discriminator).
    pub const INIT_SPACE: usize = 32 * 8 + 1 + 1 + 32 * 2 + 32 + 8 + 2 + 1 + 64;
}

impl ProtocolSecurityUnpauseExecutionRecordV1 {
    /// Serialized size of the account's fields (without the discriminator).
    pub const INIT_SPACE: usize = 32 * 6 + 1 + 1 + 32 * 2 + 32 + 8 + 2 + 1 + 64;
}

impl GreenLabelCertificationFeePolicyV1 {
    /// Serialized size of the account's fields (without the discriminator).
    pub const INIT_SPACE: usize = 32 + 32 + 8 + 8 + 1 + 32 + 8 + 2 + 1;
}

impl GreenLabelCertificationFeeReceiptV1 {
    /// Serialized size of the account's fields (without the discriminator).
    pub const INIT_SPACE: usize = 32 * 14 + 8 * 3 + 1 + 32 + 8 + 2 + 1;
}

impl GreenLabelForfeitExecutionRecordV1 {
    /// Serialized size of the account's fields (without the discriminator).
    pub const INIT_SPACE: usize = 32 * 19 + 8 + 32 * 2 + 9 + 8 + 2 + 1;
}

impl GreenLabelConfigV1 {
    /// Serialized size of the account's fields (without the discriminator).
    pub const INIT_SPACE: usize = 32 + 32 + 8 + 2 + 2 + 8 + 8 + 8 + 8 + 32 * 5 + 1 + 1 + 128;
}

impl GreenLabelProjectV1 {
    /// Serialized size of the account's fields (without the discriminator).
    pub const INIT_SPACE: usize = 8 + 32 * 5 + 8 * 3 + 32 * 2 + 1 + 1 + 8 * 4 + 32 + 8 * 3 + 2 + 8 + 32 * 3 + 1 + 1 + 160;
}

impl GreenLabelDisputeV1 {
    /// Serialized size of the account's fields (without the discriminator).
    pub const INIT_SPACE: usize = 8 + 8 + 32 + 32 + 1 + 32 + 1 + 8 * 4 + 8 + 32 * 3 + 1 + 1 + 128;
}

} // verus!
