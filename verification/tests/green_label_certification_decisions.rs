use my_first_solana_program::error::CustomError;
use my_first_solana_program::governance::canonical_governance_payload_hash_for_action_v1;
use my_first_solana_program::green_label_certification::{
    build_green_label_certification_decision_parameters_v1,
    hash_green_label_certification_decision_parameters_v1,
};
use my_first_solana_program::green_label_certification_instructions::{
    execute_green_label_approve_certification_v1_handler, execute_green_label_reject_certification_v1_handler,
    execute_green_label_revoke_certification_v1_handler, CertificationGovernance,
};
use my_first_solana_program::keys::Pubkey;
use my_first_solana_program::module_registry::expected_protocol_module_registry_key_and_bump;
use my_first_solana_program::pda::program_id;
use my_first_solana_program::state::{
    ActionType, BondTier, ExecutionQueueItemV1, ExecutionStatus, GovernanceActionTypeV1,
    GovernanceConfigV1, GovernanceProposalActionV1, GovernanceProposalStatusV1,
    GovernanceProposalV1, GreenLabelCertificationExecutionRecordV1,
    GreenLabelCertificationExecutionTypeV1, GreenLabelCertificationStateV1,
    GreenLabelCertificationStatusV1, GreenLabelConfigV1, GreenLabelProjectV1, GreenLabelStatus,
    ProposalDecision, ProposalDecisionV1, ProposalType, ProtocolModuleIdV1,
    ProtocolModuleRegistryV1, TokenAccount, UniversalGovernanceDecisionAdapterV1,
};

const NOW: i64 = 5_000;

fn key(b: u8) -> Pubkey {
    Pubkey::new_from_array([b; 32])
}

fn mint() -> Pubkey {
    key(2)
}
fn config_key() -> Pubkey {
    key(30)
}
fn project_key() -> Pubkey {
    key(31)
}
fn state_key() -> Pubkey {
    key(32)
}
fn record_key() -> Pubkey {
    key(33)
}
fn security_key() -> Pubkey {
    key(40)
}

fn config() -> GreenLabelConfigV1 {
    GreenLabelConfigV1 {
        authority: key(1),
        usdc_mint: mint(),
        min_base_bond_usdc: 299_000_000,
        base_refund_bps: 8_000,
        base_treasury_bps: 2_000,
        observation_period_seconds: 60,
        dispute_window_seconds: 60,
        response_window_seconds: 60,
        project_count: 7,
        treasury_usdc_state_v2: key(3),
        base_bond_treasury_vault: key(4),
        relief_or_risk_vault: key(5),
        vault_authority_v2: key(6),
        security_governance_config: security_key(),
        is_paused: false,
        bump: 250,
        reserved: [0; 128],
    }
}

fn project() -> GreenLabelProjectV1 {
    GreenLabelProjectV1 {
        project_id: 7,
        project_owner: key(8),
        project_name_hash: key(9),
        project_url_hash: key(10),
        token_mint: key(11),
        project_treasury_wallet: key(12),
        base_bond_amount: 299_000_000,
        extra_bond_amount: 0,
        total_bond_amount: 299_000_000,
        bond_vault: key(13),
        bond_vault_authority: key(14),
        bond_tier: BondTier::Base,
        status: GreenLabelStatus::PendingObservation,
        submitted_at: 10,
        observation_start_ts: 20,
        observation_end_ts: 4_000,
        dispute_count: 0,
        active_dispute: Pubkey::default(),
        approved_at: 0,
        refunded_at: 0,
        slashed_at: 0,
        risk_score_snapshot: 0,
        terminal_proposal_id: 0,
        terminal_proposal_decision: Pubkey::default(),
        terminal_execution_queue_item: Pubkey::default(),
        terminal_payload_hash: Pubkey::default(),
        terminal_action_type: ActionType::Noop,
        bump: 249,
        reserved: [0; 160],
    }
}

fn state() -> GreenLabelCertificationStateV1 {
    GreenLabelCertificationStateV1 {
        green_label_project: project_key(),
        green_label_config: config_key(),
        certification_status: GreenLabelCertificationStatusV1::Pending,
        last_governance_proposal: Pubkey::default(),
        last_execution_queue: Pubkey::default(),
        last_execution_record: Pubkey::default(),
        last_action_type: GovernanceActionTypeV1::GreenLabelApproveCertification,
        decision_at: 0,
        created_at: 100,
        updated_at: 100,
        schema_version: 1,
        bump: 7,
    }
}

fn blank_record() -> GreenLabelCertificationExecutionRecordV1 {
    GreenLabelCertificationExecutionRecordV1 {
        execution_queue_item: Pubkey::default(),
        proposal_decision: Pubkey::default(),
        governance_proposal: Pubkey::default(),
        governance_proposal_action: Pubkey::default(),
        green_label_project: Pubkey::default(),
        certification_state: Pubkey::default(),
        module_registry: Pubkey::default(),
        execution_type: GreenLabelCertificationExecutionTypeV1::Approve,
        governance_action_type: GovernanceActionTypeV1::GreenLabelApproveCertification,
        target_account: Pubkey::default(),
        parameters_hash: Pubkey::default(),
        canonical_governance_payload_hash: Pubkey::default(),
        project_status_before: GreenLabelStatus::PendingBondDeposit,
        project_status_after: GreenLabelStatus::PendingBondDeposit,
        certification_status_before: GreenLabelCertificationStatusV1::Pending,
        certification_status_after: GreenLabelCertificationStatusV1::Pending,
        executor: Pubkey::default(),
        executed_at: 0,
        schema_version: 0,
        bump: 0,
    }
}

fn bond_vault() -> TokenAccount {
    TokenAccount { mint: mint(), owner: key(14), amount: 299_000_000 }
}

/// The governance chain of a passed, executed certification proposal for
/// `action` on the project as it stands.
fn governance(
    action_type: GovernanceActionTypeV1,
    proposal_type: ProposalType,
    security_action: ActionType,
    project: &GreenLabelProjectV1,
    state: &GreenLabelCertificationStateV1,
) -> CertificationGovernance {
    let (registry_key, registry_bump) =
        expected_protocol_module_registry_key_and_bump(ProtocolModuleIdV1::GreenLabel);
    let parameters = build_green_label_certification_decision_parameters_v1(
        &config(),
        config_key(),
        project,
        project_key(),
        state_key(),
        action_type,
        state.certification_status,
        9,
    )
    .unwrap();
    let mut action = GovernanceProposalActionV1 {
        governance_proposal: key(60),
        proposal_id: 9,
        action_type,
        module_id: ProtocolModuleIdV1::GreenLabel,
        target_program: program_id(),
        target_account: project_key(),
        parameters_hash: hash_green_label_certification_decision_parameters_v1(&parameters).unwrap(),
        evidence_hash: key(18),
        canonical_payload_hash: Pubkey::default(),
        created_at: 50,
        bump: 1,
    };
    let canonical = canonical_governance_payload_hash_for_action_v1(&action).unwrap();
    action.canonical_payload_hash = canonical;
    CertificationGovernance {
        security_governance_config: GovernanceConfigV1 {
            authority: key(1),
            min_execution_delay_seconds: 60,
            proposal_count: 9,
            emergency_guardian: key(3),
            is_paused: false,
            bump: 250,
        },
        security_governance_config_key: security_key(),
        protocol_module_registry: ProtocolModuleRegistryV1 {
            security_governance_config: security_key(),
            module_id: ProtocolModuleIdV1::GreenLabel,
            module_code: 2,
            program_id: program_id(),
            enabled: true,
            schema_version: 1,
            created_at: 1,
            updated_at: 1,
            bump: registry_bump,
        },
        protocol_module_registry_key: registry_key,
        governance_proposal: GovernanceProposalV1 {
            proposal_id: 9,
            proposer: key(1),
            status: GovernanceProposalStatusV1::Passed,
            payload_hash: key(17),
            bump: 1,
        },
        governance_proposal_key: key(60),
        governance_proposal_action: action,
        governance_proposal_action_key: key(61),
        governance_decision_adapter: UniversalGovernanceDecisionAdapterV1 {
            governance_proposal: key(60),
            proposal_decision: key(63),
            action_type: security_action,
            target_program: program_id(),
            target_account: project_key(),
            payload_hash: canonical,
            executed: true,
            bump: 1,
        },
        governance_decision_adapter_key: key(62),
        proposal_decision: ProposalDecisionV1 {
            proposal_id: 9,
            proposal_type,
            proposer: key(1),
            decision: ProposalDecision::Approved,
            yes_weight: 10,
            no_weight: 1,
            start_ts: 60,
            end_ts: 70,
            finalized_ts: 80,
            bump: 1,
        },
        proposal_decision_key: key(63),
        execution_queue_item: ExecutionQueueItemV1 {
            proposal_id: 9,
            proposer: key(1),
            action_type: security_action,
            target_program: program_id(),
            target_account: project_key(),
            decision: ProposalDecision::Approved,
            created_at: 90,
            execute_after: 150,
            executed_at: 160,
            status: ExecutionStatus::Executed,
            payload_hash: canonical,
            bump: 1,
        },
        execution_queue_item_key: key(64),
    }
}

fn approve(
    g: &CertificationGovernance,
    project: &mut GreenLabelProjectV1,
    state: &mut GreenLabelCertificationStateV1,
    record: &mut GreenLabelCertificationExecutionRecordV1,
    now: i64,
) -> Result<(), CustomError> {
    execute_green_label_approve_certification_v1_handler(
        g,
        &config(),
        config_key(),
        project,
        project_key(),
        state,
        state_key(),
        record,
        record_key(),
        key(13),
        &bond_vault(),
        mint(),
        6,
        key(70),
        now,
        5,
    )
}

#[test]
fn approved_certification_activates_the_green_label_once() {
    let mut project = project();
    let mut state = state();
    let mut record = blank_record();
    let g = governance(
        GovernanceActionTypeV1::GreenLabelApproveCertification,
        ProposalType::GreenLabelApproveCertification,
        ActionType::GreenLabelApproveCertification,
        &project,
        &state,
    );
    approve(&g, &mut project, &mut state, &mut record, NOW).unwrap();
    assert_eq!(project.status, GreenLabelStatus::ActiveGreenLabel);
    assert_eq!(project.approved_at, NOW);
    assert_eq!(state.certification_status, GreenLabelCertificationStatusV1::Approved);
    assert_eq!(state.decision_at, NOW);
    assert_eq!(record.execution_type, GreenLabelCertificationExecutionTypeV1::Approve);
    assert_eq!(record.certification_status_after, GreenLabelCertificationStatusV1::Approved);
    assert_eq!(record.project_status_after, GreenLabelStatus::ActiveGreenLabel);

    let err = approve(&g, &mut project, &mut state, &mut record, NOW).unwrap_err();
    assert_eq!(err, CustomError::GreenLabelCertificationParametersMismatch);

    let g_again = governance(
        GovernanceActionTypeV1::GreenLabelApproveCertification,
        ProposalType::GreenLabelApproveCertification,
        ActionType::GreenLabelApproveCertification,
        &project,
        &state,
    );
    let mut record_again = blank_record();
    let err = approve(&g_again, &mut project, &mut state, &mut record_again, NOW).unwrap_err();
    assert_eq!(err, CustomError::GreenLabelCertificationAlreadyFinalized);
}

#[test]
fn approval_waits_for_the_observation_period() {
    let mut project = project();
    let mut state = state();
    let mut record = blank_record();
    let g = governance(
        GovernanceActionTypeV1::GreenLabelApproveCertification,
        ProposalType::GreenLabelApproveCertification,
        ActionType::GreenLabelApproveCertification,
        &project,
        &state,
    );
    let err = approve(&g, &mut project, &mut state, &mut record, 3_999).unwrap_err();
    assert_eq!(err, CustomError::GreenLabelObservationPeriodNotComplete);
    assert_eq!(project.status, GreenLabelStatus::PendingObservation);
    assert_eq!(state.certification_status, GreenLabelCertificationStatusV1::Pending);
}

#[test]
fn approval_requires_the_matching_proposal_type() {
    let mut project = project();
    let mut state = state();
    let mut record = blank_record();
    let g = governance(
        GovernanceActionTypeV1::GreenLabelApproveCertification,
        ProposalType::GreenLabelRejectCertification,
        ActionType::GreenLabelApproveCertification,
        &project,
        &state,
    );
    let err = approve(&g, &mut project, &mut state, &mut record, NOW).unwrap_err();
    assert_eq!(err, CustomError::InvalidActionForProposalType);
}

#[test]
fn rejected_certification_is_final_and_keeps_the_project_status() {
    let project = project();
    let mut state = state();
    let mut record = blank_record();
    let g = governance(
        GovernanceActionTypeV1::GreenLabelRejectCertification,
        ProposalType::GreenLabelRejectCertification,
        ActionType::GreenLabelRejectCertification,
        &project,
        &state,
    );
    execute_green_label_reject_certification_v1_handler(
        &g,
        &config(),
        config_key(),
        &project,
        project_key(),
        &mut state,
        state_key(),
        &mut record,
        record_key(),
        key(70),
        NOW,
        5,
    )
    .unwrap();
    assert_eq!(state.certification_status, GreenLabelCertificationStatusV1::Rejected);
    assert_eq!(record.project_status_after, GreenLabelStatus::PendingObservation);

    let mut project_again = project;
    let mut record_again = blank_record();
    let g_approve = governance(
        GovernanceActionTypeV1::GreenLabelApproveCertification,
        ProposalType::GreenLabelApproveCertification,
        ActionType::GreenLabelApproveCertification,
        &project_again,
        &state,
    );
    let err = approve(&g_approve, &mut project_again, &mut state, &mut record_again, NOW).unwrap_err();
    assert_eq!(err, CustomError::GreenLabelCertificationAlreadyFinalized);
}

#[test]
fn revocation_follows_an_approval() {
    let mut project = project();
    let mut state = state();
    let mut record = blank_record();
    let g = governance(
        GovernanceActionTypeV1::GreenLabelApproveCertification,
        ProposalType::GreenLabelApproveCertification,
        ActionType::GreenLabelApproveCertification,
        &project,
        &state,
    );
    approve(&g, &mut project, &mut state, &mut record, NOW).unwrap();

    let mut revoke_record = blank_record();
    let g_revoke = governance(
        GovernanceActionTypeV1::GreenLabelRevokeCertification,
        ProposalType::GreenLabelRevokeCertification,
        ActionType::GreenLabelRevokeCertification,
        &project,
        &state,
    );
    execute_green_label_revoke_certification_v1_handler(
        &g_revoke,
        &config(),
        config_key(),
        &project,
        project_key(),
        &mut state,
        state_key(),
        &mut revoke_record,
        key(34),
        key(70),
        NOW + 10,
        6,
    )
    .unwrap();
    assert_eq!(state.certification_status, GreenLabelCertificationStatusV1::Revoked);
    assert_eq!(revoke_record.execution_type, GreenLabelCertificationExecutionTypeV1::Revoke);
}
