use my_first_solana_program::authority_control::{
    build_protocol_activate_dao_control_parameters_v1,
    build_protocol_unpause_security_parameters_v1, execute_activate_protocol_dao_control_state,
    execute_protocol_unpause_security_state, expected_protocol_authority_control_key_and_bump,
    hash_protocol_activate_dao_control_parameters_v1, hash_protocol_unpause_security_parameters_v1,
    validate_protocol_authority_mode_transition_v1,
};
use my_first_solana_program::governance::canonical_governance_payload_hash_for_action_v1;
use my_first_solana_program::module_registry::expected_protocol_module_registry_key_and_bump;
use my_first_solana_program::pda::program_id;
use my_first_solana_program::constants::PROTOCOL_AUTHORITY_SCHEMA_VERSION_V1;
use my_first_solana_program::error::CustomError;
use my_first_solana_program::keys::{Hash32, Pubkey};
use my_first_solana_program::state::{
    ActionType, ExecutionQueueItemV1, ExecutionStatus, GovernanceActionTypeV1, GovernanceConfigV1,
    GovernanceProposalActionV1, GovernanceProposalStatusV1, GovernanceProposalV1,
    ProposalDecision, ProposalDecisionV1, ProposalType, ProtocolAuthorityControlV1,
    ProtocolAuthorityModeV1, ProtocolDaoControlActivationRecordV1, ProtocolModuleIdV1,
    ProtocolModuleRegistryV1, ProtocolSecurityUnpauseExecutionRecordV1,
    UniversalGovernanceDecisionAdapterV1,
};

fn key(b: u8) -> Pubkey {
    Pubkey::new_from_array([b; 32])
}

fn config(paused: bool) -> GovernanceConfigV1 {
    GovernanceConfigV1 {
        authority: key(1),
        min_execution_delay_seconds: 60,
        proposal_count: 1,
        emergency_guardian: key(2),
        is_paused: paused,
        bump: 250,
    }
}

fn control(mode: ProtocolAuthorityModeV1) -> ProtocolAuthorityControlV1 {
    ProtocolAuthorityControlV1 {
        governance_config: key(4),
        mode,
        bootstrap_authority: key(1),
        emergency_guardian: key(2),
        activation_governance_proposal: Pubkey::default(),
        activation_proposal_decision: Pubkey::default(),
        activation_execution_queue_item: Pubkey::default(),
        activated_at: 0,
        schema_version: PROTOCOL_AUTHORITY_SCHEMA_VERSION_V1,
        bump: 1,
        reserved: [0u8; 64],
    }
}

fn registry() -> ProtocolModuleRegistryV1 {
    ProtocolModuleRegistryV1 {
        security_governance_config: key(4),
        module_id: ProtocolModuleIdV1::Protocol,
        module_code: 6,
        program_id: key(10),
        enabled: true,
        schema_version: 1,
        created_at: 1,
        updated_at: 1,
        bump: 1,
    }
}

fn proposal() -> GovernanceProposalV1 {
    GovernanceProposalV1 {
        proposal_id: 7,
        proposer: key(1),
        status: GovernanceProposalStatusV1::Passed,
        payload_hash: Hash32::new_from_array([3; 32]),
        bump: 1,
    }
}

fn action(action_type: GovernanceActionTypeV1) -> GovernanceProposalActionV1 {
    GovernanceProposalActionV1 {
        governance_proposal: key(6),
        proposal_id: 7,
        action_type,
        module_id: ProtocolModuleIdV1::Protocol,
        target_program: key(10),
        target_account: key(5),
        parameters_hash: Hash32::new_from_array([3; 32]),
        evidence_hash: Hash32::new_from_array([4; 32]),
        canonical_payload_hash: Hash32::new_from_array([3; 32]),
        created_at: 1,
        bump: 1,
    }
}

fn adapter() -> UniversalGovernanceDecisionAdapterV1 {
    UniversalGovernanceDecisionAdapterV1 {
        governance_proposal: key(6),
        proposal_decision: key(8),
        action_type: ActionType::Noop,
        target_program: key(10),
        target_account: key(5),
        payload_hash: Hash32::new_from_array([3; 32]),
        executed: true,
        bump: 1,
    }
}

fn decision() -> ProposalDecisionV1 {
    ProposalDecisionV1 {
        proposal_id: 7,
        proposal_type: ProposalType::EmergencyPause,
        proposer: key(1),
        decision: ProposalDecision::Approved,
        yes_weight: 1,
        no_weight: 0,
        start_ts: 1,
        end_ts: 2,
        finalized_ts: 3,
        bump: 1,
    }
}

fn queue() -> ExecutionQueueItemV1 {
    ExecutionQueueItemV1 {
        proposal_id: 7,
        proposer: key(1),
        action_type: ActionType::Noop,
        target_program: key(10),
        target_account: key(5),
        decision: ProposalDecision::Approved,
        created_at: 100,
        execute_after: 160,
        executed_at: 0,
        status: ExecutionStatus::Queued,
        payload_hash: Hash32::new_from_array([3; 32]),
        bump: 1,
    }
}

fn blank_activation_record() -> ProtocolDaoControlActivationRecordV1 {
    ProtocolDaoControlActivationRecordV1 {
        authority_control: Pubkey::default(),
        governance_config: Pubkey::default(),
        governance_proposal: Pubkey::default(),
        proposal_decision: Pubkey::default(),
        execution_queue_item: Pubkey::default(),
        governance_proposal_action: Pubkey::default(),
        current_authority: Pubkey::default(),
        emergency_guardian: Pubkey::default(),
        mode_before: ProtocolAuthorityModeV1::Bootstrap,
        mode_after: ProtocolAuthorityModeV1::Bootstrap,
        parameters_hash: Pubkey::default(),
        canonical_governance_payload_hash: Pubkey::default(),
        executor: Pubkey::default(),
        executed_at: 0,
        schema_version: 0,
        bump: 0,
        reserved: [0u8; 64],
    }
}

fn blank_unpause_record() -> ProtocolSecurityUnpauseExecutionRecordV1 {
    ProtocolSecurityUnpauseExecutionRecordV1 {
        authority_control: Pubkey::default(),
        governance_config: Pubkey::default(),
        governance_proposal: Pubkey::default(),
        proposal_decision: Pubkey::default(),
        execution_queue_item: Pubkey::default(),
        governance_proposal_action: Pubkey::default(),
        paused_before: false,
        paused_after: false,
        parameters_hash: Pubkey::default(),
        canonical_governance_payload_hash: Pubkey::default(),
        executor: Pubkey::default(),
        executed_at: 0,
        schema_version: 0,
        bump: 0,
        reserved: [0u8; 64],
    }
}

#[test]
fn dao_control_cannot_be_activated_twice() {
    let governance = config(false);
    let mut authority_control = control(ProtocolAuthorityModeV1::DaoControlled);
    let before = authority_control;
    let mut record = blank_activation_record();
    let err = execute_activate_protocol_dao_control_state(
        &governance,
        &mut authority_control,
        &registry(),
        &proposal(),
        &action(GovernanceActionTypeV1::ProtocolActivateDaoControl),
        &adapter(),
        &decision(),
        &queue(),
        &mut record,
        key(5),
        key(4),
        key(11),
        key(6),
        key(7),
        key(8),
        key(9),
        key(1),
        key(1),
        200,
        3,
    )
    .unwrap_err();
    assert_eq!(err, CustomError::ProtocolAuthorityControlNotBootstrap);
    assert_eq!(authority_control, before);
    assert_eq!(record, blank_activation_record());
}

#[test]
fn unpause_requires_dao_control() {
    let mut governance = config(true);
    let authority_control = control(ProtocolAuthorityModeV1::Bootstrap);
    let mut item = queue();
    let mut record = blank_unpause_record();
    let err = execute_protocol_unpause_security_state(
        &mut governance,
        &authority_control,
        &registry(),
        &proposal(),
        &action(GovernanceActionTypeV1::ProtocolUnpauseSecurity),
        &adapter(),
        &decision(),
        &mut item,
        &mut record,
        key(5),
        key(4),
        key(11),
        key(6),
        key(7),
        key(8),
        key(9),
        key(1),
        200,
        3,
    )
    .unwrap_err();
    assert_eq!(err, CustomError::ProtocolAuthorityControlNotDaoControlled);
    assert!(governance.is_paused);
    assert_eq!(item, queue());
}

#[test]
fn unpause_requires_the_delay_to_pass() {
    let mut governance = config(true);
    let authority_control = control(ProtocolAuthorityModeV1::DaoControlled);
    let mut item = queue();
    let mut record = blank_unpause_record();
    let err = execute_protocol_unpause_security_state(
        &mut governance,
        &authority_control,
        &registry(),
        &proposal(),
        &action(GovernanceActionTypeV1::ProtocolUnpauseSecurity),
        &adapter(),
        &decision(),
        &mut item,
        &mut record,
        key(5),
        key(4),
        key(11),
        key(6),
        key(7),
        key(8),
        key(9),
        key(1),
        159,
        3,
    )
    .unwrap_err();
    assert_eq!(err, CustomError::ExecutionDelayNotMet);
    assert!(governance.is_paused);
}

#[test]
fn unpause_requires_a_paused_layer() {
    let mut governance = config(false);
    let authority_control = control(ProtocolAuthorityModeV1::DaoControlled);
    let mut item = queue();
    let mut record = blank_unpause_record();
    let err = execute_protocol_unpause_security_state(
        &mut governance,
        &authority_control,
        &registry(),
        &proposal(),
        &action(GovernanceActionTypeV1::ProtocolUnpauseSecurity),
        &adapter(),
        &decision(),
        &mut item,
        &mut record,
        key(5),
        key(4),
        key(11),
        key(6),
        key(7),
        key(8),
        key(9),
        key(1),
        200,
        3,
    )
    .unwrap_err();
    assert_eq!(err, CustomError::ProtocolSecurityUnpauseNotEligible);
}

#[test]
fn dao_mode_never_returns_to_bootstrap() {
    assert_eq!(
        validate_protocol_authority_mode_transition_v1(
            ProtocolAuthorityModeV1::DaoControlled,
            ProtocolAuthorityModeV1::DaoControlled
        )
        .unwrap_err(),
        CustomError::InvalidProtocolAuthorityModeTransition
    );
}

/// A passed, decided and queued protocol proposal for `action_type` on `target`.
struct Chain {
    registry: ProtocolModuleRegistryV1,
    registry_key: Pubkey,
    proposal: GovernanceProposalV1,
    action: GovernanceProposalActionV1,
    adapter: UniversalGovernanceDecisionAdapterV1,
    decision: ProposalDecisionV1,
    queue: ExecutionQueueItemV1,
}

fn chain(
    action_type: GovernanceActionTypeV1,
    security_action: ActionType,
    proposal_type: ProposalType,
    target: Pubkey,
    parameters_hash: Hash32,
    queue_status: ExecutionStatus,
) -> Chain {
    let (registry_key, registry_bump) =
        expected_protocol_module_registry_key_and_bump(ProtocolModuleIdV1::Protocol);
    let mut action = GovernanceProposalActionV1 {
        governance_proposal: key(6),
        proposal_id: 7,
        action_type,
        module_id: ProtocolModuleIdV1::Protocol,
        target_program: program_id(),
        target_account: target,
        parameters_hash,
        evidence_hash: Hash32::new_from_array([4; 32]),
        canonical_payload_hash: Pubkey::default(),
        created_at: 1,
        bump: 1,
    };
    let canonical = canonical_governance_payload_hash_for_action_v1(&action).unwrap();
    action.canonical_payload_hash = canonical;
    Chain {
        registry: ProtocolModuleRegistryV1 {
            security_governance_config: key(4),
            module_id: ProtocolModuleIdV1::Protocol,
            module_code: 6,
            program_id: program_id(),
            enabled: true,
            schema_version: 1,
            created_at: 1,
            updated_at: 1,
            bump: registry_bump,
        },
        registry_key,
        proposal: GovernanceProposalV1 {
            proposal_id: 7,
            proposer: key(1),
            status: GovernanceProposalStatusV1::Passed,
            payload_hash: canonical,
            bump: 1,
        },
        action,
        adapter: UniversalGovernanceDecisionAdapterV1 {
            governance_proposal: key(6),
            proposal_decision: key(8),
            action_type: security_action,
            target_program: program_id(),
            target_account: target,
            payload_hash: canonical,
            executed: true,
            bump: 1,
        },
        decision: ProposalDecisionV1 {
            proposal_id: 7,
            proposal_type,
            proposer: key(1),
            decision: ProposalDecision::Approved,
            yes_weight: 1,
            no_weight: 0,
            start_ts: 1,
            end_ts: 2,
            finalized_ts: 3,
            bump: 1,
        },
        queue: ExecutionQueueItemV1 {
            proposal_id: 7,
            proposer: key(1),
            action_type: security_action,
            target_program: program_id(),
            target_account: target,
            decision: ProposalDecision::Approved,
            created_at: 100,
            execute_after: 160,
            executed_at: if queue_status == ExecutionStatus::Executed { 170 } else { 0 },
            status: queue_status,
            payload_hash: canonical,
            bump: 1,
        },
    }
}

#[test]
fn dao_activation_then_governed_unpause() {
    let governance_key = key(4);
    let (control_key, control_bump) = expected_protocol_authority_control_key_and_bump(governance_key);
    let mut governance = config(false);
    let mut authority_control = control(ProtocolAuthorityModeV1::Bootstrap);
    authority_control.bump = control_bump;

    let activate_parameters = build_protocol_activate_dao_control_parameters_v1(
        control_key,
        governance_key,
        key(1),
        key(2),
        key(6),
        key(7),
        key(8),
        key(9),
    )
    .unwrap();
    let activate = chain(
        GovernanceActionTypeV1::ProtocolActivateDaoControl,
        ActionType::ProtocolActivateDaoControl,
        ProposalType::ProtocolActivateDaoControl,
        control_key,
        hash_protocol_activate_dao_control_parameters_v1(&activate_parameters).unwrap(),
        ExecutionStatus::Executed,
    );
    let mut activation_record = blank_activation_record();
    execute_activate_protocol_dao_control_state(
        &governance,
        &mut authority_control,
        &activate.registry,
        &activate.proposal,
        &activate.action,
        &activate.adapter,
        &activate.decision,
        &activate.queue,
        &mut activation_record,
        control_key,
        governance_key,
        activate.registry_key,
        key(6),
        key(7),
        key(8),
        key(9),
        key(1),
        key(12),
        200,
        3,
    )
    .unwrap();
    assert_eq!(authority_control.mode, ProtocolAuthorityModeV1::DaoControlled);
    assert_eq!(authority_control.activated_at, 200);
    assert_eq!(activation_record.mode_after, ProtocolAuthorityModeV1::DaoControlled);
    assert_eq!(activation_record.canonical_governance_payload_hash, activate.action.canonical_payload_hash);

    let mut second_record = blank_activation_record();
    let err = execute_activate_protocol_dao_control_state(
        &governance,
        &mut authority_control,
        &activate.registry,
        &activate.proposal,
        &activate.action,
        &activate.adapter,
        &activate.decision,
        &activate.queue,
        &mut second_record,
        control_key,
        governance_key,
        activate.registry_key,
        key(6),
        key(7),
        key(8),
        key(9),
        key(1),
        key(12),
        300,
        3,
    )
    .unwrap_err();
    assert_eq!(err, CustomError::ProtocolAuthorityControlNotBootstrap);

    governance.is_paused = true;
    let unpause_parameters = build_protocol_unpause_security_parameters_v1(
        control_key,
        governance_key,
        key(6),
        key(7),
        key(8),
        key(9),
        7,
    )
    .unwrap();
    let unpause = chain(
        GovernanceActionTypeV1::ProtocolUnpauseSecurity,
        ActionType::ProtocolUnpauseSecurity,
        ProposalType::ProtocolUnpauseSecurity,
        governance_key,
        hash_protocol_unpause_security_parameters_v1(&unpause_parameters).unwrap(),
        ExecutionStatus::Queued,
    );
    let mut item = unpause.queue;
    let mut unpause_record = blank_unpause_record();
    execute_protocol_unpause_security_state(
        &mut governance,
        &authority_control,
        &unpause.registry,
        &unpause.proposal,
        &unpause.action,
        &unpause.adapter,
        &unpause.decision,
        &mut item,
        &mut unpause_record,
        control_key,
        governance_key,
        unpause.registry_key,
        key(6),
        key(7),
        key(8),
        key(9),
        key(12),
        400,
        4,
    )
    .unwrap();
    assert!(!governance.is_paused);
    assert_eq!(item.status, ExecutionStatus::Executed);
    assert_eq!(item.executed_at, 400);
    assert!(unpause_record.paused_before);
    assert!(!unpause_record.paused_after);
}
