use my_first_solana_program::constants::{MAX_EXECUTION_DELAY_SECONDS, MIN_EXECUTION_DELAY_SECONDS};
use my_first_solana_program::error::CustomError;
use my_first_solana_program::keys::{Hash32, Key32, Pubkey};
use my_first_solana_program::security::{cancel_queued_action_state, create_proposal_decision_state, execute_queued_action_state, initialize_governance_config_state, pause_security_layer_state, queue_execution_state, unpause_security_layer_state, validate_execution_delay};
use my_first_solana_program::state::{ActionType, ExecutionQueueItemV1, ExecutionStatus, GovernanceConfigV1, ProposalDecision, ProposalDecisionV1, ProposalType};

/// The 64-bit word whose eight bytes are all 1.
const BYTE_WORD: u64 = 0x0101_0101_0101_0101;

const AUTHORITY: Pubkey = Key32 { w0: BYTE_WORD * 1, w1: BYTE_WORD * 1, w2: BYTE_WORD * 1, w3: BYTE_WORD * 1 };
const GUARDIAN: Pubkey = Key32 { w0: BYTE_WORD * 2, w1: BYTE_WORD * 2, w2: BYTE_WORD * 2, w3: BYTE_WORD * 2 };
const OTHER: Pubkey = Key32 { w0: BYTE_WORD * 3, w1: BYTE_WORD * 3, w2: BYTE_WORD * 3, w3: BYTE_WORD * 3 };
const TARGET_PROGRAM: Pubkey = Key32 { w0: BYTE_WORD * 4, w1: BYTE_WORD * 4, w2: BYTE_WORD * 4, w3: BYTE_WORD * 4 };
const TARGET_ACCOUNT: Pubkey = Key32 { w0: BYTE_WORD * 5, w1: BYTE_WORD * 5, w2: BYTE_WORD * 5, w3: BYTE_WORD * 5 };
const HASH_ONE: Hash32 = Key32 { w0: BYTE_WORD * 8, w1: BYTE_WORD * 8, w2: BYTE_WORD * 8, w3: BYTE_WORD * 8 };
const HASH_TWO: Hash32 = Key32 { w0: BYTE_WORD * 9, w1: BYTE_WORD * 9, w2: BYTE_WORD * 9, w3: BYTE_WORD * 9 };

fn governance_config() -> GovernanceConfigV1 {
    GovernanceConfigV1 {
        authority: AUTHORITY,
        min_execution_delay_seconds: MIN_EXECUTION_DELAY_SECONDS,
        proposal_count: 0,
        emergency_guardian: GUARDIAN,
        is_paused: false,
        bump: 250,
    }
}

fn proposal_decision(
    proposal_id: u64,
    proposal_type: ProposalType,
    decision: ProposalDecision,
) -> ProposalDecisionV1 {
    ProposalDecisionV1 {
        proposal_id,
        proposal_type,
        proposer: AUTHORITY,
        decision,
        yes_weight: 1,
        no_weight: 0,
        start_ts: 10,
        end_ts: 20,
        finalized_ts: 21,
        bump: 249,
    }
}

fn execution_queue_item(proposal_id: u64) -> ExecutionQueueItemV1 {
    ExecutionQueueItemV1 {
        proposal_id,
        proposer: AUTHORITY,
        action_type: ActionType::Noop,
        target_program: Pubkey::default(),
        target_account: Pubkey::default(),
        decision: ProposalDecision::Approved,
        created_at: 100,
        execute_after: 160,
        executed_at: 0,
        status: ExecutionStatus::Queued,
        payload_hash: HASH_ONE,
        bump: 248,
    }
}

#[test]
fn initializes_governance_config_successfully() {
    let mut config = governance_config();
    config.authority = Pubkey::default();
    config.emergency_guardian = Pubkey::default();

    initialize_governance_config_state(
        &mut config,
        AUTHORITY,
        MIN_EXECUTION_DELAY_SECONDS,
        GUARDIAN,
        42,
    )
    .unwrap();

    assert_eq!(config.authority, AUTHORITY);
    assert_eq!(config.emergency_guardian, GUARDIAN);
    assert_eq!(config.proposal_count, 0);
    assert!(!config.is_paused);
    assert_eq!(config.bump, 42);
}

#[test]
fn delay_below_minimum_fails() {
    let err = validate_execution_delay(MIN_EXECUTION_DELAY_SECONDS - 1).unwrap_err();

    assert_eq!(err, CustomError::InvalidExecutionDelay);
}

#[test]
fn delay_above_maximum_fails() {
    let err = validate_execution_delay(MAX_EXECUTION_DELAY_SECONDS + 1).unwrap_err();

    assert_eq!(err, CustomError::InvalidExecutionDelay);
}

#[test]
fn default_emergency_guardian_fails() {
    let mut config = governance_config();
    let err = initialize_governance_config_state(
        &mut config,
        AUTHORITY,
        MIN_EXECUTION_DELAY_SECONDS,
        Pubkey::default(),
        42,
    )
    .unwrap_err();

    assert_eq!(err, CustomError::InvalidEmergencyGuardian);
}

#[test]
fn expected_proposal_id_creates_decision_successfully() {
    let mut config = governance_config();
    let mut decision =
        proposal_decision(0, ProposalType::PayrollPayout, ProposalDecision::Rejected);

    create_proposal_decision_state(
        &mut config,
        &mut decision,
        AUTHORITY,
        1,
        ProposalType::PayrollPayout,
        ProposalDecision::Approved,
        100,
        12,
        10,
        20,
        21,
        99,
    )
    .unwrap();

    assert_eq!(decision.proposal_id, 1);
    assert_eq!(decision.proposal_type, ProposalType::PayrollPayout);
    assert_eq!(decision.decision, ProposalDecision::Approved);
    assert_eq!(config.proposal_count, 1);
}

#[test]
fn unexpected_proposal_id_fails() {
    let mut config = governance_config();
    let mut decision =
        proposal_decision(0, ProposalType::PayrollPayout, ProposalDecision::Rejected);
    let err = create_proposal_decision_state(
        &mut config,
        &mut decision,
        AUTHORITY,
        2,
        ProposalType::PayrollPayout,
        ProposalDecision::Approved,
        100,
        12,
        10,
        20,
        21,
        99,
    )
    .unwrap_err();

    assert_eq!(err, CustomError::InvalidProposalId);
}

#[test]
fn proposal_id_increments_uniquely() {
    let mut config = governance_config();
    let mut first =
        proposal_decision(0, ProposalType::PayrollPayout, ProposalDecision::Rejected);
    let mut second =
        proposal_decision(0, ProposalType::EmergencyPause, ProposalDecision::Rejected);

    create_proposal_decision_state(
        &mut config,
        &mut first,
        AUTHORITY,
        1,
        ProposalType::PayrollPayout,
        ProposalDecision::Approved,
        100,
        12,
        10,
        20,
        21,
        99,
    )
    .unwrap();
    create_proposal_decision_state(
        &mut config,
        &mut second,
        AUTHORITY,
        2,
        ProposalType::EmergencyPause,
        ProposalDecision::Approved,
        100,
        12,
        30,
        40,
        41,
        98,
    )
    .unwrap();

    assert_eq!(first.proposal_id, 1);
    assert_eq!(second.proposal_id, 2);
    assert_eq!(config.proposal_count, 2);
}

#[test]
fn pending_decision_creation_fails() {
    let mut config = governance_config();
    let mut decision =
        proposal_decision(0, ProposalType::PayrollPayout, ProposalDecision::Rejected);
    let err = create_proposal_decision_state(
        &mut config,
        &mut decision,
        AUTHORITY,
        1,
        ProposalType::PayrollPayout,
        ProposalDecision::Pending,
        100,
        12,
        10,
        20,
        21,
        99,
    )
    .unwrap_err();

    assert_eq!(err, CustomError::InvalidProposalDecision);
}

#[test]
fn invalid_proposal_time_fails() {
    let mut config = governance_config();
    let mut decision =
        proposal_decision(0, ProposalType::PayrollPayout, ProposalDecision::Rejected);
    let err = create_proposal_decision_state(
        &mut config,
        &mut decision,
        AUTHORITY,
        1,
        ProposalType::PayrollPayout,
        ProposalDecision::Approved,
        100,
        12,
        20,
        10,
        21,
        99,
    )
    .unwrap_err();

    assert_eq!(err, CustomError::InvalidProposalTime);
}

#[test]
fn rejected_proposal_cannot_queue() {
    let config = governance_config();
    let decision =
        proposal_decision(1, ProposalType::PayrollPayout, ProposalDecision::Rejected);
    let mut item = execution_queue_item(0);
    let err = queue_execution_state(
        &config,
        &decision,
        &mut item,
        AUTHORITY,
        1,
        ActionType::PayrollPayout,
        TARGET_PROGRAM,
        TARGET_ACCOUNT,
        HASH_ONE,
        100,
        44,
    )
    .unwrap_err();

    assert_eq!(err, CustomError::ProposalNotApproved);
}

#[test]
fn pending_proposal_cannot_queue() {
    let config = governance_config();
    let decision = proposal_decision(1, ProposalType::PayrollPayout, ProposalDecision::Pending);
    let mut item = execution_queue_item(0);
    let err = queue_execution_state(
        &config,
        &decision,
        &mut item,
        AUTHORITY,
        1,
        ActionType::PayrollPayout,
        TARGET_PROGRAM,
        TARGET_ACCOUNT,
        HASH_ONE,
        100,
        44,
    )
    .unwrap_err();

    assert_eq!(err, CustomError::ProposalNotApproved);
}

#[test]
fn approved_proposal_can_queue() {
    let config = governance_config();
    let decision =
        proposal_decision(1, ProposalType::PayrollPayout, ProposalDecision::Approved);
    let mut item = execution_queue_item(0);

    queue_execution_state(
        &config,
        &decision,
        &mut item,
        AUTHORITY,
        1,
        ActionType::PayrollPayout,
        TARGET_PROGRAM,
        TARGET_ACCOUNT,
        HASH_ONE,
        100,
        44,
    )
    .unwrap();

    assert_eq!(item.proposal_id, 1);
    assert_eq!(item.action_type, ActionType::PayrollPayout);
    assert_eq!(item.execute_after, 160);
    assert_eq!(item.status, ExecutionStatus::Queued);
}

#[test]
fn partial_proposal_can_queue() {
    let config = governance_config();
    let decision =
        proposal_decision(1, ProposalType::GreenLabelRefund, ProposalDecision::Partial);
    let mut item = execution_queue_item(0);

    queue_execution_state(
        &config,
        &decision,
        &mut item,
        AUTHORITY,
        1,
        ActionType::GreenLabelRefund,
        TARGET_PROGRAM,
        TARGET_ACCOUNT,
        HASH_ONE,
        100,
        44,
    )
    .unwrap();

    assert_eq!(item.decision, ProposalDecision::Partial);
}

#[test]
fn mismatched_proposal_type_and_action_type_fails() {
    let config = governance_config();
    let decision =
        proposal_decision(1, ProposalType::GreenLabelSlash, ProposalDecision::Approved);
    let mut item = execution_queue_item(0);
    let err = queue_execution_state(
        &config,
        &decision,
        &mut item,
        AUTHORITY,
        1,
        ActionType::PayrollPayout,
        TARGET_PROGRAM,
        TARGET_ACCOUNT,
        HASH_ONE,
        100,
        44,
    )
    .unwrap_err();

    assert_eq!(err, CustomError::InvalidActionForProposalType);
}

#[test]
fn any_proposal_type_can_queue_noop() {
    let config = governance_config();
    let decision =
        proposal_decision(1, ProposalType::GreenLabelSlash, ProposalDecision::Approved);
    let mut item = execution_queue_item(0);

    queue_execution_state(
        &config,
        &decision,
        &mut item,
        AUTHORITY,
        1,
        ActionType::Noop,
        Pubkey::default(),
        Pubkey::default(),
        HASH_ONE,
        100,
        44,
    )
    .unwrap();

    assert_eq!(item.action_type, ActionType::Noop);
    assert_eq!(item.target_program, Pubkey::default());
    assert_eq!(item.target_account, Pubkey::default());
}

#[test]
fn execute_before_delay_fails() {
    let config = governance_config();
    let mut item = execution_queue_item(1);
    let err = execute_queued_action_state(&config, &mut item, 1, HASH_ONE, 159).unwrap_err();

    assert_eq!(err, CustomError::ExecutionDelayNotMet);
}

#[test]
fn execute_after_delay_succeeds() {
    let config = governance_config();
    let mut item = execution_queue_item(1);

    execute_queued_action_state(&config, &mut item, 1, HASH_ONE, 160).unwrap();

    assert_eq!(item.status, ExecutionStatus::Executed);
    assert_eq!(item.executed_at, 160);
}

#[test]
fn duplicate_execute_fails() {
    let config = governance_config();
    let mut item = execution_queue_item(1);

    execute_queued_action_state(&config, &mut item, 1, HASH_ONE, 160).unwrap();
    let err = execute_queued_action_state(&config, &mut item, 1, HASH_ONE, 161).unwrap_err();

    assert_eq!(err, CustomError::InvalidExecutionStatus);
}

#[test]
fn cancelled_item_cannot_execute() {
    let config = governance_config();
    let mut item = execution_queue_item(1);

    cancel_queued_action_state(&config, &mut item, GUARDIAN, 1).unwrap();
    let err = execute_queued_action_state(&config, &mut item, 1, HASH_ONE, 160).unwrap_err();

    assert_eq!(err, CustomError::InvalidExecutionStatus);
}

#[test]
fn guardian_can_pause() {
    let mut config = governance_config();

    pause_security_layer_state(&mut config, GUARDIAN).unwrap();

    assert!(config.is_paused);
}

#[test]
fn paused_config_cannot_execute() {
    let mut config = governance_config();
    let mut item = execution_queue_item(1);
    pause_security_layer_state(&mut config, GUARDIAN).unwrap();
    let err = execute_queued_action_state(&config, &mut item, 1, HASH_ONE, 160).unwrap_err();

    assert_eq!(err, CustomError::SecurityLayerPaused);
}

#[test]
fn guardian_cannot_unpause() {
    let mut config = governance_config();
    pause_security_layer_state(&mut config, GUARDIAN).unwrap();
    let err = unpause_security_layer_state(&mut config, GUARDIAN).unwrap_err();

    assert_eq!(err, CustomError::UnauthorizedSecurityAuthority);
}

#[test]
fn authority_can_unpause() {
    let mut config = governance_config();
    pause_security_layer_state(&mut config, GUARDIAN).unwrap();

    unpause_security_layer_state(&mut config, AUTHORITY).unwrap();

    assert!(!config.is_paused);
}

#[test]
fn payload_hash_mismatch_fails() {
    let config = governance_config();
    let mut item = execution_queue_item(1);
    let err = execute_queued_action_state(&config, &mut item, 1, HASH_TWO, 160).unwrap_err();

    assert_eq!(err, CustomError::PayloadHashMismatch);
}

#[test]
fn noop_action_can_execute() {
    let config = governance_config();
    let mut item = execution_queue_item(1);
    item.action_type = ActionType::Noop;

    execute_queued_action_state(&config, &mut item, 1, HASH_ONE, 160).unwrap();

    assert_eq!(item.status, ExecutionStatus::Executed);
}

#[test]
fn non_noop_action_records_metadata_without_cpi() {
    let config = governance_config();
    let decision =
        proposal_decision(1, ProposalType::GreenLabelSlash, ProposalDecision::Approved);
    let mut item = execution_queue_item(0);

    queue_execution_state(
        &config,
        &decision,
        &mut item,
        AUTHORITY,
        1,
        ActionType::GreenLabelSlash,
        TARGET_PROGRAM,
        TARGET_ACCOUNT,
        HASH_ONE,
        100,
        44,
    )
    .unwrap();
    execute_queued_action_state(&config, &mut item, 1, HASH_ONE, 160).unwrap();

    assert_eq!(item.action_type, ActionType::GreenLabelSlash);
    assert_eq!(item.target_program, TARGET_PROGRAM);
    assert_eq!(item.target_account, TARGET_ACCOUNT);
    assert_eq!(item.status, ExecutionStatus::Executed);
}

#[test]
fn unauthorized_cancel_fails() {
    let config = governance_config();
    let mut item = execution_queue_item(1);
    let err = cancel_queued_action_state(&config, &mut item, OTHER, 1).unwrap_err();

    assert_eq!(err, CustomError::UnauthorizedSecurityAuthority);
}
