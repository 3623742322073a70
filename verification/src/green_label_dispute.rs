//! Green Label disputes: opening one, closing its evidence and response
//! windows, linking it to an approved Security Layer decision, and the checks
//! and records of the refund or slash that the decision orders.
use vstd::prelude::*;
use crate::constants::GREEN_LABEL_USDC_DECIMALS;
use crate::error::{CustomError, ProgramResult};
use crate::keys::{Hash32, Key32, Pubkey};
use crate::green_label_bond::spec_status_transition;
use crate::state::{
    ActionType, DisputeStatus, ExecutionStatus, GreenLabelDisputeV1, GreenLabelProjectV1, GreenLabelStatus,
    ProposalDecision, ProposalType,
};

verus! {

/// A payload hash must not be all zero.
pub fn validate_payload_hash(payload_hash: Hash32) -> (r: ProgramResult<()>)
    ensures
        payload_hash == Key32::zero() ==> r == Err::<(), CustomError>(CustomError::InvalidGreenLabelPayloadHash),
        payload_hash != Key32::zero() ==> r == Ok::<(), CustomError>(()),
{
    if payload_hash.is_zero() {
        return Err(CustomError::InvalidGreenLabelPayloadHash);
    }
    Ok(())
}

/// A refund may only carry out a refund decision.
pub fn validate_terminal_action_for_refund(action_type: ActionType) -> (r: ProgramResult<()>)
    ensures
        action_type == ActionType::GreenLabelRefund ==> r == Ok::<(), CustomError>(()),
        action_type != ActionType::GreenLabelRefund
            ==> r == Err::<(), CustomError>(CustomError::InvalidGreenLabelActionType),
{
    if action_type != ActionType::GreenLabelRefund {
        return Err(CustomError::InvalidGreenLabelActionType);
    }
    Ok(())
}

/// A slash may only carry out a slash decision, for a linked dispute.
pub fn validate_terminal_action_for_slash(action_type: ActionType, has_linked_dispute: bool) -> (r: ProgramResult<()>)
    ensures
        action_type != ActionType::GreenLabelSlash
            ==> r == Err::<(), CustomError>(CustomError::InvalidGreenLabelActionType),
        action_type == ActionType::GreenLabelSlash && !has_linked_dispute
            ==> r == Err::<(), CustomError>(CustomError::InvalidGreenLabelSlashWithoutDispute),
        action_type == ActionType::GreenLabelSlash && has_linked_dispute ==> r == Ok::<(), CustomError>(()),
{
    if action_type != ActionType::GreenLabelSlash {
        return Err(CustomError::InvalidGreenLabelActionType);
    }
    if !has_linked_dispute {
        return Err(CustomError::InvalidGreenLabelSlashWithoutDispute);
    }
    Ok(())
}

/// The outcome of a request to open a dispute.
pub open spec fn spec_open_dispute(
    config_is_paused: bool,
    project_status: GreenLabelStatus,
    active_dispute: Pubkey,
    current_dispute_count: u64,
    expected_dispute_id: u64,
    evidence_hash: Hash32,
) -> ProgramResult<()> {
    if config_is_paused {
        Err(CustomError::InvalidGreenLabelStatus)
    } else if project_status != GreenLabelStatus::PendingObservation && project_status != GreenLabelStatus::ActiveGreenLabel {
        Err(CustomError::InvalidGreenLabelStatus)
    } else if active_dispute != Key32::zero() {
        Err(CustomError::InvalidGreenLabelActiveDispute)
    } else if current_dispute_count == u64::MAX {
        Err(CustomError::GreenLabelMathOverflow)
    } else if expected_dispute_id != current_dispute_count + 1 {
        Err(CustomError::InvalidGreenLabelDisputeId)
    } else if evidence_hash == Key32::zero() {
        Err(CustomError::InvalidGreenLabelEvidenceHash)
    } else {
        Ok(())
    }
}

/// A dispute may be opened against a project under observation or holding
/// the label, with no other dispute open, under the next dispute id and with
/// evidence.
pub fn validate_open_green_label_dispute(
    config_is_paused: bool,
    project_status: GreenLabelStatus,
    active_dispute: Pubkey,
    current_dispute_count: u64,
    expected_dispute_id: u64,
    evidence_hash: Hash32,
) -> (r: ProgramResult<()>)
    ensures
        r == spec_open_dispute(config_is_paused, project_status, active_dispute, current_dispute_count,
            expected_dispute_id, evidence_hash),
{
    if config_is_paused {
        return Err(CustomError::InvalidGreenLabelStatus);
    }
    if !(project_status == GreenLabelStatus::PendingObservation || project_status == GreenLabelStatus::ActiveGreenLabel) {
        return Err(CustomError::InvalidGreenLabelStatus);
    }
    if !active_dispute.is_zero() {
        return Err(CustomError::InvalidGreenLabelActiveDispute);
    }
    let next_dispute_id = match current_dispute_count.checked_add(1) {
        Some(v) => v,
        None => return Err(CustomError::GreenLabelMathOverflow),
    };
    if expected_dispute_id != next_dispute_id {
        return Err(CustomError::InvalidGreenLabelDisputeId);
    }
    if evidence_hash.is_zero() {
        return Err(CustomError::InvalidGreenLabelEvidenceHash);
    }
    Ok(())
}

/// The evidence window ends `dispute_window_seconds` after `now`, the
/// response window `response_window_seconds` after that.
pub fn build_dispute_windows(now: i64, dispute_window_seconds: i64, response_window_seconds: i64) -> (r: ProgramResult<(i64, i64)>)
    ensures
        !(i64::MIN <= now + dispute_window_seconds <= i64::MAX)
            ==> r == Err::<(i64, i64), CustomError>(CustomError::GreenLabelMathOverflow),
        (i64::MIN <= now + dispute_window_seconds <= i64::MAX)
            && !(i64::MIN <= now + dispute_window_seconds + response_window_seconds <= i64::MAX)
            ==> r == Err::<(i64, i64), CustomError>(CustomError::GreenLabelMathOverflow),
        (i64::MIN <= now + dispute_window_seconds <= i64::MAX)
            && (i64::MIN <= now + dispute_window_seconds + response_window_seconds <= i64::MAX)
            ==> r == Ok::<(i64, i64), CustomError>((
                (now + dispute_window_seconds) as i64,
                (now + dispute_window_seconds + response_window_seconds) as i64,
            )),
{
    let evidence_end_ts = match now.checked_add(dispute_window_seconds) {
        Some(v) => v,
        None => return Err(CustomError::GreenLabelMathOverflow),
    };
    let response_end_ts = match evidence_end_ts.checked_add(response_window_seconds) {
        Some(v) => v,
        None => return Err(CustomError::GreenLabelMathOverflow),
    };
    Ok((evidence_end_ts, response_end_ts))
}

/// Opening a dispute marks the project Disputed, points it at the dispute
/// and records the dispute count; nothing else changes.
pub fn record_green_label_dispute_opened(project: &mut GreenLabelProjectV1, dispute_key: Pubkey, expected_dispute_id: u64) -> (r: ProgramResult<()>)
    ensures
        r == Ok::<(), CustomError>(()),
        *final(project) == (GreenLabelProjectV1 {
            status: GreenLabelStatus::Disputed,
            active_dispute: dispute_key,
            dispute_count: expected_dispute_id,
            ..*old(project)
        }),
{
    project.status = GreenLabelStatus::Disputed;
    project.active_dispute = dispute_key;
    project.dispute_count = expected_dispute_id;
    Ok(())
}

/// The outcome of a request to close a dispute's windows.
pub open spec fn spec_mark_ready(
    config_is_paused: bool,
    project_status: GreenLabelStatus,
    project_active_dispute: Pubkey,
    dispute_key: Pubkey,
    dispute_project: Pubkey,
    project_key: Pubkey,
    dispute_status: DisputeStatus,
    now: i64,
    response_end_ts: i64,
) -> ProgramResult<()> {
    if config_is_paused {
        Err(CustomError::InvalidGreenLabelStatus)
    } else if project_status != GreenLabelStatus::Disputed {
        Err(CustomError::InvalidGreenLabelStatus)
    } else if project_active_dispute != dispute_key {
        Err(CustomError::InvalidGreenLabelActiveDispute)
    } else if dispute_project != project_key {
        Err(CustomError::InvalidGreenLabelTargetAccount)
    } else if dispute_status != DisputeStatus::EvidencePeriod && dispute_status != DisputeStatus::ProjectResponsePeriod {
        Err(CustomError::InvalidGreenLabelDisputeStatus)
    } else if now < response_end_ts {
        Err(CustomError::GreenLabelDisputeWindowNotEnded)
    } else {
        Ok(())
    }
}

/// A project's open dispute becomes ready for a decision once its response
/// window has ended.
pub fn validate_mark_dispute_ready(
    config_is_paused: bool,
    project_status: GreenLabelStatus,
    project_active_dispute: Pubkey,
    dispute_key: Pubkey,
    dispute_project: Pubkey,
    project_key: Pubkey,
    dispute_status: DisputeStatus,
    now: i64,
    response_end_ts: i64,
) -> (r: ProgramResult<()>)
    ensures
        r == spec_mark_ready(config_is_paused, project_status, project_active_dispute, dispute_key, dispute_project,
            project_key, dispute_status, now, response_end_ts),
{
    if config_is_paused {
        return Err(CustomError::InvalidGreenLabelStatus);
    }
    if project_status != GreenLabelStatus::Disputed {
        return Err(CustomError::InvalidGreenLabelStatus);
    }
    if project_active_dispute != dispute_key {
        return Err(CustomError::InvalidGreenLabelActiveDispute);
    }
    if dispute_project != project_key {
        return Err(CustomError::InvalidGreenLabelTargetAccount);
    }
    if !(dispute_status == DisputeStatus::EvidencePeriod || dispute_status == DisputeStatus::ProjectResponsePeriod) {
        return Err(CustomError::InvalidGreenLabelDisputeStatus);
    }
    if now < response_end_ts {
        return Err(CustomError::GreenLabelDisputeWindowNotEnded);
    }
    Ok(())
}

/// Marks the dispute ready for a decision; nothing else changes.
pub fn record_dispute_ready_for_decision(dispute: &mut GreenLabelDisputeV1) -> (r: ProgramResult<()>)
    ensures
        r == Ok::<(), CustomError>(()),
        *final(dispute) == (GreenLabelDisputeV1 { status: DisputeStatus::ReadyForDecision, ..*old(dispute) }),
{
    dispute.status = DisputeStatus::ReadyForDecision;
    Ok(())
}

/// A slash proposal decides a slash, a refund proposal a refund.
pub open spec fn spec_proposal_type_matches_action(proposal_type: ProposalType, action_type: ActionType) -> bool {
    ||| proposal_type == ProposalType::GreenLabelSlash && action_type == ActionType::GreenLabelSlash
    ||| proposal_type == ProposalType::GreenLabelRefund && action_type == ActionType::GreenLabelRefund
}

fn proposal_type_matches_action(proposal_type: ProposalType, action_type: ActionType) -> (b: bool)
    ensures
        b == spec_proposal_type_matches_action(proposal_type, action_type),
{
    (proposal_type == ProposalType::GreenLabelSlash && action_type == ActionType::GreenLabelSlash)
        || (proposal_type == ProposalType::GreenLabelRefund && action_type == ActionType::GreenLabelRefund)
}

/// The outcome of a request to link a dispute to a Security Layer decision.
pub open spec fn spec_decision_link(
    config_is_paused: bool,
    project_status: GreenLabelStatus,
    project_active_dispute: Pubkey,
    dispute_key: Pubkey,
    dispute_project: Pubkey,
    project_key: Pubkey,
    dispute_status: DisputeStatus,
    expected_proposal_id: u64,
    expected_action_type: ActionType,
    expected_payload_hash: Hash32,
    proposal_id: u64,
    proposal_type: ProposalType,
    proposal_decision: ProposalDecision,
    queue_proposal_id: u64,
    queue_action_type: ActionType,
    queue_status: ExecutionStatus,
    queue_payload_hash: Hash32,
    queue_target_program: Pubkey,
    expected_program_id: Pubkey,
    queue_target_account: Pubkey,
    expected_target_account: Pubkey,
) -> ProgramResult<()> {
    if config_is_paused {
        Err(CustomError::InvalidGreenLabelStatus)
    } else if project_status != GreenLabelStatus::Disputed {
        Err(CustomError::InvalidGreenLabelStatus)
    } else if project_active_dispute != dispute_key {
        Err(CustomError::InvalidGreenLabelActiveDispute)
    } else if dispute_project != project_key {
        Err(CustomError::InvalidGreenLabelTargetAccount)
    } else if dispute_status != DisputeStatus::ReadyForDecision {
        Err(CustomError::InvalidGreenLabelDisputeStatus)
    } else if expected_payload_hash == Key32::zero() {
        Err(CustomError::InvalidGreenLabelPayloadHash)
    } else if expected_action_type != ActionType::GreenLabelSlash && expected_action_type != ActionType::GreenLabelRefund {
        Err(CustomError::InvalidGreenLabelActionType)
    } else if proposal_id != expected_proposal_id || !spec_proposal_type_matches_action(proposal_type, expected_action_type)
        || proposal_decision != ProposalDecision::Approved {
        Err(CustomError::InvalidGreenLabelSecurityDecision)
    } else if queue_proposal_id != expected_proposal_id || queue_action_type != expected_action_type
        || queue_status != ExecutionStatus::Queued || queue_payload_hash != expected_payload_hash {
        Err(CustomError::InvalidGreenLabelExecutionQueue)
    } else if queue_target_program != expected_program_id {
        Err(CustomError::InvalidGreenLabelTargetProgram)
    } else if queue_target_account != expected_target_account {
        Err(CustomError::InvalidGreenLabelTargetAccount)
    } else {
        Ok(())
    }
}

/// A dispute ready for a decision may be linked to an approved slash or
/// refund decision of the matching proposal type whose queued action carries
/// the same proposal, action and nonzero payload hash and targets this
/// program and the dispute.
pub fn validate_green_label_security_decision_link(
    config_is_paused: bool,
    project_status: GreenLabelStatus,
    project_active_dispute: Pubkey,
    dispute_key: Pubkey,
    dispute_project: Pubkey,
    project_key: Pubkey,
    dispute_status: DisputeStatus,
    expected_proposal_id: u64,
    expected_action_type: ActionType,
    expected_payload_hash: Hash32,
    proposal_id: u64,
    proposal_type: ProposalType,
    proposal_decision: ProposalDecision,
    queue_proposal_id: u64,
    queue_action_type: ActionType,
    queue_status: ExecutionStatus,
    queue_payload_hash: Hash32,
    queue_target_program: Pubkey,
    expected_program_id: Pubkey,
    queue_target_account: Pubkey,
    expected_target_account: Pubkey,
) -> (r: ProgramResult<()>)
    ensures
        r == spec_decision_link(config_is_paused, project_status, project_active_dispute, dispute_key, dispute_project,
            project_key, dispute_status, expected_proposal_id, expected_action_type, expected_payload_hash, proposal_id,
            proposal_type, proposal_decision, queue_proposal_id, queue_action_type, queue_status, queue_payload_hash,
            queue_target_program, expected_program_id, queue_target_account, expected_target_account),
{
    if config_is_paused {
        return Err(CustomError::InvalidGreenLabelStatus);
    }
    if project_status != GreenLabelStatus::Disputed {
        return Err(CustomError::InvalidGreenLabelStatus);
    }
    if project_active_dispute != dispute_key {
        return Err(CustomError::InvalidGreenLabelActiveDispute);
    }
    if dispute_project != project_key {
        return Err(CustomError::InvalidGreenLabelTargetAccount);
    }
    if dispute_status != DisputeStatus::ReadyForDecision {
        return Err(CustomError::InvalidGreenLabelDisputeStatus);
    }
    validate_payload_hash(expected_payload_hash)?;
    if !(expected_action_type == ActionType::GreenLabelSlash || expected_action_type == ActionType::GreenLabelRefund) {
        return Err(CustomError::InvalidGreenLabelActionType);
    }
    if proposal_id != expected_proposal_id {
        return Err(CustomError::InvalidGreenLabelSecurityDecision);
    }
    if !proposal_type_matches_action(proposal_type, expected_action_type) {
        return Err(CustomError::InvalidGreenLabelSecurityDecision);
    }
    if proposal_decision != ProposalDecision::Approved {
        return Err(CustomError::InvalidGreenLabelSecurityDecision);
    }
    if queue_proposal_id != expected_proposal_id {
        return Err(CustomError::InvalidGreenLabelExecutionQueue);
    }
    if queue_action_type != expected_action_type {
        return Err(CustomError::InvalidGreenLabelExecutionQueue);
    }
    if queue_status != ExecutionStatus::Queued {
        return Err(CustomError::InvalidGreenLabelExecutionQueue);
    }
    if queue_payload_hash != expected_payload_hash {
        return Err(CustomError::InvalidGreenLabelExecutionQueue);
    }
    if queue_target_program != expected_program_id {
        return Err(CustomError::InvalidGreenLabelTargetProgram);
    }
    if queue_target_account != expected_target_account {
        return Err(CustomError::InvalidGreenLabelTargetAccount);
    }
    Ok(())
}

/// The project once a decision is linked: queued for the slash or refund,
/// with the decision recorded as its terminal decision.
pub open spec fn spec_linked_project(
    project: GreenLabelProjectV1,
    proposal_id: u64,
    proposal_decision_key: Pubkey,
    execution_queue_item_key: Pubkey,
    payload_hash: Hash32,
    action_type: ActionType,
) -> GreenLabelProjectV1 {
    GreenLabelProjectV1 {
        status: if action_type == ActionType::GreenLabelSlash {
            GreenLabelStatus::SlashQueued
        } else {
            GreenLabelStatus::RefundQueued
        },
        terminal_proposal_id: proposal_id,
        terminal_proposal_decision: proposal_decision_key,
        terminal_execution_queue_item: execution_queue_item_key,
        terminal_payload_hash: payload_hash,
        terminal_action_type: action_type,
        ..project
    }
}

/// The dispute once a decision is linked: its decision queued and recorded.
pub open spec fn spec_linked_dispute(
    dispute: GreenLabelDisputeV1,
    proposal_id: u64,
    proposal_decision_key: Pubkey,
    execution_queue_item_key: Pubkey,
    payload_hash: Hash32,
    action_type: ActionType,
) -> GreenLabelDisputeV1 {
    GreenLabelDisputeV1 {
        status: DisputeStatus::DecisionQueued,
        proposal_id,
        proposal_decision: proposal_decision_key,
        execution_queue_item: execution_queue_item_key,
        payload_hash,
        action_type,
        ..dispute
    }
}

/// Linking a slash (refund) decision queues the project for a slash
/// (refund), marks the dispute's decision queued, and records the decision on
/// both; any other action fails and changes nothing.
pub fn record_green_label_security_decision_link(
    project: &mut GreenLabelProjectV1,
    dispute: &mut GreenLabelDisputeV1,
    proposal_id: u64,
    proposal_decision_key: Pubkey,
    execution_queue_item_key: Pubkey,
    payload_hash: Hash32,
    action_type: ActionType,
) -> (r: ProgramResult<()>)
    ensures
        action_type != ActionType::GreenLabelSlash && action_type != ActionType::GreenLabelRefund ==> {
            &&& r == Err::<(), CustomError>(CustomError::InvalidGreenLabelActionType)
            &&& *final(project) == *old(project)
            &&& *final(dispute) == *old(dispute)
        },
        action_type == ActionType::GreenLabelSlash || action_type == ActionType::GreenLabelRefund ==> {
            &&& r == Ok::<(), CustomError>(())
            &&& *final(project) == spec_linked_project(*old(project), proposal_id, proposal_decision_key,
                execution_queue_item_key, payload_hash, action_type)
            &&& *final(dispute) == spec_linked_dispute(*old(dispute), proposal_id, proposal_decision_key,
                execution_queue_item_key, payload_hash, action_type)
        },
{
    project.status = match action_type {
        ActionType::GreenLabelSlash => GreenLabelStatus::SlashQueued,
        ActionType::GreenLabelRefund => GreenLabelStatus::RefundQueued,
        _ => return Err(CustomError::InvalidGreenLabelActionType),
    };
    dispute.status = DisputeStatus::DecisionQueued;
    dispute.proposal_id = proposal_id;
    dispute.proposal_decision = proposal_decision_key;
    dispute.execution_queue_item = execution_queue_item_key;
    dispute.payload_hash = payload_hash;
    dispute.action_type = action_type;
    project.terminal_proposal_id = proposal_id;
    project.terminal_proposal_decision = proposal_decision_key;
    project.terminal_execution_queue_item = execution_queue_item_key;
    project.terminal_payload_hash = payload_hash;
    project.terminal_action_type = action_type;
    Ok(())
}

/// The status machine agrees with dispute opening: a project accepted for a
/// new dispute has an accepted change to Disputed, and the statuses with such
/// a change are exactly those under observation or holding the label.
pub proof fn law_dispute_opening_follows_status_machine(
    config_is_paused: bool,
    project_status: GreenLabelStatus,
    active_dispute: Pubkey,
    current_dispute_count: u64,
    expected_dispute_id: u64,
    evidence_hash: Hash32,
    has_linked_dispute: bool,
)
    ensures
        spec_open_dispute(config_is_paused, project_status, active_dispute, current_dispute_count, expected_dispute_id,
            evidence_hash) is Ok ==> spec_status_transition(project_status, GreenLabelStatus::Disputed, has_linked_dispute) is Ok,
        spec_status_transition(project_status, GreenLabelStatus::Disputed, has_linked_dispute) is Ok
            <==> (project_status == GreenLabelStatus::PendingObservation || project_status == GreenLabelStatus::ActiveGreenLabel),
{
}

} // verus!
