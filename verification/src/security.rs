//! The Security Layer: governance config, recorded proposal decisions and the
//! timelocked execution queue, with guardian pause and authority unpause.
use vstd::prelude::*;
use crate::constants::{MAX_EXECUTION_DELAY_SECONDS, MIN_EXECUTION_DELAY_SECONDS};
use crate::governance::spec_proposal_type_for_action;
use crate::error::{CustomError, ProgramResult};
use crate::keys::{Hash32, Key32, Pubkey};
use crate::state::{
    ActionType, ExecutionQueueItemV1, ExecutionStatus, GovernanceConfigV1, ProposalDecision,
    ProposalDecisionV1, ProposalType,
};

verus! {

/// Whether `action_type` may be queued under a proposal of `proposal_type`:
/// `Noop` always, otherwise only the matching action.
pub open spec fn spec_action_valid_for_proposal_type(proposal_type: ProposalType, action_type: ActionType) -> bool {
    ||| action_type == ActionType::Noop
    ||| (proposal_type == ProposalType::GreenLabelSlash && action_type == ActionType::GreenLabelSlash)
    ||| (proposal_type == ProposalType::GreenLabelRefund && action_type == ActionType::GreenLabelRefund)
    ||| (proposal_type == ProposalType::PayrollEmployeeImpeach && action_type == ActionType::PayrollEmployeeImpeach)
    ||| (proposal_type == ProposalType::PayrollPayout && action_type == ActionType::PayrollPayout)
    ||| (proposal_type == ProposalType::TreasuryParamChange && action_type == ActionType::TreasuryParamChange)
    ||| (proposal_type == ProposalType::EmergencyPause && action_type == ActionType::EmergencyPause)
}

/// The queue item after executing it at `now_ts` with `payload_hash`.
pub open spec fn spec_execute_queued_action(
    config: GovernanceConfigV1,
    item: ExecutionQueueItemV1,
    proposal_id: u64,
    payload_hash: Hash32,
    now_ts: i64,
) -> ProgramResult<ExecutionQueueItemV1> {
    if config.is_paused {
        Err(CustomError::SecurityLayerPaused)
    } else if item.proposal_id != proposal_id {
        Err(CustomError::InvalidProposalId)
    } else if item.status != ExecutionStatus::Queued {
        Err(CustomError::InvalidExecutionStatus)
    } else if now_ts < item.execute_after {
        Err(CustomError::ExecutionDelayNotMet)
    } else if item.payload_hash != payload_hash {
        Err(CustomError::PayloadHashMismatch)
    } else {
        Ok(ExecutionQueueItemV1 { executed_at: now_ts, status: ExecutionStatus::Executed, ..item })
    }
}

/// The queue item after `signer` cancels it.
pub open spec fn spec_cancel_queued_action(
    config: GovernanceConfigV1,
    item: ExecutionQueueItemV1,
    signer: Pubkey,
    proposal_id: u64,
) -> ProgramResult<ExecutionQueueItemV1> {
    if signer != config.authority && signer != config.emergency_guardian {
        Err(CustomError::UnauthorizedSecurityAuthority)
    } else if item.proposal_id != proposal_id {
        Err(CustomError::InvalidProposalId)
    } else if item.status != ExecutionStatus::Queued {
        Err(CustomError::InvalidExecutionStatus)
    } else {
        Ok(ExecutionQueueItemV1 { status: ExecutionStatus::Cancelled, ..item })
    }
}

/// The execution delay must lie within the allowed bounds.
pub fn validate_execution_delay(min_execution_delay_seconds: i64) -> (r: ProgramResult<()>)
    ensures
        r == (if MIN_EXECUTION_DELAY_SECONDS <= min_execution_delay_seconds <= MAX_EXECUTION_DELAY_SECONDS {
            Ok::<(), CustomError>(())
        } else {
            Err(CustomError::InvalidExecutionDelay)
        }),
{
    if min_execution_delay_seconds >= MIN_EXECUTION_DELAY_SECONDS
        && min_execution_delay_seconds <= MAX_EXECUTION_DELAY_SECONDS {
        Ok(())
    } else {
        Err(CustomError::InvalidExecutionDelay)
    }
}

/// Whether `action_type` may be queued under a proposal of `proposal_type`.
pub fn is_action_valid_for_proposal_type(proposal_type: ProposalType, action_type: ActionType) -> (b: bool)
    ensures
        b == spec_action_valid_for_proposal_type(proposal_type, action_type),
{
    if action_type == ActionType::Noop {
        return true;
    }
    match (proposal_type, action_type) {
        (ProposalType::GreenLabelSlash, ActionType::GreenLabelSlash) => true,
        (ProposalType::GreenLabelRefund, ActionType::GreenLabelRefund) => true,
        (ProposalType::PayrollEmployeeImpeach, ActionType::PayrollEmployeeImpeach) => true,
        (ProposalType::PayrollPayout, ActionType::PayrollPayout) => true,
        (ProposalType::TreasuryParamChange, ActionType::TreasuryParamChange) => true,
        (ProposalType::EmergencyPause, ActionType::EmergencyPause) => true,
        _ => false,
    }
}

/// Sets up the governance config; the delay must be in bounds and the
/// emergency guardian must be set.
pub fn initialize_governance_config_state(
    governance_config: &mut GovernanceConfigV1,
    authority: Pubkey,
    min_execution_delay_seconds: i64,
    emergency_guardian: Pubkey,
    bump: u8,
) -> (r: ProgramResult<()>)
    ensures
        !(MIN_EXECUTION_DELAY_SECONDS <= min_execution_delay_seconds <= MAX_EXECUTION_DELAY_SECONDS)
            ==> r == Err::<(), CustomError>(CustomError::InvalidExecutionDelay),
        MIN_EXECUTION_DELAY_SECONDS <= min_execution_delay_seconds <= MAX_EXECUTION_DELAY_SECONDS
            && emergency_guardian == Key32::zero()
            ==> r == Err::<(), CustomError>(CustomError::InvalidEmergencyGuardian),
        r is Err ==> *final(governance_config) == *old(governance_config),
        MIN_EXECUTION_DELAY_SECONDS <= min_execution_delay_seconds <= MAX_EXECUTION_DELAY_SECONDS
            && emergency_guardian != Key32::zero() ==> {
            &&& r is Ok
            &&& *final(governance_config) == (GovernanceConfigV1 {
                authority,
                min_execution_delay_seconds,
                proposal_count: 0,
                emergency_guardian,
                is_paused: false,
                bump,
            })
        },
{
    validate_execution_delay(min_execution_delay_seconds)?;
    if emergency_guardian == Key32::default() {
        return Err(CustomError::InvalidEmergencyGuardian);
    }
    governance_config.authority = authority;
    governance_config.min_execution_delay_seconds = min_execution_delay_seconds;
    governance_config.proposal_count = 0;
    governance_config.emergency_guardian = emergency_guardian;
    governance_config.is_paused = false;
    governance_config.bump = bump;
    Ok(())
}

/// Records a finalized proposal decision under the next proposal id.
#[allow(clippy::too_many_arguments)]
pub fn create_proposal_decision_state(
    governance_config: &mut GovernanceConfigV1,
    proposal_decision: &mut ProposalDecisionV1,
    authority: Pubkey,
    expected_proposal_id: u64,
    proposal_type: ProposalType,
    decision: ProposalDecision,
    yes_weight: u64,
    no_weight: u64,
    start_ts: i64,
    end_ts: i64,
    finalized_ts: i64,
    bump: u8,
) -> (r: ProgramResult<()>)
    ensures
        r == (if authority != old(governance_config).authority {
            Err::<(), CustomError>(CustomError::UnauthorizedSecurityAuthority)
        } else if old(governance_config).proposal_count == u64::MAX {
            Err(CustomError::MathOverflow)
        } else if expected_proposal_id != old(governance_config).proposal_count + 1 {
            Err(CustomError::InvalidProposalId)
        } else if decision == ProposalDecision::Pending {
            Err(CustomError::InvalidProposalDecision)
        } else if start_ts > end_ts {
            Err(CustomError::InvalidProposalTime)
        } else {
            Ok(())
        }),
        r is Err ==> *final(governance_config) == *old(governance_config)
            && *final(proposal_decision) == *old(proposal_decision),
        r is Ok ==> {
            &&& *final(proposal_decision) == (ProposalDecisionV1 {
                proposal_id: expected_proposal_id,
                proposal_type,
                proposer: authority,
                decision,
                yes_weight,
                no_weight,
                start_ts,
                end_ts,
                finalized_ts,
                bump,
            })
            &&& *final(governance_config) == (GovernanceConfigV1 { proposal_count: expected_proposal_id, ..*old(governance_config) })
        },
{
    if authority != governance_config.authority {
        return Err(CustomError::UnauthorizedSecurityAuthority);
    }
    let next_proposal_id = match governance_config.proposal_count.checked_add(1) {
        Some(id) => id,
        None => return Err(CustomError::MathOverflow),
    };
    if expected_proposal_id != next_proposal_id {
        return Err(CustomError::InvalidProposalId);
    }
    if decision == ProposalDecision::Pending {
        return Err(CustomError::InvalidProposalDecision);
    }
    if start_ts > end_ts {
        return Err(CustomError::InvalidProposalTime);
    }
    proposal_decision.proposal_id = expected_proposal_id;
    proposal_decision.proposal_type = proposal_type;
    proposal_decision.proposer = authority;
    proposal_decision.decision = decision;
    proposal_decision.yes_weight = yes_weight;
    proposal_decision.no_weight = no_weight;
    proposal_decision.start_ts = start_ts;
    proposal_decision.end_ts = end_ts;
    proposal_decision.finalized_ts = finalized_ts;
    proposal_decision.bump = bump;
    governance_config.proposal_count = expected_proposal_id;
    Ok(())
}

/// Queues an approved (or partially approved) decision's action; it becomes
/// executable after the configured delay.
#[allow(clippy::too_many_arguments)]
pub fn queue_execution_state(
    governance_config: &GovernanceConfigV1,
    proposal_decision: &ProposalDecisionV1,
    execution_queue_item: &mut ExecutionQueueItemV1,
    authority: Pubkey,
    proposal_id: u64,
    action_type: ActionType,
    target_program: Pubkey,
    target_account: Pubkey,
    payload_hash: Hash32,
    now_ts: i64,
    bump: u8,
) -> (r: ProgramResult<()>)
    ensures
        r == (if authority != governance_config.authority {
            Err::<(), CustomError>(CustomError::UnauthorizedSecurityAuthority)
        } else if proposal_decision.proposal_id != proposal_id {
            Err(CustomError::InvalidProposalId)
        } else if !(proposal_decision.decision == ProposalDecision::Approved
            || proposal_decision.decision == ProposalDecision::Partial) {
            Err(CustomError::ProposalNotApproved)
        } else if !spec_action_valid_for_proposal_type(proposal_decision.proposal_type, action_type) {
            Err(CustomError::InvalidActionForProposalType)
        } else if now_ts + governance_config.min_execution_delay_seconds > i64::MAX
            || now_ts + governance_config.min_execution_delay_seconds < i64::MIN {
            Err(CustomError::MathOverflow)
        } else {
            Ok(())
        }),
        r is Err ==> *final(execution_queue_item) == *old(execution_queue_item),
        r is Ok ==> *final(execution_queue_item) == (ExecutionQueueItemV1 {
            proposal_id,
            proposer: proposal_decision.proposer,
            action_type,
            target_program,
            target_account,
            decision: proposal_decision.decision,
            created_at: now_ts,
            execute_after: (now_ts + governance_config.min_execution_delay_seconds) as i64,
            executed_at: 0,
            status: ExecutionStatus::Queued,
            payload_hash,
            bump,
        }),
{
    if authority != governance_config.authority {
        return Err(CustomError::UnauthorizedSecurityAuthority);
    }
    if proposal_decision.proposal_id != proposal_id {
        return Err(CustomError::InvalidProposalId);
    }
    if !(proposal_decision.decision == ProposalDecision::Approved
        || proposal_decision.decision == ProposalDecision::Partial) {
        return Err(CustomError::ProposalNotApproved);
    }
    if !is_action_valid_for_proposal_type(proposal_decision.proposal_type, action_type) {
        return Err(CustomError::InvalidActionForProposalType);
    }
    let execute_after = match now_ts.checked_add(governance_config.min_execution_delay_seconds) {
        Some(t) => t,
        None => return Err(CustomError::MathOverflow),
    };
    execution_queue_item.proposal_id = proposal_id;
    execution_queue_item.proposer = proposal_decision.proposer;
    execution_queue_item.action_type = action_type;
    execution_queue_item.target_program = target_program;
    execution_queue_item.target_account = target_account;
    execution_queue_item.decision = proposal_decision.decision;
    execution_queue_item.created_at = now_ts;
    execution_queue_item.execute_after = execute_after;
    execution_queue_item.executed_at = 0;
    execution_queue_item.status = ExecutionStatus::Queued;
    execution_queue_item.payload_hash = payload_hash;
    execution_queue_item.bump = bump;
    Ok(())
}

/// Executes a queued item once its delay has passed and its payload matches.
pub fn execute_queued_action_state(
    governance_config: &GovernanceConfigV1,
    execution_queue_item: &mut ExecutionQueueItemV1,
    proposal_id: u64,
    payload_hash: Hash32,
    now_ts: i64,
) -> (r: ProgramResult<()>)
    ensures
        match spec_execute_queued_action(*governance_config, *old(execution_queue_item), proposal_id, payload_hash, now_ts) {
            Ok(item) => r is Ok && *final(execution_queue_item) == item,
            Err(e) => r == Err::<(), CustomError>(e) && *final(execution_queue_item) == *old(execution_queue_item),
        },
{
    if governance_config.is_paused {
        return Err(CustomError::SecurityLayerPaused);
    }
    if execution_queue_item.proposal_id != proposal_id {
        return Err(CustomError::InvalidProposalId);
    }
    if execution_queue_item.status != ExecutionStatus::Queued {
        return Err(CustomError::InvalidExecutionStatus);
    }
    if now_ts < execution_queue_item.execute_after {
        return Err(CustomError::ExecutionDelayNotMet);
    }
    if execution_queue_item.payload_hash != payload_hash {
        return Err(CustomError::PayloadHashMismatch);
    }
    execution_queue_item.executed_at = now_ts;
    execution_queue_item.status = ExecutionStatus::Executed;
    Ok(())
}

/// Cancels a queued item; only the authority or the emergency guardian may.
pub fn cancel_queued_action_state(
    governance_config: &GovernanceConfigV1,
    execution_queue_item: &mut ExecutionQueueItemV1,
    signer: Pubkey,
    proposal_id: u64,
) -> (r: ProgramResult<()>)
    ensures
        match spec_cancel_queued_action(*governance_config, *old(execution_queue_item), signer, proposal_id) {
            Ok(item) => r is Ok && *final(execution_queue_item) == item,
            Err(e) => r == Err::<(), CustomError>(e) && *final(execution_queue_item) == *old(execution_queue_item),
        },
{
    let is_authorized = signer == governance_config.authority || signer == governance_config.emergency_guardian;
    if !is_authorized {
        return Err(CustomError::UnauthorizedSecurityAuthority);
    }
    if execution_queue_item.proposal_id != proposal_id {
        return Err(CustomError::InvalidProposalId);
    }
    if execution_queue_item.status != ExecutionStatus::Queued {
        return Err(CustomError::InvalidExecutionStatus);
    }
    execution_queue_item.status = ExecutionStatus::Cancelled;
    Ok(())
}

/// Pauses the Security Layer; only the emergency guardian may.
pub fn pause_security_layer_state(governance_config: &mut GovernanceConfigV1, emergency_guardian: Pubkey) -> (r: ProgramResult<()>)
    ensures
        emergency_guardian == old(governance_config).emergency_guardian ==> r is Ok
            && *final(governance_config) == (GovernanceConfigV1 { is_paused: true, ..*old(governance_config) }),
        emergency_guardian != old(governance_config).emergency_guardian
            ==> r == Err::<(), CustomError>(CustomError::UnauthorizedEmergencyGuardian)
            && *final(governance_config) == *old(governance_config),
{
    if emergency_guardian != governance_config.emergency_guardian {
        return Err(CustomError::UnauthorizedEmergencyGuardian);
    }
    governance_config.is_paused = true;
    Ok(())
}

/// Unpauses the Security Layer; only the authority may.
pub fn unpause_security_layer_state(governance_config: &mut GovernanceConfigV1, authority: Pubkey) -> (r: ProgramResult<()>)
    ensures
        authority == old(governance_config).authority ==> r is Ok
            && *final(governance_config) == (GovernanceConfigV1 { is_paused: false, ..*old(governance_config) }),
        authority != old(governance_config).authority
            ==> r == Err::<(), CustomError>(CustomError::UnauthorizedSecurityAuthority)
            && *final(governance_config) == *old(governance_config),
{
    if authority != governance_config.authority {
        return Err(CustomError::UnauthorizedSecurityAuthority);
    }
    governance_config.is_paused = false;
    Ok(())
}

/// A queue item executes at most once: once executed (or cancelled) every
/// further execution attempt is refused.
pub proof fn law_queue_item_executes_at_most_once(
    config: GovernanceConfigV1,
    item: ExecutionQueueItemV1,
    proposal_id: u64,
    payload_hash: Hash32,
    now_ts: i64,
)
    requires
        item.status != ExecutionStatus::Queued,
    ensures
        spec_execute_queued_action(config, item, proposal_id, payload_hash, now_ts) is Err,
{
}

/// An execution succeeds only for an unpaused layer, a queued item of the named
/// proposal, after its delay, with its exact payload hash.
pub proof fn law_execution_requires_delay_and_payload(
    config: GovernanceConfigV1,
    item: ExecutionQueueItemV1,
    proposal_id: u64,
    payload_hash: Hash32,
    now_ts: i64,
)
    requires
        spec_execute_queued_action(config, item, proposal_id, payload_hash, now_ts) is Ok,
    ensures
        !config.is_paused,
        item.status == ExecutionStatus::Queued,
        item.proposal_id == proposal_id,
        now_ts >= item.execute_after,
        item.payload_hash == payload_hash,
{
}

/// A cancelled item can never be executed.
pub proof fn law_cancelled_item_never_executes(
    config: GovernanceConfigV1,
    item: ExecutionQueueItemV1,
    signer: Pubkey,
    proposal_id: u64,
    exec_proposal_id: u64,
    payload_hash: Hash32,
    now_ts: i64,
)
    requires
        spec_cancel_queued_action(config, item, signer, proposal_id) is Ok,
    ensures
        spec_execute_queued_action(
            config,
            spec_cancel_queued_action(config, item, signer, proposal_id)->Ok_0,
            exec_proposal_id,
            payload_hash,
            now_ts,
        ) is Err,
{
}

/// Each action the Security Layer queues for its own proposal kinds (a
/// Green Label slash or refund, a payroll impeachment or payout, a treasury
/// parameter change, an emergency pause) is accepted under the proposal type
/// that authorizes it; an action other than `Noop` is accepted under no other
/// type; and `Noop` is accepted under every type.
pub proof fn law_proposal_type_accepts_its_own_action(action: ActionType, proposal_type: ProposalType)
    ensures
        action == ActionType::GreenLabelSlash || action == ActionType::GreenLabelRefund
            || action == ActionType::PayrollEmployeeImpeach || action == ActionType::PayrollPayout
            || action == ActionType::TreasuryParamChange || action == ActionType::EmergencyPause
            ==> spec_proposal_type_for_action(action) is Some
                && spec_action_valid_for_proposal_type(spec_proposal_type_for_action(action)->Some_0, action),
        action != ActionType::Noop && spec_action_valid_for_proposal_type(proposal_type, action)
            ==> spec_proposal_type_for_action(action) == Some(proposal_type),
        spec_action_valid_for_proposal_type(proposal_type, ActionType::Noop),
{
}

/// The governance authority and the emergency guardian may each cancel a
/// queued item of the named proposal, which then becomes Cancelled and
/// nothing else about it changes; any other signer is refused.
pub proof fn law_authority_or_guardian_may_cancel(
    config: GovernanceConfigV1,
    item: ExecutionQueueItemV1,
    signer: Pubkey,
    proposal_id: u64,
)
    ensures
        (signer == config.authority || signer == config.emergency_guardian) && item.proposal_id == proposal_id
            && item.status == ExecutionStatus::Queued
            ==> spec_cancel_queued_action(config, item, signer, proposal_id)
                == Ok::<ExecutionQueueItemV1, CustomError>(ExecutionQueueItemV1 { status: ExecutionStatus::Cancelled, ..item }),
        signer != config.authority && signer != config.emergency_guardian
            ==> spec_cancel_queued_action(config, item, signer, proposal_id)
                == Err::<ExecutionQueueItemV1, CustomError>(CustomError::UnauthorizedSecurityAuthority),
{
}

} // verus!
