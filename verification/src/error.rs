//! The program's error codes.
use vstd::prelude::*;

verus! {

/// Every error the program's instructions can return.
#[derive(Clone, Copy, Debug, PartialEq, Eq, Structural)]
pub enum CustomError {
    ClaimAmountTooSmall,
    ExecutionDelayNotMet,
    GovernanceActionModuleMismatch,
    GovernanceProposalActionMismatch,
    GovernanceProposalActionMissing,
    GreenLabelCertificationActionMismatch,
    GreenLabelCertificationAlreadyFinalized,
    GreenLabelCertificationExecutionAlreadyCompleted,
    GreenLabelCertificationFeeAlreadyPaid,
    GreenLabelCertificationFeeDecimalsMismatch,
    GreenLabelCertificationFeeInsufficientFunds,
    GreenLabelCertificationFeeMintMismatch,
    GreenLabelCertificationFeeParametersMismatch,
    GreenLabelCertificationFeePayerMismatch,
    GreenLabelCertificationFeePolicyAlreadyInitialized,
    GreenLabelCertificationFeePolicyInactive,
    GreenLabelCertificationFeeProjectMismatch,
    GreenLabelCertificationFeeStatusMismatch,
    GreenLabelCertificationFeeTreasuryMismatch,
    GreenLabelCertificationNotApproved,
    GreenLabelCertificationParametersMismatch,
    GreenLabelCertificationStateMismatch,
    GreenLabelCertificationTargetMismatch,
    GreenLabelDisputeWindowNotEnded,
    GreenLabelEscrowAlreadyForfeited,
    GreenLabelEscrowAlreadyRefunded,
    GreenLabelForfeitActionMismatch,
    GreenLabelForfeitAmountMismatch,
    GreenLabelForfeitDecisionMismatch,
    GreenLabelForfeitDisputeMismatch,
    GreenLabelForfeitExecutionAlreadyCompleted,
    GreenLabelForfeitInsufficientFunds,
    GreenLabelForfeitMintMismatch,
    GreenLabelForfeitNotEligible,
    GreenLabelForfeitParametersMismatch,
    GreenLabelForfeitTargetMismatch,
    GreenLabelForfeitVaultMismatch,
    GreenLabelInsufficientBondVaultBalance,
    GreenLabelMathOverflow,
    GreenLabelObservationPeriodNotComplete,
    GreenLabelRefundActionMismatch,
    GreenLabelRefundAmountMismatch,
    GreenLabelRefundExecutionAlreadyCompleted,
    GreenLabelRefundInsufficientFunds,
    GreenLabelRefundMintMismatch,
    GreenLabelRefundNotEligible,
    GreenLabelRefundParametersMismatch,
    GreenLabelRefundTargetMismatch,
    GreenLabelRefundVaultMismatch,
    GreenLabelRefundWrongDestination,
    GreenLabelRefundWrongPayer,
    GreenLabelTimelockNotSatisfied,
    GreenLabelUnresolvedDispute,
    InsufficientVaultBalance,
    InvalidActionForProposalType,
    InvalidAmount,
    InvalidEmergencyGuardian,
    InvalidExecutionDelay,
    InvalidExecutionStatus,
    InvalidGovernanceAction,
    InvalidGovernanceDecisionAdapter,
    InvalidGovernanceProposal,
    InvalidGreenLabelActionType,
    InvalidGreenLabelActiveDispute,
    InvalidGreenLabelBondAmount,
    InvalidGreenLabelBondSplit,
    InvalidGreenLabelBondVaultState,
    InvalidGreenLabelBpsConfig,
    InvalidGreenLabelCertificationFeeAmount,
    InvalidGreenLabelCertificationFeePolicySchema,
    InvalidGreenLabelCertificationSchema,
    InvalidGreenLabelDisputeId,
    InvalidGreenLabelDisputeStatus,
    InvalidGreenLabelEscrowAmount,
    InvalidGreenLabelEscrowRefund,
    InvalidGreenLabelEscrowStatus,
    InvalidGreenLabelEvidenceHash,
    InvalidGreenLabelExecutionQueue,
    InvalidGreenLabelForfeitSchema,
    InvalidGreenLabelMint,
    InvalidGreenLabelPayloadHash,
    InvalidGreenLabelProjectId,
    InvalidGreenLabelProjectOwner,
    InvalidGreenLabelRefundSchema,
    InvalidGreenLabelSecurityDecision,
    InvalidGreenLabelSlashWithoutDispute,
    InvalidGreenLabelStatus,
    InvalidGreenLabelTargetAccount,
    InvalidGreenLabelTargetProgram,
    InvalidGreenLabelTokenAccount,
    InvalidGreenLabelWindowConfig,
    InvalidLockTier,
    InvalidMint,
    InvalidProposalDecision,
    InvalidProposalId,
    InvalidProposalTime,
    InvalidProtocolAuthorityMode,
    InvalidProtocolAuthorityModeTransition,
    InvalidProtocolAuthoritySchema,
    InvalidProtocolModuleCode,
    InvalidProtocolModuleRegistrySchema,
    InvalidStakeOwner,
    InvalidTokenAccount,
    InvalidVault,
    LegacyGreenLabelCertificationFeeRouteDisabled,
    LegacyGreenLabelForfeitDisabled,
    LegacyGreenLabelSlashDisabled,
    LockPeriodNotEnded,
    MathOverflow,
    PayloadHashMismatch,
    ProposalNotApproved,
    ProtocolAuthorityActionMismatch,
    ProtocolAuthorityControlMismatch,
    ProtocolAuthorityControlNotBootstrap,
    ProtocolAuthorityControlNotDaoControlled,
    ProtocolAuthorityParametersMismatch,
    ProtocolAuthorityReceiptAlreadyExists,
    ProtocolAuthorityTargetMismatch,
    ProtocolModuleDisabled,
    ProtocolModuleGovernanceConfigMismatch,
    ProtocolModuleProgramMismatch,
    ProtocolModuleRegistryMismatch,
    ProtocolSecurityUnpauseNotEligible,
    SecurityLayerPaused,
    StakeLockTierMismatch,
    UnauthorizedEmergencyGuardian,
    UnauthorizedGreenLabelAuthority,
    UnauthorizedSecurityAuthority,
    UnauthorizedTreasuryAuthority,
    VaultBalanceBelowObserved,
}

/// The program's result type.
pub type ProgramResult<T> = Result<T, CustomError>;

/// One `require!`: when `ok` holds the outcome is `rest`, otherwise the error `e`.
pub open spec fn guard<T>(ok: bool, e: CustomError, rest: Result<T, CustomError>) -> Result<T, CustomError> {
    if ok {
        rest
    } else {
        Err(e)
    }
}

/// A sub-validation followed by the rest: its error if it fails, else `rest`.
pub open spec fn and_then<T>(first: Result<(), CustomError>, rest: Result<T, CustomError>) -> Result<T, CustomError> {
    match first {
        Ok(_) => rest,
        Err(e) => Err(e),
    }
}

} // verus!
