//! Borsh variant tags of the enums that governance payloads carry.
use vstd::prelude::*;
use crate::state::{BondTier, DisputeStatus, GovernanceActionTypeV1, GreenLabelCertificationStatusV1, GreenLabelEscrowStatusV1, GreenLabelStatus, ProtocolAuthorityModeV1, ProtocolModuleIdV1, RevenueType};

verus! {

/// The Borsh variant tag of a `GovernanceActionTypeV1`.
pub open spec fn spec_governance_action_type_v1_tag(x: GovernanceActionTypeV1) -> u8 {
    match x {
        GovernanceActionTypeV1::GreenLabelApproveCertification => 0,
        GovernanceActionTypeV1::GreenLabelRejectCertification => 1,
        GovernanceActionTypeV1::GreenLabelRevokeCertification => 2,
        GovernanceActionTypeV1::GreenLabelRefundBond => 3,
        GovernanceActionTypeV1::GreenLabelSlashBond => 4,
        GovernanceActionTypeV1::ProtocolActivateDaoControl => 5,
        GovernanceActionTypeV1::ProtocolUnpauseSecurity => 6,
    }
}

/// The Borsh variant tag of a `GovernanceActionTypeV1`.
pub fn governance_action_type_v1_tag(x: GovernanceActionTypeV1) -> (t: u8)
    ensures
        t == spec_governance_action_type_v1_tag(x),
{
    match x {
        GovernanceActionTypeV1::GreenLabelApproveCertification => 0,
        GovernanceActionTypeV1::GreenLabelRejectCertification => 1,
        GovernanceActionTypeV1::GreenLabelRevokeCertification => 2,
        GovernanceActionTypeV1::GreenLabelRefundBond => 3,
        GovernanceActionTypeV1::GreenLabelSlashBond => 4,
        GovernanceActionTypeV1::ProtocolActivateDaoControl => 5,
        GovernanceActionTypeV1::ProtocolUnpauseSecurity => 6,
    }
}

/// The Borsh variant tag of a `ProtocolModuleIdV1`.
pub open spec fn spec_protocol_module_id_v1_tag(x: ProtocolModuleIdV1) -> u8 {
    match x {
        ProtocolModuleIdV1::Treasury => 0,
        ProtocolModuleIdV1::GreenLabel => 1,
        ProtocolModuleIdV1::VictimRelief => 2,
        ProtocolModuleIdV1::ScamRegistry => 3,
        ProtocolModuleIdV1::Contributor => 4,
        ProtocolModuleIdV1::Protocol => 5,
    }
}

/// The Borsh variant tag of a `ProtocolModuleIdV1`.
pub fn protocol_module_id_v1_tag(x: ProtocolModuleIdV1) -> (t: u8)
    ensures
        t == spec_protocol_module_id_v1_tag(x),
{
    match x {
        ProtocolModuleIdV1::Treasury => 0,
        ProtocolModuleIdV1::GreenLabel => 1,
        ProtocolModuleIdV1::VictimRelief => 2,
        ProtocolModuleIdV1::ScamRegistry => 3,
        ProtocolModuleIdV1::Contributor => 4,
        ProtocolModuleIdV1::Protocol => 5,
    }
}

/// The Borsh variant tag of a `ProtocolAuthorityModeV1`.
pub open spec fn spec_protocol_authority_mode_v1_tag(x: ProtocolAuthorityModeV1) -> u8 {
    match x {
        ProtocolAuthorityModeV1::Bootstrap => 0,
        ProtocolAuthorityModeV1::DaoControlled => 1,
    }
}

/// The Borsh variant tag of a `ProtocolAuthorityModeV1`.
pub fn protocol_authority_mode_v1_tag(x: ProtocolAuthorityModeV1) -> (t: u8)
    ensures
        t == spec_protocol_authority_mode_v1_tag(x),
{
    match x {
        ProtocolAuthorityModeV1::Bootstrap => 0,
        ProtocolAuthorityModeV1::DaoControlled => 1,
    }
}

/// The Borsh variant tag of a `BondTier`.
pub open spec fn spec_bond_tier_tag(x: BondTier) -> u8 {
    match x {
        BondTier::Base => 0,
        BondTier::Bronze => 1,
        BondTier::Silver => 2,
        BondTier::Gold => 3,
        BondTier::Platinum => 4,
    }
}

/// The Borsh variant tag of a `BondTier`.
pub fn bond_tier_tag(x: BondTier) -> (t: u8)
    ensures
        t == spec_bond_tier_tag(x),
{
    match x {
        BondTier::Base => 0,
        BondTier::Bronze => 1,
        BondTier::Silver => 2,
        BondTier::Gold => 3,
        BondTier::Platinum => 4,
    }
}

/// The Borsh variant tag of a `GreenLabelStatus`.
pub open spec fn spec_green_label_status_tag(x: GreenLabelStatus) -> u8 {
    match x {
        GreenLabelStatus::PendingBondDeposit => 0,
        GreenLabelStatus::PendingObservation => 1,
        GreenLabelStatus::ActiveGreenLabel => 2,
        GreenLabelStatus::Disputed => 3,
        GreenLabelStatus::RefundQueued => 4,
        GreenLabelStatus::SlashQueued => 5,
        GreenLabelStatus::Refunded => 6,
        GreenLabelStatus::Slashed => 7,
        GreenLabelStatus::Cancelled => 8,
    }
}

/// The Borsh variant tag of a `GreenLabelStatus`.
pub fn green_label_status_tag(x: GreenLabelStatus) -> (t: u8)
    ensures
        t == spec_green_label_status_tag(x),
{
    match x {
        GreenLabelStatus::PendingBondDeposit => 0,
        GreenLabelStatus::PendingObservation => 1,
        GreenLabelStatus::ActiveGreenLabel => 2,
        GreenLabelStatus::Disputed => 3,
        GreenLabelStatus::RefundQueued => 4,
        GreenLabelStatus::SlashQueued => 5,
        GreenLabelStatus::Refunded => 6,
        GreenLabelStatus::Slashed => 7,
        GreenLabelStatus::Cancelled => 8,
    }
}

/// The Borsh variant tag of a `DisputeStatus`.
pub open spec fn spec_dispute_status_tag(x: DisputeStatus) -> u8 {
    match x {
        DisputeStatus::EvidencePeriod => 0,
        DisputeStatus::ProjectResponsePeriod => 1,
        DisputeStatus::ReadyForDecision => 2,
        DisputeStatus::DecisionQueued => 3,
        DisputeStatus::ResolvedRefund => 4,
        DisputeStatus::ResolvedSlash => 5,
    }
}

/// The Borsh variant tag of a `DisputeStatus`.
pub fn dispute_status_tag(x: DisputeStatus) -> (t: u8)
    ensures
        t == spec_dispute_status_tag(x),
{
    match x {
        DisputeStatus::EvidencePeriod => 0,
        DisputeStatus::ProjectResponsePeriod => 1,
        DisputeStatus::ReadyForDecision => 2,
        DisputeStatus::DecisionQueued => 3,
        DisputeStatus::ResolvedRefund => 4,
        DisputeStatus::ResolvedSlash => 5,
    }
}

/// The Borsh variant tag of a `GreenLabelCertificationStatusV1`.
pub open spec fn spec_green_label_certification_status_v1_tag(x: GreenLabelCertificationStatusV1) -> u8 {
    match x {
        GreenLabelCertificationStatusV1::Pending => 0,
        GreenLabelCertificationStatusV1::Approved => 1,
        GreenLabelCertificationStatusV1::Rejected => 2,
        GreenLabelCertificationStatusV1::Revoked => 3,
    }
}

/// The Borsh variant tag of a `GreenLabelCertificationStatusV1`.
pub fn green_label_certification_status_v1_tag(x: GreenLabelCertificationStatusV1) -> (t: u8)
    ensures
        t == spec_green_label_certification_status_v1_tag(x),
{
    match x {
        GreenLabelCertificationStatusV1::Pending => 0,
        GreenLabelCertificationStatusV1::Approved => 1,
        GreenLabelCertificationStatusV1::Rejected => 2,
        GreenLabelCertificationStatusV1::Revoked => 3,
    }
}

/// The Borsh variant tag of a `GreenLabelEscrowStatusV1`.
pub open spec fn spec_green_label_escrow_status_v1_tag(x: GreenLabelEscrowStatusV1) -> u8 {
    match x {
        GreenLabelEscrowStatusV1::Locked => 0,
        GreenLabelEscrowStatusV1::Refundable => 1,
        GreenLabelEscrowStatusV1::Refunded => 2,
        GreenLabelEscrowStatusV1::Forfeited => 3,
    }
}

/// The Borsh variant tag of a `GreenLabelEscrowStatusV1`.
pub fn green_label_escrow_status_v1_tag(x: GreenLabelEscrowStatusV1) -> (t: u8)
    ensures
        t == spec_green_label_escrow_status_v1_tag(x),
{
    match x {
        GreenLabelEscrowStatusV1::Locked => 0,
        GreenLabelEscrowStatusV1::Refundable => 1,
        GreenLabelEscrowStatusV1::Refunded => 2,
        GreenLabelEscrowStatusV1::Forfeited => 3,
    }
}

/// The Borsh variant tag of a `RevenueType`.
pub open spec fn spec_revenue_type_tag(x: RevenueType) -> u8 {
    match x {
        RevenueType::GreenLabelCertificationFee => 0,
        RevenueType::GreenLabelForfeitedBond => 1,
        RevenueType::ProtocolServiceFee => 2,
        RevenueType::PlatformRevenue => 3,
        RevenueType::PartnershipRevenue => 4,
        RevenueType::ManualGovernanceApprovedRevenue => 5,
    }
}

/// The Borsh variant tag of a `RevenueType`.
pub fn revenue_type_tag(x: RevenueType) -> (t: u8)
    ensures
        t == spec_revenue_type_tag(x),
{
    match x {
        RevenueType::GreenLabelCertificationFee => 0,
        RevenueType::GreenLabelForfeitedBond => 1,
        RevenueType::ProtocolServiceFee => 2,
        RevenueType::PlatformRevenue => 3,
        RevenueType::PartnershipRevenue => 4,
        RevenueType::ManualGovernanceApprovedRevenue => 5,
    }
}

/// Distinct `GovernanceActionTypeV1` values have distinct tags.
pub proof fn lemma_governance_action_type_v1_tag_injective(a: GovernanceActionTypeV1, b: GovernanceActionTypeV1)
    requires
        spec_governance_action_type_v1_tag(a) == spec_governance_action_type_v1_tag(b),
    ensures
        a == b,
{
}

/// Distinct `ProtocolAuthorityModeV1` values have distinct tags.
pub proof fn lemma_protocol_authority_mode_v1_tag_injective(a: ProtocolAuthorityModeV1, b: ProtocolAuthorityModeV1)
    requires
        spec_protocol_authority_mode_v1_tag(a) == spec_protocol_authority_mode_v1_tag(b),
    ensures
        a == b,
{
}

/// Distinct `BondTier` values have distinct tags.
pub proof fn lemma_bond_tier_tag_injective(a: BondTier, b: BondTier)
    requires
        spec_bond_tier_tag(a) == spec_bond_tier_tag(b),
    ensures
        a == b,
{
}

/// Distinct `GreenLabelStatus` values have distinct tags.
pub proof fn lemma_green_label_status_tag_injective(a: GreenLabelStatus, b: GreenLabelStatus)
    requires
        spec_green_label_status_tag(a) == spec_green_label_status_tag(b),
    ensures
        a == b,
{
}

/// Distinct `DisputeStatus` values have distinct tags.
pub proof fn lemma_dispute_status_tag_injective(a: DisputeStatus, b: DisputeStatus)
    requires
        spec_dispute_status_tag(a) == spec_dispute_status_tag(b),
    ensures
        a == b,
{
}

/// Distinct `GreenLabelCertificationStatusV1` values have distinct tags.
pub proof fn lemma_green_label_certification_status_v1_tag_injective(a: GreenLabelCertificationStatusV1, b: GreenLabelCertificationStatusV1)
    requires
        spec_green_label_certification_status_v1_tag(a) == spec_green_label_certification_status_v1_tag(b),
    ensures
        a == b,
{
}

/// Distinct `GreenLabelEscrowStatusV1` values have distinct tags.
pub proof fn lemma_green_label_escrow_status_v1_tag_injective(a: GreenLabelEscrowStatusV1, b: GreenLabelEscrowStatusV1)
    requires
        spec_green_label_escrow_status_v1_tag(a) == spec_green_label_escrow_status_v1_tag(b),
    ensures
        a == b,
{
}

/// Distinct `RevenueType` values have distinct tags.
pub proof fn lemma_revenue_type_tag_injective(a: RevenueType, b: RevenueType)
    requires
        spec_revenue_type_tag(a) == spec_revenue_type_tag(b),
    ensures
        a == b,
{
}

} // verus!
