use anchor_lang::prelude::Pubkey as AnchorPubkey;
use anchor_lang::AnchorSerialize;
use my_first_solana_program::authority_control::{
    ProtocolActivateDaoControlHashEnvelopeV1, ProtocolUnpauseSecurityHashEnvelopeV1,
};
use my_first_solana_program::green_label_certification::GreenLabelCertificationDecisionParametersV1;
use my_first_solana_program::green_label_escrow_params::{GreenLabelForfeitParametersV1, GreenLabelRefundParametersV1};
use my_first_solana_program::green_label_fee::GreenLabelCertificationFeeParametersV1;
use my_first_solana_program::keys::Pubkey;
use my_first_solana_program::state::{
    BondTier, DisputeStatus, GovernanceActionTypeV1, GreenLabelCertificationStatusV1, GreenLabelEscrowStatusV1,
    GreenLabelStatus, ProtocolActivateDaoControlParametersV1, ProtocolAuthorityModeV1,
    ProtocolUnpauseSecurityParametersV1, RevenueType,
};

/// A key whose bytes are all different, starting at `seed`.
fn key_bytes(seed: u8) -> [u8; 32] {
    let mut bytes = [0u8; 32];
    for (i, b) in bytes.iter_mut().enumerate() {
        *b = seed.wrapping_mul(31).wrapping_add(i as u8);
    }
    bytes
}

fn key(seed: u8) -> Pubkey {
    Pubkey::new_from_array(key_bytes(seed))
}

/// Appends the Borsh encoding of a value, as the Anchor runtime writes it.
fn put<T: AnchorSerialize>(out: &mut Vec<u8>, value: &T) {
    AnchorSerialize::serialize(value, out).unwrap();
}

fn put_key(out: &mut Vec<u8>, seed: u8) {
    put(out, &AnchorPubkey::new_from_array(key_bytes(seed)));
}

/// A unit enum variant is written as its position in the declaration.
fn put_variant(out: &mut Vec<u8>, position: u8) {
    put(out, &position);
}

#[test]
fn certification_decision_parameters_match_borsh() {
    let params = GreenLabelCertificationDecisionParametersV1 {
        schema_version: 1,
        green_label_config: key(1),
        green_label_project: key(2),
        certification_state: key(3),
        action_type: GovernanceActionTypeV1::GreenLabelRevokeCertification,
        project_authority: key(4),
        bond_tier: BondTier::Gold,
        bond_vault: key(5),
        usdc_mint: key(6),
        observation_end_ts: -1_234_567_890_123,
        expected_project_status: GreenLabelStatus::ActiveGreenLabel,
        expected_certification_status: GreenLabelCertificationStatusV1::Approved,
        proposal_id: 0x0102_0304_0506_0708,
    };
    let mut ours = Vec::new();
    params.serialize(&mut ours).unwrap();

    let mut borsh = Vec::new();
    put(&mut borsh, &1u16);
    put_key(&mut borsh, 1);
    put_key(&mut borsh, 2);
    put_key(&mut borsh, 3);
    put_variant(&mut borsh, 2);
    put_key(&mut borsh, 4);
    put_variant(&mut borsh, 3);
    put_key(&mut borsh, 5);
    put_key(&mut borsh, 6);
    put(&mut borsh, &-1_234_567_890_123i64);
    put_variant(&mut borsh, 2);
    put_variant(&mut borsh, 1);
    put(&mut borsh, &0x0102_0304_0506_0708u64);
    assert_eq!(ours, borsh);
}

#[test]
fn certification_fee_parameters_match_borsh() {
    let params = GreenLabelCertificationFeeParametersV1 {
        schema_version: 1,
        green_label_config: key(1),
        fee_policy: key(2),
        policy_version: 7,
        green_label_project: key(3),
        project_id: 99_000_000_001,
        project_owner: key(4),
        payer: key(5),
        payer_token_account: key(6),
        fee_amount_usdc: 250_000_000,
        usdc_mint: key(7),
        treasury_config: key(8),
        treasury_usdc_state: key(9),
        revenue_routing_stats: key(10),
        relief_usdc_vault: key(11),
        buyback_usdc_vault: key(12),
        builders_usdc_vault: key(13),
        staking_usdc_vault: key(14),
        revenue_type: RevenueType::GreenLabelCertificationFee,
    };
    let mut ours = Vec::new();
    params.serialize(&mut ours).unwrap();

    let mut borsh = Vec::new();
    put(&mut borsh, &1u16);
    put_key(&mut borsh, 1);
    put_key(&mut borsh, 2);
    put(&mut borsh, &7u64);
    put_key(&mut borsh, 3);
    put(&mut borsh, &99_000_000_001u64);
    put_key(&mut borsh, 4);
    put_key(&mut borsh, 5);
    put_key(&mut borsh, 6);
    put(&mut borsh, &250_000_000u64);
    for seed in 7..=14u8 {
        put_key(&mut borsh, seed);
    }
    put_variant(&mut borsh, 0);
    assert_eq!(ours, borsh);
}

#[test]
fn refund_parameters_match_borsh() {
    let params = GreenLabelRefundParametersV1 {
        schema_version: 1,
        green_label_config: key(1),
        green_label_project: key(2),
        green_label_dispute: key(3),
        refundable_escrow: key(4),
        refundable_vault: key(5),
        original_payer: key(6),
        payer_destination_token_account: key(7),
        refund_amount_usdc: 1_500_000_000,
        usdc_mint: key(8),
        expected_escrow_status: GreenLabelEscrowStatusV1::Refundable,
        proposal_id: 42,
        action_type: GovernanceActionTypeV1::GreenLabelRefundBond,
    };
    let mut ours = Vec::new();
    params.serialize(&mut ours).unwrap();

    let mut borsh = Vec::new();
    put(&mut borsh, &1u16);
    for seed in 1..=7u8 {
        put_key(&mut borsh, seed);
    }
    put(&mut borsh, &1_500_000_000u64);
    put_key(&mut borsh, 8);
    put_variant(&mut borsh, 1);
    put(&mut borsh, &42u64);
    put_variant(&mut borsh, 3);
    assert_eq!(ours, borsh);
}

#[test]
fn forfeit_parameters_match_borsh() {
    let params = GreenLabelForfeitParametersV1 {
        schema_version: 1,
        green_label_config: key(1),
        green_label_project: key(2),
        green_label_dispute: key(3),
        refundable_escrow: key(4),
        refundable_vault: key(5),
        forfeited_amount_usdc: 3_000_000_000,
        treasury_config: key(6),
        treasury_usdc_state: key(7),
        revenue_routing_stats: key(8),
        relief_usdc_vault: key(9),
        buyback_usdc_vault: key(10),
        builders_usdc_vault: key(11),
        staking_usdc_vault: key(12),
        usdc_mint: key(13),
        revenue_type: RevenueType::GreenLabelForfeitedBond,
        expected_escrow_status: GreenLabelEscrowStatusV1::Locked,
        expected_project_status: GreenLabelStatus::SlashQueued,
        expected_dispute_status: DisputeStatus::DecisionQueued,
        action_type: GovernanceActionTypeV1::GreenLabelSlashBond,
        proposal_id: 0xffff_ffff_ffff_fffe,
    };
    let mut ours = Vec::new();
    params.serialize(&mut ours).unwrap();

    let mut borsh = Vec::new();
    put(&mut borsh, &1u16);
    for seed in 1..=5u8 {
        put_key(&mut borsh, seed);
    }
    put(&mut borsh, &3_000_000_000u64);
    for seed in 6..=13u8 {
        put_key(&mut borsh, seed);
    }
    put_variant(&mut borsh, 1);
    put_variant(&mut borsh, 0);
    put_variant(&mut borsh, 5);
    put_variant(&mut borsh, 3);
    put_variant(&mut borsh, 4);
    put(&mut borsh, &0xffff_ffff_ffff_fffeu64);
    assert_eq!(ours, borsh);
}

#[test]
fn activate_dao_control_envelope_matches_borsh() {
    let envelope = ProtocolActivateDaoControlHashEnvelopeV1 {
        domain_separator: b"activate-domain".to_vec(),
        parameters: ProtocolActivateDaoControlParametersV1 {
            schema_version: 1,
            authority_control: key(1),
            governance_config: key(2),
            expected_mode: ProtocolAuthorityModeV1::Bootstrap,
            next_mode: ProtocolAuthorityModeV1::DaoControlled,
            current_authority: key(3),
            emergency_guardian: key(4),
            governance_proposal: key(5),
            governance_proposal_action: key(6),
            proposal_decision: key(7),
            execution_queue_item: key(8),
            action_type: GovernanceActionTypeV1::ProtocolActivateDaoControl,
        },
    };
    let mut ours = Vec::new();
    envelope.serialize(&mut ours).unwrap();

    let mut borsh = Vec::new();
    put(&mut borsh, &b"activate-domain".to_vec());
    put(&mut borsh, &1u16);
    put_key(&mut borsh, 1);
    put_key(&mut borsh, 2);
    put_variant(&mut borsh, 0);
    put_variant(&mut borsh, 1);
    for seed in 3..=8u8 {
        put_key(&mut borsh, seed);
    }
    put_variant(&mut borsh, 5);
    assert_eq!(ours, borsh);
}

#[test]
fn unpause_security_envelope_matches_borsh() {
    let envelope = ProtocolUnpauseSecurityHashEnvelopeV1 {
        domain_separator: b"unpause-domain".to_vec(),
        parameters: ProtocolUnpauseSecurityParametersV1 {
            schema_version: 1,
            authority_control: key(1),
            governance_config: key(2),
            expected_mode: ProtocolAuthorityModeV1::DaoControlled,
            expected_paused: true,
            next_paused: false,
            action_type: GovernanceActionTypeV1::ProtocolUnpauseSecurity,
            governance_proposal: key(3),
            governance_proposal_action: key(4),
            proposal_decision: key(5),
            execution_queue_item: key(6),
            proposal_id: 77,
        },
    };
    let mut ours = Vec::new();
    envelope.serialize(&mut ours).unwrap();

    let mut borsh = Vec::new();
    put(&mut borsh, &b"unpause-domain".to_vec());
    put(&mut borsh, &1u16);
    put_key(&mut borsh, 1);
    put_key(&mut borsh, 2);
    put_variant(&mut borsh, 1);
    put(&mut borsh, &true);
    put(&mut borsh, &false);
    put_variant(&mut borsh, 6);
    for seed in 3..=6u8 {
        put_key(&mut borsh, seed);
    }
    put(&mut borsh, &77u64);
    assert_eq!(ours, borsh);
}

#[test]
fn parameters_differing_in_one_field_encode_differently() {
    let base = GreenLabelRefundParametersV1 {
        schema_version: 1,
        green_label_config: key(1),
        green_label_project: key(2),
        green_label_dispute: key(3),
        refundable_escrow: key(4),
        refundable_vault: key(5),
        original_payer: key(6),
        payer_destination_token_account: key(7),
        refund_amount_usdc: 1_500_000_000,
        usdc_mint: key(8),
        expected_escrow_status: GreenLabelEscrowStatusV1::Refundable,
        proposal_id: 42,
        action_type: GovernanceActionTypeV1::GreenLabelRefundBond,
    };
    let variants = [
        GreenLabelRefundParametersV1 { proposal_id: 43, ..base },
        GreenLabelRefundParametersV1 { refund_amount_usdc: 1_500_000_001, ..base },
        GreenLabelRefundParametersV1 { original_payer: key(9), ..base },
        GreenLabelRefundParametersV1 { expected_escrow_status: GreenLabelEscrowStatusV1::Locked, ..base },
    ];
    let mut encoded = Vec::new();
    base.serialize(&mut encoded).unwrap();
    for variant in variants {
        let mut other = Vec::new();
        variant.serialize(&mut other).unwrap();
        assert_ne!(encoded, other);
    }
}
