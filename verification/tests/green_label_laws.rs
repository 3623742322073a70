use my_first_solana_program::constants::MIN_GREEN_LABEL_BASE_BOND_USDC;
use my_first_solana_program::error::CustomError;
use my_first_solana_program::green_label_bond::{
    calculate_bond_tier, calculate_green_label_refund, calculate_green_label_slash_amount,
    split_green_label_bond, validate_green_label_status_transition,
};
use my_first_solana_program::green_label_certification::validate_green_label_certification_status_transition;
use my_first_solana_program::green_label_escrow::{
    derive_green_label_forfeitable_amount_v1, derive_green_label_refund_amount_v1,
    record_green_label_escrow_forfeited, record_green_label_escrow_refunded,
};
use my_first_solana_program::hashing::hash_contributor_payload;
use my_first_solana_program::keys::{Hash32, Pubkey};
use my_first_solana_program::pda::{derive_program_address, program_id, seed_and_code_address, seed_bytes, single_seed_address, Seed};
use my_first_solana_program::state::{
    BondTier, GreenLabelCertificationStatusV1, GreenLabelEscrowStatusV1,
    GreenLabelRefundableEscrowV1, GreenLabelStatus,
};

fn escrow(amount: u64) -> GreenLabelRefundableEscrowV1 {
    GreenLabelRefundableEscrowV1 {
        authority: Pubkey::new_from_array([1; 32]),
        project: Pubkey::new_from_array([2; 32]),
        project_id: 1,
        payer: Pubkey::new_from_array([3; 32]),
        usdc_mint: Pubkey::new_from_array([4; 32]),
        refundable_vault: Pubkey::new_from_array([5; 32]),
        deposited_amount: amount,
        refundable_amount: amount,
        refunded_amount: 0,
        forfeited_amount: 0,
        deposit_ts: 100,
        refund_available_after: 200,
        status: GreenLabelEscrowStatusV1::Locked,
        bump: 7,
        vault_bump: 8,
    }
}

#[test]
fn refund_of_minimum_bond_splits_80_20() {
    let a = calculate_green_label_refund(299_000_000, 0).unwrap();
    assert_eq!(a.base_refund_amount, 239_200_000);
    assert_eq!(a.base_treasury_amount, 59_800_000);
    assert_eq!(a.project_refund_amount, 239_200_000);
    assert_eq!(a.treasury_amount, 59_800_000);
    assert_eq!(a.extra_refund_amount, 0);
}

#[test]
fn refund_returns_extra_bond_in_full_and_conserves_total() {
    let a = calculate_green_label_refund(299_000_000, 1_000_000_000).unwrap();
    assert_eq!(a.project_refund_amount, 1_239_200_000);
    assert_eq!(a.treasury_amount, 59_800_000);
    assert_eq!(a.project_refund_amount + a.treasury_amount, 1_299_000_000);
}

#[test]
fn refund_rejects_base_that_does_not_split_exactly() {
    assert_eq!(
        calculate_green_label_refund(299_000_001, 0).unwrap_err(),
        CustomError::InvalidGreenLabelBondSplit
    );
    assert_eq!(
        calculate_green_label_refund(0, 5).unwrap_err(),
        CustomError::InvalidGreenLabelBondAmount
    );
}

#[test]
fn refund_rejects_overflowing_base() {
    assert_eq!(
        calculate_green_label_refund(u64::MAX, 0).unwrap_err(),
        CustomError::GreenLabelMathOverflow
    );
}

#[test]
fn slash_takes_the_whole_bond() {
    assert_eq!(calculate_green_label_slash_amount(1_299_000_000).unwrap(), 1_299_000_000);
    assert_eq!(
        calculate_green_label_slash_amount(0).unwrap_err(),
        CustomError::InvalidGreenLabelBondAmount
    );
}

#[test]
fn bond_tier_grows_with_the_bond() {
    let min = MIN_GREEN_LABEL_BASE_BOND_USDC;
    assert_eq!(calculate_bond_tier(299_000_000, min).unwrap(), BondTier::Base);
    assert_eq!(calculate_bond_tier(499_999_999, min).unwrap(), BondTier::Base);
    assert_eq!(calculate_bond_tier(500_000_000, min).unwrap(), BondTier::Bronze);
    assert_eq!(calculate_bond_tier(1_000_000_000, min).unwrap(), BondTier::Silver);
    assert_eq!(calculate_bond_tier(3_000_000_000, min).unwrap(), BondTier::Gold);
    assert_eq!(calculate_bond_tier(10_000_000_000, min).unwrap(), BondTier::Platinum);
    assert_eq!(
        calculate_bond_tier(298_999_999, min).unwrap_err(),
        CustomError::InvalidGreenLabelBondAmount
    );
}

#[test]
fn bond_split_takes_configured_minimum_as_base() {
    let split = split_green_label_bond(5_000_000, 1_000_000).unwrap();
    assert_eq!(split.base_bond_amount, 1_000_000);
    assert_eq!(split.extra_bond_amount, 4_000_000);
}

#[test]
fn terminal_statuses_are_final() {
    for to in [
        GreenLabelStatus::PendingBondDeposit,
        GreenLabelStatus::PendingObservation,
        GreenLabelStatus::ActiveGreenLabel,
        GreenLabelStatus::Disputed,
        GreenLabelStatus::RefundQueued,
        GreenLabelStatus::SlashQueued,
        GreenLabelStatus::Refunded,
        GreenLabelStatus::Slashed,
        GreenLabelStatus::Cancelled,
    ] {
        assert_eq!(
            validate_green_label_status_transition(GreenLabelStatus::Refunded, to, true).unwrap_err(),
            CustomError::InvalidGreenLabelStatus
        );
        assert_eq!(
            validate_green_label_status_transition(GreenLabelStatus::Slashed, to, true).unwrap_err(),
            CustomError::InvalidGreenLabelStatus
        );
        assert_eq!(
            validate_green_label_status_transition(GreenLabelStatus::Cancelled, to, true).unwrap_err(),
            CustomError::InvalidGreenLabelStatus
        );
    }
    assert_eq!(
        validate_green_label_status_transition(
            GreenLabelStatus::Disputed,
            GreenLabelStatus::SlashQueued,
            false
        )
        .unwrap_err(),
        CustomError::InvalidGreenLabelSlashWithoutDispute
    );
    validate_green_label_status_transition(
        GreenLabelStatus::RefundQueued,
        GreenLabelStatus::Refunded,
        false,
    )
    .unwrap();
}

#[test]
fn certification_decisions_are_final() {
    let (pending, approved, rejected, revoked) = (
        GreenLabelCertificationStatusV1::Pending,
        GreenLabelCertificationStatusV1::Approved,
        GreenLabelCertificationStatusV1::Rejected,
        GreenLabelCertificationStatusV1::Revoked,
    );
    validate_green_label_certification_status_transition(pending, approved).unwrap();
    validate_green_label_certification_status_transition(pending, rejected).unwrap();
    validate_green_label_certification_status_transition(approved, revoked).unwrap();
    for next in [pending, approved, rejected, revoked] {
        assert_eq!(
            validate_green_label_certification_status_transition(rejected, next).unwrap_err(),
            CustomError::GreenLabelCertificationAlreadyFinalized
        );
        assert_eq!(
            validate_green_label_certification_status_transition(revoked, next).unwrap_err(),
            CustomError::GreenLabelCertificationAlreadyFinalized
        );
    }
}

#[test]
fn escrow_refund_pays_out_once() {
    let mut e = escrow(1_000);
    let amount = derive_green_label_refund_amount_v1(&e).unwrap();
    assert_eq!(amount, 1_000);
    record_green_label_escrow_refunded(&mut e, amount).unwrap();
    assert_eq!(e.refunded_amount, 1_000);
    assert_eq!(e.status, GreenLabelEscrowStatusV1::Refunded);
    assert!(derive_green_label_refund_amount_v1(&e).is_err());
    assert!(derive_green_label_forfeitable_amount_v1(&e).is_err());
}

#[test]
fn escrow_forfeit_pays_out_once() {
    let mut e = escrow(2_500);
    let amount = derive_green_label_forfeitable_amount_v1(&e).unwrap();
    assert_eq!(amount, 2_500);
    record_green_label_escrow_forfeited(&mut e, amount).unwrap();
    assert_eq!(e.forfeited_amount, 2_500);
    assert_eq!(e.status, GreenLabelEscrowStatusV1::Forfeited);
    assert!(derive_green_label_refund_amount_v1(&e).is_err());
    assert!(derive_green_label_forfeitable_amount_v1(&e).is_err());
}

#[test]
fn payload_hash_is_sha256_of_length_prefixed_bytes() {
    let h = hash_contributor_payload(&b"abc".to_vec()).unwrap();
    let expected: [u8; 32] = [
        61, 169, 134, 91, 67, 250, 46, 196, 144, 247, 141, 169, 219, 22, 172, 213, 99, 135, 4,
        219, 206, 92, 199, 179, 223, 46, 60, 122, 35, 173, 223, 25,
    ];
    assert_eq!(h, Hash32::new_from_array(expected));
    let empty = hash_contributor_payload(&Vec::new()).unwrap();
    let expected_empty: [u8; 32] = [
        223, 63, 97, 152, 4, 169, 47, 219, 64, 87, 25, 45, 196, 61, 215, 72, 234, 119, 138, 220,
        82, 188, 73, 140, 232, 5, 36, 192, 20, 184, 17, 25,
    ];
    assert_eq!(empty, Hash32::new_from_array(expected_empty));
}

#[test]
fn program_addresses_depend_on_their_seeds() {
    let (a, bump_a) = single_seed_address(Seed::TreasuryConfigV2).unwrap();
    let (a2, bump_a2) = single_seed_address(Seed::TreasuryConfigV2).unwrap();
    let (b, _) = single_seed_address(Seed::TreasuryUsdcStateV2).unwrap();
    let (c, _) = seed_and_code_address(Seed::ProtocolModuleRegistryV1, 1).unwrap();
    let (d, _) = seed_and_code_address(Seed::ProtocolModuleRegistryV1, 2).unwrap();
    assert_eq!((a, bump_a), (a2, bump_a2));
    assert_ne!(a, b);
    assert_ne!(c, d);
    assert_ne!(a, program_id());
}

#[test]
fn program_address_derivation_reports_unusable_seeds() {
    let too_many: Vec<Vec<u8>> = (0..16u8).map(|i| vec![i]).collect();
    assert_eq!(derive_program_address(&too_many), None);
    let too_long: Vec<Vec<u8>> = vec![vec![7u8; 33]];
    assert_eq!(derive_program_address(&too_long), None);
    let fine: Vec<Vec<u8>> = vec![seed_bytes(Seed::TreasuryConfigV2)];
    assert_eq!(derive_program_address(&fine), single_seed_address(Seed::TreasuryConfigV2));
    assert!(derive_program_address(&fine).is_some());
}

#[test]
fn program_seed_prefixes_are_non_empty_and_distinct() {
    let seeds = [
        Seed::GovernanceConfigV1,
        Seed::ProtocolModuleRegistryV1,
        Seed::ProtocolAuthorityControlV1,
        Seed::TreasuryConfigV2,
        Seed::TreasuryUsdcStateV2,
        Seed::RevenueRoutingStatsV1,
        Seed::VaultAuthorityV2,
        Seed::ReliefUsdcVault,
        Seed::BuybackUsdcVault,
        Seed::BuildersUsdcVault,
        Seed::StakingUsdcVault,
    ];
    let bytes: Vec<Vec<u8>> = seeds.iter().map(|s| seed_bytes(*s)).collect();
    for b in &bytes {
        assert!(!b.is_empty());
        assert!(b.len() <= 32);
    }
    for (i, b) in bytes.iter().enumerate() {
        for other in bytes.iter().skip(i + 1) {
            assert_ne!(b, other);
        }
    }
    assert_eq!(seed_bytes(Seed::VaultAuthorityV2), b"vault_authority_v2".to_vec());
}
