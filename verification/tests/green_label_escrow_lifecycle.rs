use my_first_solana_program::error::CustomError;
use my_first_solana_program::green_label_escrow::record_green_label_refundable_bond_deposit;
use my_first_solana_program::green_label_escrow_instructions::{
    route_green_label_certification_fee_once_v1_handler, initialize_green_label_certification_fee_policy,
    initialize_green_label_refundable_escrow,
    plan_green_label_certification_fee_once, plan_green_label_escrow_refund,
    plan_green_label_refundable_bond_deposit, TreasuryAccounts,
};
use my_first_solana_program::green_label_escrow::record_green_label_escrow_refunded;
use my_first_solana_program::green_label_fee::record_green_label_certification_fee_receipt_v1;
use my_first_solana_program::keys::Pubkey;
use my_first_solana_program::state::{
    ActionType, BondTier, GreenLabelCertificationFeePolicyV1, GreenLabelCertificationFeeReceiptV1,
    GreenLabelConfigV1, GreenLabelEscrowStatusV1, GreenLabelProjectV1, GreenLabelRefundableEscrowV1,
    GreenLabelStatus, RevenueRoutingStatsV1, RevenueType, TokenAccount, TreasuryConfigV2,
    TreasuryUsdcStateV2,
};

fn key(b: u8) -> Pubkey {
    Pubkey::new_from_array([b; 32])
}

fn mint() -> Pubkey {
    key(2)
}

fn config() -> GreenLabelConfigV1 {
    GreenLabelConfigV1 {
        authority: key(1),
        usdc_mint: mint(),
        min_base_bond_usdc: 299_000_000,
        base_refund_bps: 8_000,
        base_treasury_bps: 2_000,
        observation_period_seconds: 60,
        dispute_window_seconds: 60,
        response_window_seconds: 60,
        project_count: 7,
        treasury_usdc_state_v2: key(36),
        base_bond_treasury_vault: key(4),
        relief_or_risk_vault: key(5),
        vault_authority_v2: key(38),
        security_governance_config: key(40),
        is_paused: false,
        bump: 250,
        reserved: [0; 128],
    }
}

fn project() -> GreenLabelProjectV1 {
    GreenLabelProjectV1 {
        project_id: 7,
        project_owner: key(33),
        project_name_hash: key(9),
        project_url_hash: key(10),
        token_mint: key(11),
        project_treasury_wallet: key(12),
        base_bond_amount: 299_000_000,
        extra_bond_amount: 0,
        total_bond_amount: 299_000_000,
        bond_vault: Pubkey::default(),
        bond_vault_authority: Pubkey::default(),
        bond_tier: BondTier::Base,
        status: GreenLabelStatus::PendingBondDeposit,
        submitted_at: 10,
        observation_start_ts: 0,
        observation_end_ts: 0,
        dispute_count: 0,
        active_dispute: Pubkey::default(),
        approved_at: 0,
        refunded_at: 0,
        slashed_at: 0,
        risk_score_snapshot: 0,
        terminal_proposal_id: 0,
        terminal_proposal_decision: Pubkey::default(),
        terminal_execution_queue_item: Pubkey::default(),
        terminal_payload_hash: Pubkey::default(),
        terminal_action_type: ActionType::Noop,
        bump: 249,
        reserved: [0; 160],
    }
}

fn blank_escrow() -> GreenLabelRefundableEscrowV1 {
    GreenLabelRefundableEscrowV1 {
        authority: Pubkey::default(),
        project: Pubkey::default(),
        project_id: 0,
        payer: Pubkey::default(),
        usdc_mint: Pubkey::default(),
        refundable_vault: Pubkey::default(),
        deposited_amount: 0,
        refundable_amount: 0,
        refunded_amount: 0,
        forfeited_amount: 0,
        deposit_ts: 0,
        refund_available_after: 0,
        status: GreenLabelEscrowStatusV1::Refunded,
        bump: 0,
        vault_bump: 0,
    }
}

#[test]
fn escrow_deposit_then_refund_after_the_refund_date() {
    let config = config();
    let project = project();
    let project_key = key(31);
    let escrow_key = key(50);
    let vault_key = key(51);
    let payer = key(33);

    let mut escrow = blank_escrow();
    assert_eq!(
        initialize_green_label_refundable_escrow(
            &config, &project, project_key, &mut escrow, key(34), mint(), vault_key, 500, 100, 7, 8,
        )
        .unwrap_err(),
        CustomError::InvalidGreenLabelProjectOwner
    );
    initialize_green_label_refundable_escrow(
        &config, &project, project_key, &mut escrow, payer, mint(), vault_key, 500, 100, 7, 8,
    )
    .unwrap();
    assert_eq!(escrow.status, GreenLabelEscrowStatusV1::Locked);
    assert_eq!(escrow.project, project_key);
    assert_eq!(escrow.refundable_vault, vault_key);
    assert_eq!(escrow.deposited_amount, 0);

    let payer_account = TokenAccount { mint: mint(), owner: payer, amount: 10_000 };
    let empty_vault = TokenAccount { mint: mint(), owner: escrow_key, amount: 0 };
    let amount = plan_green_label_refundable_bond_deposit(
        &escrow,
        escrow_key,
        payer,
        &payer_account,
        &empty_vault,
        mint(),
        6,
        4_000,
    )
    .unwrap();
    assert_eq!(amount, 4_000);
    record_green_label_refundable_bond_deposit(&mut escrow, amount, 150).unwrap();
    assert_eq!(escrow.deposited_amount, 4_000);
    assert_eq!(escrow.refundable_amount, 4_000);

    let funded_vault = TokenAccount { mint: mint(), owner: escrow_key, amount: 4_000 };
    let payer_refund = TokenAccount { mint: mint(), owner: payer, amount: 0 };
    assert_eq!(
        plan_green_label_escrow_refund(&escrow, escrow_key, &project, &payer_refund, &funded_vault, mint(), 6, 499)
            .unwrap_err(),
        CustomError::InvalidGreenLabelEscrowRefund
    );
    let refund = plan_green_label_escrow_refund(
        &escrow,
        escrow_key,
        &project,
        &payer_refund,
        &funded_vault,
        mint(),
        6,
        500,
    )
    .unwrap();
    assert_eq!(refund, 4_000);
    record_green_label_escrow_refunded(&mut escrow, refund).unwrap();
    assert_eq!(escrow.status, GreenLabelEscrowStatusV1::Refunded);
    assert!(plan_green_label_escrow_refund(
        &escrow,
        escrow_key,
        &project,
        &payer_refund,
        &funded_vault,
        mint(),
        6,
        600
    )
    .is_err());
}

fn treasury() -> TreasuryAccounts {
    let vault = TokenAccount { mint: mint(), owner: key(38), amount: 0 };
    TreasuryAccounts {
        treasury_config: TreasuryConfigV2 { authority: key(43), usdc_mint: mint(), alpha_mint: key(44), bump: 8 },
        treasury_config_key: key(35),
        treasury_usdc_state: TreasuryUsdcStateV2 {
            total_usdc_inflow: 0,
            relief_usdc_total: 0,
            buyback_usdc_total: 0,
            builders_usdc_total: 0,
            staking_usdc_total: 0,
            bump: 9,
        },
        treasury_usdc_state_key: key(36),
        revenue_routing_stats: RevenueRoutingStatsV1 {
            authority: key(43),
            usdc_mint: mint(),
            total_routed_usdc: 0,
            green_label_certification_fee_total: 0,
            green_label_forfeited_bond_total: 0,
            protocol_service_fee_total: 0,
            platform_revenue_total: 0,
            partnership_revenue_total: 0,
            manual_governance_approved_revenue_total: 0,
            bump: 10,
        },
        revenue_routing_stats_key: key(37),
        vault_authority_key: key(38),
        relief_usdc_vault: vault,
        relief_usdc_vault_key: key(39),
        buyback_usdc_vault: vault,
        buyback_usdc_vault_key: key(40),
        builders_usdc_vault: vault,
        builders_usdc_vault_key: key(41),
        staking_usdc_vault: vault,
        staking_usdc_vault_key: key(42),
    }
}

#[test]
fn certification_fee_is_charged_once_by_policy() {
    let config = config();
    let project = project();
    let config_key = key(30);
    let policy_key = key(32);
    let mut policy = GreenLabelCertificationFeePolicyV1 {
        green_label_config: Pubkey::default(),
        usdc_mint: Pubkey::default(),
        fee_amount_usdc: 0,
        policy_version: 0,
        active: false,
        initialized_by: Pubkey::default(),
        created_at: 0,
        schema_version: 0,
        bump: 0,
    };
    assert_eq!(
        initialize_green_label_certification_fee_policy(&config, config_key, &mut policy, key(99), 1_000_000, 10, 7)
            .unwrap_err(),
        CustomError::UnauthorizedGreenLabelAuthority
    );
    initialize_green_label_certification_fee_policy(&config, config_key, &mut policy, key(1), 1_000_000, 10, 7)
        .unwrap();
    assert!(policy.active);
    assert_eq!(policy.fee_amount_usdc, 1_000_000);

    let payer = key(33);
    let payer_account = TokenAccount { mint: mint(), owner: payer, amount: 2_000_000 };
    let t = treasury();
    let (parameters, parameters_hash) = plan_green_label_certification_fee_once(
        &config,
        config_key,
        &project,
        key(31),
        &policy,
        policy_key,
        payer,
        &payer_account,
        key(34),
        &t,
        mint(),
        6,
    )
    .unwrap();
    assert_eq!(parameters.fee_amount_usdc, 1_000_000);
    assert_eq!(parameters.payer, payer);

    let poor_payer = TokenAccount { mint: mint(), owner: payer, amount: 999_999 };
    assert_eq!(
        plan_green_label_certification_fee_once(
            &config,
            config_key,
            &project,
            key(31),
            &policy,
            policy_key,
            payer,
            &poor_payer,
            key(34),
            &t,
            mint(),
            6,
        )
        .unwrap_err(),
        CustomError::GreenLabelCertificationFeeInsufficientFunds
    );

    let mut receipt = GreenLabelCertificationFeeReceiptV1 {
        green_label_config: Pubkey::default(),
        fee_policy: Pubkey::default(),
        policy_version: 0,
        green_label_project: Pubkey::default(),
        project_id: 0,
        project_owner: Pubkey::default(),
        payer: Pubkey::default(),
        payer_token_account: Pubkey::default(),
        amount_usdc: 0,
        usdc_mint: Pubkey::default(),
        treasury_config: Pubkey::default(),
        treasury_usdc_state: Pubkey::default(),
        revenue_routing_stats: Pubkey::default(),
        relief_usdc_vault: Pubkey::default(),
        buyback_usdc_vault: Pubkey::default(),
        builders_usdc_vault: Pubkey::default(),
        staking_usdc_vault: Pubkey::default(),
        revenue_type: RevenueType::GreenLabelCertificationFee,
        parameters_hash: Pubkey::default(),
        routed_at: 0,
        schema_version: 0,
        bump: 0,
    };
    record_green_label_certification_fee_receipt_v1(&mut receipt, &parameters, parameters_hash, 20, 5, key(45))
        .unwrap();
    assert_eq!(receipt.green_label_project, key(31));
    assert_eq!(receipt.amount_usdc, 1_000_000);
    assert_eq!(receipt.parameters_hash, parameters_hash);
    assert_eq!(
        record_green_label_certification_fee_receipt_v1(&mut receipt, &parameters, parameters_hash, 21, 5, key(45))
            .unwrap_err(),
        CustomError::GreenLabelCertificationFeeAlreadyPaid
    );

    let fresh_receipt = GreenLabelCertificationFeeReceiptV1 {
        green_label_project: Pubkey::default(),
        amount_usdc: 0,
        routed_at: 0,
        parameters_hash: Pubkey::default(),
        payer: Pubkey::default(),
        ..receipt
    };
    let mut once = fresh_receipt;
    let charge = |receipt: &mut GreenLabelCertificationFeeReceiptV1, now: i64| {
        route_green_label_certification_fee_once_v1_handler(
            &config,
            config_key,
            &project,
            key(31),
            &policy,
            policy_key,
            payer,
            &payer_account,
            key(34),
            &t,
            mint(),
            6,
            receipt,
            key(45),
            now,
            5,
        )
    };
    assert_eq!(charge(&mut once, 30), Ok(1_000_000));
    assert_eq!(once.green_label_project, key(31));
    assert_eq!(once.payer, payer);
    assert_eq!(once.amount_usdc, 1_000_000);
    assert_eq!(once.parameters_hash, parameters_hash);
    assert_eq!(once.routed_at, 30);
    let charged = once;
    assert_eq!(charge(&mut once, 31), Err(CustomError::GreenLabelCertificationFeeAlreadyPaid));
    assert_eq!(once, charged);
}
