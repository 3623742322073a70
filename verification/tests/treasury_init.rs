use my_first_solana_program::keys::Key32;
use my_first_solana_program::state::{TreasuryConfigV2, TreasuryState, TreasuryUsdcStateV2};
use my_first_solana_program::treasury::{initialize_protocol_state, initialize_usdc_treasury_state};

#[test]
fn protocol_treasury_starts_with_empty_pools() {
    let mut state = TreasuryState {
        authority: Key32::default(),
        total_inflow: 9,
        relief_pool: 9,
        buyback_pool: 9,
        payroll_pool: 9,
        staking_pool: 9,
        bump: 0,
    };
    initialize_protocol_state(&mut state, Key32::new_from_array([1; 32]), 7);
    assert_eq!(state.authority, Key32::new_from_array([1; 32]));
    assert_eq!(state.total_inflow, 0);
    assert_eq!(state.relief_pool + state.buyback_pool + state.payroll_pool + state.staking_pool, 0);
    assert_eq!(state.bump, 7);
}

#[test]
fn usdc_treasury_records_mints_and_zero_totals() {
    let mut config = TreasuryConfigV2 {
        authority: Key32::default(),
        usdc_mint: Key32::default(),
        alpha_mint: Key32::default(),
        bump: 0,
    };
    let mut totals = TreasuryUsdcStateV2 {
        total_usdc_inflow: 5,
        relief_usdc_total: 5,
        buyback_usdc_total: 5,
        builders_usdc_total: 5,
        staking_usdc_total: 5,
        bump: 0,
    };
    initialize_usdc_treasury_state(
        &mut config,
        &mut totals,
        Key32::new_from_array([1; 32]),
        Key32::new_from_array([2; 32]),
        Key32::new_from_array([3; 32]),
        8,
        9,
    );
    assert_eq!(config.usdc_mint, Key32::new_from_array([2; 32]));
    assert_eq!(config.alpha_mint, Key32::new_from_array([3; 32]));
    assert_eq!(config.bump, 8);
    assert_eq!(totals.total_usdc_inflow, 0);
    assert_eq!(totals.staking_usdc_total, 0);
    assert_eq!(totals.bump, 9);
}
