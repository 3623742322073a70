//! Treasury initialization: the legacy treasury state and the USDC
//! treasury's configuration and running totals.
use vstd::prelude::*;
use crate::keys::Pubkey;
use crate::state::{TreasuryConfigV2, TreasuryState, TreasuryUsdcStateV2};

verus! {

/// Starts the protocol treasury under `authority` with every pool empty.
pub fn initialize_protocol_state(treasury_state: &mut TreasuryState, authority: Pubkey, bump: u8)
    ensures
        *final(treasury_state) == (TreasuryState {
            authority,
            total_inflow: 0,
            relief_pool: 0,
            buyback_pool: 0,
            payroll_pool: 0,
            staking_pool: 0,
            bump,
        }),
{
    treasury_state.authority = authority;
    treasury_state.total_inflow = 0;
    treasury_state.relief_pool = 0;
    treasury_state.buyback_pool = 0;
    treasury_state.payroll_pool = 0;
    treasury_state.staking_pool = 0;
    treasury_state.bump = bump;
}

/// Starts the USDC treasury: its configuration names the authority and the
/// two mints, and every running total starts at zero.
pub fn initialize_usdc_treasury_state(
    treasury_config: &mut TreasuryConfigV2,
    treasury_usdc_state: &mut TreasuryUsdcStateV2,
    authority: Pubkey,
    usdc_mint: Pubkey,
    alpha_mint: Pubkey,
    config_bump: u8,
    state_bump: u8,
)
    ensures
        *final(treasury_config) == (TreasuryConfigV2 { authority, usdc_mint, alpha_mint, bump: config_bump }),
        *final(treasury_usdc_state) == (TreasuryUsdcStateV2 {
            total_usdc_inflow: 0,
            relief_usdc_total: 0,
            buyback_usdc_total: 0,
            builders_usdc_total: 0,
            staking_usdc_total: 0,
            bump: state_bump,
        }),
{
    treasury_config.authority = authority;
    treasury_config.usdc_mint = usdc_mint;
    treasury_config.alpha_mint = alpha_mint;
    treasury_config.bump = config_bump;
    treasury_usdc_state.total_usdc_inflow = 0;
    treasury_usdc_state.relief_usdc_total = 0;
    treasury_usdc_state.buyback_usdc_total = 0;
    treasury_usdc_state.builders_usdc_total = 0;
    treasury_usdc_state.staking_usdc_total = 0;
    treasury_usdc_state.bump = state_bump;
}

} // verus!
