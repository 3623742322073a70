//! Verified core logic of the Alpha Protocol Solana program: staking rewards,
//! the Security Layer governance queue, protocol authority control, the
//! protocol module registry and the Green Label bond/certification lifecycle.
use vstd::prelude::*;

pub mod authority_control;
pub mod codec;
pub mod constants;
pub mod domains;
pub mod error;
pub mod governance;
pub mod green_label_bond;
pub mod green_label_certification;
pub mod green_label_certification_instructions;
pub mod green_label_dispute;
pub mod green_label_escrow;
pub mod green_label_escrow_governance;
pub mod green_label_escrow_instructions;
pub mod green_label_escrow_params;
pub mod green_label_execution;
pub mod green_label_fee;
pub mod green_label_governance;
pub mod green_label_instructions;
pub mod green_label_project;
pub mod hashing;
pub mod keys;
pub mod module_registry;
pub mod pda;
pub mod security;
pub mod staking;
pub mod state;
pub mod tags;
pub mod treasury;

verus! {
} // verus!
