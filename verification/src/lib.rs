//! Collateralised stable-coin staking: debt positions, stability fee,
//! liquidation with redistribution, a stability pool and reward pools.
//! Every balance computation is proved free of overflow and equal to its
//! arithmetic specification.
use vstd::prelude::*;

pub mod u256;
pub mod book;
pub mod consts;
pub mod error;
pub mod ledger;
pub mod types;
pub mod math;
pub mod msig_types;
pub mod state;
pub mod stablefee;
pub mod allot;
pub mod actions;
pub mod reward;
pub mod esm;
pub mod admin;
pub mod debt;
pub mod vaults;
pub mod ops;
pub mod sp;
pub mod sp_ops;
pub mod usdo;
pub mod liquidation;
pub mod register;
pub mod pool_ops;
pub mod callbacks;
pub mod views;
pub mod msig;
pub mod laws;

verus! {
} // verus!
