//! Work a call hands back to its caller: token transfers to other
//! contracts, each with the callback that settles its outcome, and refunds
//! of attached deposits.
use vstd::prelude::*;
use crate::types::Snapshots;
use crate::u256::U256;

verus! {

/// The callback that receives a transfer's outcome.
#[derive(Debug)]
pub enum Callback {
    AfterWithdrawToken { account_id: String, amount: u128, guarantee: u128 },
    OnMintTransfer { holder: String, amount: u128 },
    OnClaimReward { holder: String, coin_key: String, amount: u128 },
    OnExtractReward { coin_key: String, amount: u128 },
    OnClaimLiquidationFee { amount: u128 },
    OnWithdrawUsdo {
        receiver_id: String,
        amount: u128,
        cha_g_bn: u64,
        cha_g_system: U256,
        target_scale: u64,
        target_epoch: u128,
        before_deposits: u128,
        before_snap: Snapshots,
    },
    OnClaimDisReward { claimer: String, amount: u128 },
    OnClaimMinReward { claimer: String, token_to_claim: u128, depositor_near_gain: u128 },
    OnWithdrawSpReward { receiver_id: String, amount: u128 },
}

/// A call of `ft_transfer` on `token_contract`, then `callback` on this
/// contract with its outcome.
#[derive(Debug)]
pub struct Transfer {
    pub token_contract: String,
    pub receiver_id: String,
    pub amount: u128,
    pub callback: Callback,
}

/// A call of `storage_deposit` on `token_contract` registering
/// `account_id`, paid with `amount` of the attached balance.
#[derive(Debug)]
pub struct StorageDepositCall {
    pub token_contract: String,
    pub account_id: String,
    pub amount: u128,
}

/// Native balance sent back to `receiver_id`.
#[derive(Debug)]
pub struct Refund {
    pub receiver_id: String,
    pub amount: u128,
}

} // verus!
