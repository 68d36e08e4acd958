//! Records kept per account, per reward coin and per stability-pool scale.
use vstd::prelude::*;
use crate::book::Dup;
use crate::u256::U256;

verus! {

/// A depositor's snapshot of the stability pool's sums and product.
#[derive(Clone, Copy, Debug, PartialEq, Eq, Structural)]
pub struct Snapshots {
    /// Collateral-gain sum S at the time of the snapshot.
    pub s: U256,
    /// Product P at the time of the snapshot.
    pub p: u128,
    /// Mining-reward sum G at the time of the snapshot.
    pub g: U256,
    pub scale: u64,
    pub epoch: u128,
}

/// A scale together with its sum.
#[derive(Clone, Copy, Debug, PartialEq, Eq, Structural)]
pub struct ScaleSum {
    pub scale: u128,
    pub sum: u128,
}

/// The mining-reward sum G of one scale, with the time it was last advanced.
#[derive(Clone, Copy, Debug, PartialEq, Eq, Structural)]
pub struct SystemG {
    /// Time of the last update, in seconds.
    pub g_block_num: u64,
    pub g_system: U256,
}

/// A reward coin of the pledge pool.
#[derive(Debug)]
pub struct RewardCoin {
    /// Token contract of the coin.
    pub token: String,
    pub total_reward: u128,
    pub reward_speed: u128,
    pub index: u128,
    pub double_scale: u128,
    /// Time of the last index update, in seconds.
    pub block_number: u64,
}

#[derive(Clone, Copy, Debug, PartialEq, Eq, Structural)]
pub struct UserDebt {
    pub stake_token_num: u128,
    pub mint_usdo_num: u128,
}

/// Unclaimed reward of an account in one reward coin, and its index.
#[derive(Clone, Copy, Debug, PartialEq, Eq, Structural)]
pub struct UserReward {
    pub reward: u128,
    pub index: u128,
}

/// Unpaid stability fee of an account, and its fee index.
#[derive(Clone, Copy, Debug, PartialEq, Eq, Structural)]
pub struct UserStable {
    pub unpaid_stable_fee: u128,
    pub index: u128,
}

/// Per-token redistribution values an account has already received.
#[derive(Clone, Copy, Debug, PartialEq, Eq, Structural)]
pub struct AccountAllot {
    pub account_allot_debt: u128,
    pub account_allot_token: u128,
}

/// The debt position of a registered account.
#[derive(Clone, Copy, Debug, PartialEq, Eq, Structural)]
pub struct Position {
    /// Stable coin minted.
    pub coin: u128,
    /// Collateral pledged.
    pub token: u128,
    /// Guarantee (gas compensation reserve) of the position.
    pub guarantee: u128,
    pub allot: AccountAllot,
    pub stable: UserStable,
}

/// A stability-pool depositor.
#[derive(Clone, Copy, Debug, PartialEq, Eq, Structural)]
pub struct Depositor {
    /// Deposit at the time of the snapshot.
    pub deposit: u128,
    pub snapshot: Snapshots,
    /// Mining reward not yet paid out.
    pub min_reward: u128,
    /// Collateral gain not yet paid out.
    pub dis_reward: u128,
}

impl Dup for RewardCoin {
    open spec fn eqv(&self, other: &Self) -> bool {
        *self == *other
    }

    fn dup(&self) -> (r: Self) {
        RewardCoin {
            token: self.token.clone(),
            total_reward: self.total_reward,
            reward_speed: self.reward_speed,
            index: self.index,
            double_scale: self.double_scale,
            block_number: self.block_number,
        }
    }
}

impl Dup for UserReward {
    open spec fn eqv(&self, other: &Self) -> bool {
        *self == *other
    }

    fn dup(&self) -> (r: Self) {
        *self
    }
}

impl Dup for Position {
    open spec fn eqv(&self, other: &Self) -> bool {
        *self == *other
    }

    fn dup(&self) -> (r: Self) {
        *self
    }
}

impl Dup for Depositor {
    open spec fn eqv(&self, other: &Self) -> bool {
        *self == *other
    }

    fn dup(&self) -> (r: Self) {
        *self
    }
}

impl Dup for SystemG {
    open spec fn eqv(&self, other: &Self) -> bool {
        *self == *other
    }

    fn dup(&self) -> (r: Self) {
        *self
    }
}

impl Dup for U256 {
    open spec fn eqv(&self, other: &Self) -> bool {
        *self == *other
    }

    fn dup(&self) -> (r: Self) {
        *self
    }
}

} // verus!
