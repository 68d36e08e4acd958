//! Protocol constants.
use vstd::prelude::*;

verus! {

/// One whole collateral token (24 decimals).
pub const ONE_TOKEN: u128 = 1_000_000_000_000_000_000_000_000;

/// One whole stable coin (8 decimals).
pub const ONE_COIN: u128 = 100_000_000;

/// Ratio between the two decimal bases.
pub const STAKE_RATIO_BASE: u128 = 10_000_000_000_000_000;

pub const INIT_LIQUIDATION_LINE: u128 = 160_000_000;

pub const MIN_LIQUIDATION_LINE: u128 = 150_000_000;

pub const INIT_GAS_RATIO_LINE: u128 = 500_000;

pub const INIT_ALLOT_RATIO_LINE: u128 = 108_000_000;

pub const INIT_LIQUIDATION_FEE_LINE: u128 = 2_000_000;

/// Pledge rate from which a liquidation fee is charged (110.5%).
pub const INIT_NO_LIQUIDATION_FEE_RATE: u128 = 110_500_000;

/// System pledge rate at or below which the system shuts down.
pub const INIT_MIN_RATIO_LINE: u128 = 110_000_000;

pub const INIT_STABLE_FEE_RATE: u128 = 200_000_000_000_000;

pub const MAX_STABLE_FEE_RATE: u128 = 5_000_000_000_000_000;

pub const INIT_COIN_UPPER_LIMIT: u128 = 3_000_000_000_000_000;

pub const MAX_COIN_UPPER_LIMIT: u128 = 1_000_000_000_000_000_000;

pub const MIN_ALLOT_RATIO: u128 = 100_000_000;

pub const MAX_ALLOT_RATIO: u128 = 200_000_000;

pub const MAX_GAS_COMPENSATION_RATIO: u128 = 1_000_000;

pub const MAX_LIQUIDATION_FEE_RATIO: u128 = 2_000_000;

/// Initial index of a reward coin.
pub const INIT_INDEX: u128 = 100_000_000_000_000_000_000_000_000_000_000;

/// Unit of the stability fee index.
pub const INIT_STABLE_INDEX: u128 = 10_000_000_000_000_000;

pub const INIT_LIVE: u8 = 1;

/// Longest time a price stays valid (two days, in nanoseconds).
pub const POKE_INTERVAL_TIME: u64 = 172_800_000_000_000;

/// Seconds per year: the fee rate is yearly, time advances in seconds.
pub const BLOCK_PER_YEAR: u128 = 31536000;

pub const NANO_CONVERSION: u64 = 1_000_000_000;

/// At most this many reward coins.
pub const REWARD_UPPER_BOUND: u64 = 20;

pub const INIT_GUARANTEE_LIMIT: u128 = 1_000_000_000;

pub const INIT_MIN_MINT_AMOUNT: u128 = 10_000_000_000;

/// Stability pool reward per second.
pub const STABLE_SPEED: u128 = 1_000_000;

/// When P would fall below this, it is rescaled and the scale advances.
pub const SCALE_FACTOR: u128 = 1_000_000_000_000;

pub const DECIMAL_PRECISION: u128 = 1_000_000_000_000_000_000_000_000;

pub const DEFAULT_NUM_CONFIRM_RATIO: u64 = 60;

/// Twelve hours in nanoseconds.
pub const DEFAULT_REQUEST_COOLDOWN: u64 = 43_200_000_000_000;

/// One week in nanoseconds.
pub const MAX_REQUEST_COOLDOWN: u64 = 604_800_000_000_000;

/// Three days in nanoseconds.
pub const REQUEST_EXPIRE_TIME: u64 = 259_200_000_000_000;

pub const ONE_FOR_NUM_RATIO: u64 = 100;

} // verus!
