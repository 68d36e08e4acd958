//! Read-only queries for front ends.
use vstd::prelude::*;
use crate::debt::{available_spec, can_mint_spec, debt_spec, poked, sys_ratio_spec, user_ratio_of};
use crate::error::ContractError;
use crate::ledger::balance_of;
use crate::math::fits;
use crate::sp::{compounded_of, near_block_gain_spec};
use crate::stablefee::{secs, unpaid_at, unpaid_ok};
use crate::state::OinStake;

verus! {

/// Collateral `account` may withdraw at `now`, as
/// `internal_avaliable_token` gives it.
pub open spec fn available_of(s: &OinStake, account: Seq<char>, now: u64) -> Option<int> {
    let pm = s.positions.map();
    if !poked(s, now) || !pm.dom().contains(account) || debt_spec(pm[account], s.allot) is None {
        None
    } else {
        let (d, t, g) = debt_spec(pm[account], s.allot).unwrap();
        if d == g {
            Some(t)
        } else if d > g && unpaid_ok(s.fee, pm[account], secs(now)) {
            available_spec(d, t, g, unpaid_at(s.fee, pm[account], secs(now)),
                s.params.min_mint_amount as int, s.params.liquidation_line as int, s.oracle.token_price as int)
        } else {
            None
        }
    }
}

/// Stable coin `account` may still mint at `now`, as
/// `internal_can_mint_amount` gives it.
pub open spec fn can_mint_of(s: &OinStake, account: Seq<char>, now: u64) -> Option<int> {
    let pm = s.positions.map();
    if !poked(s, now) || !pm.dom().contains(account) || debt_spec(pm[account], s.allot) is None
        || !unpaid_ok(s.fee, pm[account], secs(now)) {
        None
    } else {
        let (d, t, g) = debt_spec(pm[account], s.allot).unwrap();
        can_mint_spec(d, t, unpaid_at(s.fee, pm[account], secs(now)),
            s.params.liquidation_line as int, s.oracle.token_price as int)
    }
}

impl OinStake {
    /// Stable coin deposited in the stability pool.
    pub fn _get_total_usdo_deposits(&self) -> (r: u128)
        ensures
            r == self.sp.total_usdo_deposits,
    {
        self.sp.total_usdo_deposits
    }

    /// Stable coin deposited in the stability pool.
    pub fn get_total_usdo_deposits(&self) -> (r: u128)
        ensures
            r == self.sp.total_usdo_deposits,
    {
        self._get_total_usdo_deposits()
    }

    /// The collateral token.
    pub fn get_stake_token(&self) -> (r: String)
        ensures
            r@ == self.stake_token@,
    {
        self.stake_token.clone()
    }

    /// The token the stability fee is paid in.
    pub fn get_stable_fee_token(&self) -> (r: String)
        ensures
            r@ == self.stable_token@,
    {
        self.stable_token.clone()
    }

    /// Mining reward `account` may claim from the stability pool at `now`.
    pub fn get_depositor_block_near_gain(&self, account: &String, now: u64) -> (r: Result<u128, ContractError>)
        requires
            self.wf(),
        ensures
            match r {
                Ok(v) => near_block_gain_spec(self.sp, account@, secs(now)) == Some(v as int),
                Err(_) => near_block_gain_spec(self.sp, account@, secs(now)) is None,
            },
    {
        let now_s = Self::to_nano(now);
        self.sp._get_near_block_gain_from_snapshots(account, now_s)
    }

    /// Mining reward per second of the stability pool.
    pub fn get_reward_speed_sp(&self) -> (r: u128)
        ensures
            r == self.sp.reward_speed_sp,
    {
        self.sp.reward_speed_sp
    }

    /// Mining rewards left in the stability pool.
    pub fn get_reward_sp(&self) -> (r: u128)
        ensures
            r == self.sp.reward_sp,
    {
        self.sp.reward_sp
    }

    /// What `account`'s stability-pool deposit is worth now.
    pub fn get_compounded_usdo_deposit(&self, account: &String) -> (r: Result<u128, ContractError>)
        requires
            self.wf(),
        ensures
            match r {
                Ok(v) => compounded_of(self.sp, account@) == Some(v as int),
                Err(_) => compounded_of(self.sp, account@) is None,
            },
    {
        self.sp._get_compounded_usdo_deposit(account)
    }

    /// The least collateral a first deposit must bring.
    pub fn min_amount_token(&self) -> (r: Result<u128, ContractError>)
        ensures
            match r {
                Ok(v) => crate::debt::min_amount_spec(self) == Some(v as int),
                Err(_) => crate::debt::min_amount_spec(self) is None,
            },
    {
        self._min_amount_token()
    }

    /// The least amount a mint must bring a position to.
    pub fn min_amount_coin(&self) -> (r: u128)
        ensures
            r == self.params.min_mint_amount,
    {
        self.params.min_mint_amount
    }

    /// The guarantee a first deposit reserves.
    pub fn get_guarantee_limit(&self) -> (r: u128)
        ensures
            r == self.params.guarantee_limit,
    {
        self.params.guarantee_limit
    }

    /// Collateral `account` may withdraw at `now`.
    pub fn get_available_token(&self, account: &String, now: u64) -> (r: Result<u128, ContractError>)
        requires
            self.wf(),
        ensures
            match r {
                Ok(v) => available_of(self, account@, now) == Some(v as int),
                Err(_) => available_of(self, account@, now) is None,
            },
    {
        self.internal_avaliable_token(account, now)
    }

    /// Stable coin `account` may still mint at `now`.
    pub fn get_available_coin(&self, account: &String, now: u64) -> (r: Result<u128, ContractError>)
        requires
            self.wf(),
        ensures
            match r {
                Ok(v) => can_mint_of(self, account@, now) == Some(v as int),
                Err(_) => can_mint_of(self, account@, now) is None,
            },
    {
        self.internal_can_mint_amount(account, now)
    }

    /// Stability fee `account` owes at `now`.
    pub fn get_user_unpaid_stable(&self, account: &String, now: u64) -> (r: Result<u128, ContractError>)
        requires
            self.wf(),
        ensures
            ({
                let pm = self.positions.map();
                &&& r is Ok <==> pm.dom().contains(account@) && unpaid_ok(self.fee, pm[account@], secs(now))
                &&& r matches Ok(v) ==> v == unpaid_at(self.fee, pm[account@], secs(now))
            }),
    {
        self.internal_user_unpaid_stable(account, now)
    }

    /// Pledge rate of the system at `now`.
    pub fn get_sys_ratio(&self, now: u64) -> (r: Result<u128, ContractError>)
        ensures
            r is Ok <==> poked(self, now) && sys_ratio_spec(self, now) is Some,
            r matches Ok(v) ==> sys_ratio_spec(self, now) == Some(v as int),
    {
        self.internal_sys_ratio(now)
    }

    /// Pledge rate of `account` at `now`.
    pub fn get_user_ratio(&self, account: &String, now: u64) -> (r: Result<u128, ContractError>)
        requires
            self.wf(),
        ensures
            match r {
                Ok(v) => user_ratio_of(self, account@, now) == Some(v as int),
                Err(_) => user_ratio_of(self, account@, now) is None,
            },
    {
        self.internal_user_ratio(account, now)
    }

    /// The yearly stability fee rate.
    pub fn get_stable_fee_ratio(&self) -> (r: u128)
        ensures
            r == self.fee.stable_fee_rate,
    {
        self.fee.stable_fee_rate
    }

    /// Pledge, debt and guarantee of `staker`.
    pub fn external_staker_debt_of(&self, staker: &String) -> (r: Result<(u128, u128, u128), ContractError>)
        requires
            self.wf(),
        ensures
            ({
                let pm = self.positions.map();
                &&& !pm.dom().contains(staker@) ==> r == Err::<(u128, u128, u128), ContractError>(ContractError::NotRegistered)
                &&& pm.dom().contains(staker@) ==> match r {
                    Ok((t, d, g)) => debt_spec(pm[staker@], self.allot) == Some((d as int, t as int, g as int)),
                    Err(_) => debt_spec(pm[staker@], self.allot) is None,
                }
            }),
    {
        let (d, t, g) = self.get_debt(staker)?;
        Ok((t, d, g))
    }

    /// Debt, pledge and guarantee of `account`.
    pub fn external_get_dept(&self, account: &String) -> (r: Result<(u128, u128, u128), ContractError>)
        requires
            self.wf(),
        ensures
            ({
                let pm = self.positions.map();
                &&& !pm.dom().contains(account@) ==> r == Err::<(u128, u128, u128), ContractError>(ContractError::NotRegistered)
                &&& pm.dom().contains(account@) ==> match r {
                    Ok((d, t, g)) => debt_spec(pm[account@], self.allot) == Some((d as int, t as int, g as int)),
                    Err(_) => debt_spec(pm[account@], self.allot) is None,
                }
            }),
    {
        self.get_debt(account)
    }

    /// Pledge, debt and pledge rate of `account` at `now`.
    pub fn get_liqutation_detail(&self, account: &String, now: u64) -> (r: Result<(u128, u128, u128), ContractError>)
        requires
            self.wf(),
        ensures
            ({
                let pm = self.positions.map();
                &&& !pm.dom().contains(account@) ==> r == Err::<(u128, u128, u128), ContractError>(ContractError::NotRegistered)
                &&& r is Ok <==> pm.dom().contains(account@) && debt_spec(pm[account@], self.allot) is Some
                    && user_ratio_of(self, account@, now) is Some
                &&& r matches Ok((t, d, ratio)) ==> debt_spec(pm[account@], self.allot) matches Some((dd, tt, _))
                    && d == dd && t == tt && user_ratio_of(self, account@, now) == Some(ratio as int)
            }),
    {
        let (d, t, _g) = self.get_debt(account)?;
        let ratio = self.get_user_ratio(account, now)?;
        Ok((t, d, ratio))
    }

    /// The liquidation line.
    pub fn get_liquidation_line(&self) -> (r: u128)
        ensures
            r == self.params.liquidation_line,
    {
        self.params.liquidation_line
    }

    /// The cap on the system's coins.
    pub fn get_coin_upper_limit(&self) -> (r: u128)
        ensures
            r == self.params.coin_upper_limit,
    {
        self.params.coin_upper_limit
    }

    /// Time of the last price, in nanoseconds.
    pub fn get_oracle_time(&self) -> (r: u128)
        ensures
            r == self.oracle.token_poke_time,
    {
        self.oracle.token_poke_time as u128
    }

    /// The current time `now` in seconds.
    pub fn get_block_number(&self, now: u64) -> (r: u128)
        ensures
            r == secs(now),
    {
        Self::to_nano(now) as u128
    }

    /// Collateral pledged in the system.
    pub fn get_total_token(&self) -> (r: u128)
        ensures
            r == self.total_token,
    {
        self.total_token
    }

    /// Stable coin minted against pledges.
    pub fn get_total_coin(&self) -> (r: u128)
        ensures
            r == self.total_coin,
    {
        self.total_coin
    }

    /// Reward `staker` earned in a coin up to its recorded index.
    pub fn get_saved_reward(&self, staker: &String, coin_key: &String) -> (r: Result<u128, ContractError>)
        requires
            self.wf(),
        ensures
            match r {
                Ok(v) => self.internal_get_saved_reward_spec(staker@, coin_key@) == Some(v as int),
                Err(_) => self.internal_get_saved_reward_spec(staker@, coin_key@) is None,
            },
    {
        self.internal_get_saved_reward(staker, coin_key)
    }

    /// Reward `staker` earned in a coin since its last index update.
    pub fn get_unsaved_reward(&self, staker: &String, coin_key: &String, now: u64) -> (r: Result<u128, ContractError>)
        requires
            self.wf(),
        ensures
            match r {
                Ok(v) => self.internal_get_unsaved_reward_spec(staker@, coin_key@, now) == Some(v as int),
                Err(_) => self.internal_get_unsaved_reward_spec(staker@, coin_key@, now) is None,
            },
    {
        self.internal_get_unsaved_reward(staker, coin_key, now)
    }

    /// Reward `staker` may claim in a coin at `now`.
    pub fn get_staker_reward(&self, staker: &String, coin_key: &String, now: u64) -> (r: Result<u128, ContractError>)
        requires
            self.wf(),
        ensures
            ({
                let a = self.internal_get_saved_reward_spec(staker@, coin_key@);
                let b = self.internal_get_unsaved_reward_spec(staker@, coin_key@, now);
                match r {
                    Ok(v) => a is Some && b is Some && v == a->0 + b->0,
                    Err(_) => a is None || b is None || !fits(a->0 + b->0),
                }
            }),
    {
        self.internal_get_staker_reward(staker, coin_key, now)
    }

    /// Rewards left in a coin.
    pub fn get_reward_coin(&self, coin_key: &String) -> (r: Result<u128, ContractError>)
        requires
            self.wf(),
        ensures
            ({
                let cm = self.rewards.reward_coins.map();
                &&& r is Ok <==> cm.dom().contains(coin_key@)
                &&& r matches Ok(v) ==> v == cm[coin_key@].total_reward
                &&& r is Err ==> r == Err::<u128, ContractError>(ContractError::NoRewardCoin)
            }),
    {
        let c = self.internal_get_reward_coin(coin_key)?;
        Ok(c.total_reward)
    }

    /// Storage deposit a registration needs at `byte_cost` per byte.
    pub fn register_storage_used(&self, byte_cost: u128) -> (r: Result<u128, ContractError>)
        ensures
            r is Ok <==> fits(self.stake_storage_usage * byte_cost),
            r matches Ok(v) ==> v == self.stake_storage_usage * byte_cost,
    {
        self.cal_storage_near(byte_cost)
    }

    /// Storage deposit a stable coin account needs at `byte_cost` per byte.
    pub fn register_usdo_used(&self, byte_cost: u128) -> (r: Result<u128, ContractError>)
        ensures
            r is Ok <==> fits(self.token.account_storage_usage * byte_cost),
            r matches Ok(v) ==> v == self.token.account_storage_usage * byte_cost,
    {
        self.usdo_storage_usage(byte_cost)
    }

    /// Stable coin balance of `account`.
    pub fn get_usdo_balance(&self, account: &String) -> (r: u128)
        requires
            self.wf(),
        ensures
            r == balance_of(self.token, account@),
    {
        self.ft_balance(account)
    }

    /// Stability fees paid so far.
    pub fn get_total_stable_fee(&self) -> (r: u128)
        ensures
            r == self.fee.total_paid_stable_fee,
    {
        self.fee.total_paid_stable_fee
    }

    /// Liquidation fees not yet collected.
    pub fn get_total_liquidation_fee(&self) -> (r: u128)
        ensures
            r == self.total_liquidation_fee,
    {
        self.total_liquidation_fee
    }
}

} // verus!
