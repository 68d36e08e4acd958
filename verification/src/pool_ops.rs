//! Administration of the pledge pool's reward coins, the project's
//! liquidation fees and the price feed.
use vstd::prelude::*;
use vstd::string::StringExecFns;
use crate::actions::{Callback, StorageDepositCall, Transfer};
use crate::consts::{INIT_INDEX, INIT_MIN_RATIO_LINE, ONE_TOKEN, REWARD_UPPER_BOUND};
use crate::debt::sys_ratio_spec;
use crate::error::ContractError;
use crate::esm::esm_all;
use crate::math::{c_add, fits};
use crate::reward::{advance_coin, reward_key, staker_reward_key};
use crate::stablefee::secs;
use crate::state::{st_near, OinStake, Rewards, ST_NEAR};
use crate::types::{RewardCoin, UserReward};

verus! {

/// The account rewards with an entry for `staker` in each of the first
/// `n` coins that it has none in yet, at the coin's current index.
pub open spec fn missing_entries(
    am: Map<Seq<char>, UserReward>,
    staker: Seq<char>,
    keys: Seq<Seq<char>>,
    coins: Seq<RewardCoin>,
    n: nat,
) -> Map<Seq<char>, UserReward>
    decreases n,
{
    if n == 0 {
        am
    } else {
        let m = missing_entries(am, staker, keys, coins, (n - 1) as nat);
        let k = reward_key(staker, keys[n - 1]);
        if m.dom().contains(k) {
            m
        } else {
            m.insert(k, UserReward { index: coins[n - 1].double_scale, reward: 0 })
        }
    }
}

/// `s` with the price set to `token_price` at `now`.
pub open spec fn priced(s: OinStake, token_price: u128, now: u64) -> OinStake {
    OinStake { oracle: crate::state::Oracle { token_price, token_poke_time: now, ..s.oracle }, ..s }
}

/// What a price update makes of `s`: the new price and time, and every
/// operation paused where collateral is pledged and the system's pledge
/// rate is then at or below the minimum line.
pub open spec fn after_poke(s: OinStake, token_price: u128, now: u64) -> OinStake {
    let s1 = priced(s, token_price, now);
    if s.total_token > 0 && sys_ratio_spec(&s1, now)->0 <= INIT_MIN_RATIO_LINE {
        OinStake { esm: esm_all(0), ..s1 }
    } else {
        s1
    }
}

impl OinStake {
    /// Adds a reward coin under its token's name.
    pub fn internal_add_reward_coin(&mut self, coin: RewardCoin) -> (r: Result<(), ContractError>)
        requires
            old(self).wf(),
        ensures
            final(self).wf(),
            ({
                let cm = old(self).rewards.reward_coins.map();
                let n = old(self).rewards.reward_coins.len_spec();
                &&& n >= REWARD_UPPER_BOUND ==> r == Err::<(), ContractError>(ContractError::RewardSlotsUsedUp)
                &&& n < REWARD_UPPER_BOUND && cm.dom().contains(coin.token@)
                    ==> r == Err::<(), ContractError>(ContractError::RewardCoinExists)
                &&& r is Ok <==> n < REWARD_UPPER_BOUND && !cm.dom().contains(coin.token@)
                &&& r is Ok ==> final(self).rewards.reward_coins.map() == cm.insert(coin.token@, coin)
                    && final(self).rewards.reward_coins.key_seq()
                        == old(self).rewards.reward_coins.key_seq().push(coin.token@)
                &&& r is Err ==> *final(self) == *old(self)
                &&& *final(self) == (OinStake {
                    rewards: Rewards { reward_coins: final(self).rewards.reward_coins, ..old(self).rewards },
                    ..*old(self)
                })
            }),
    {
        if self.rewards.reward_coins.len() as u64 >= REWARD_UPPER_BOUND {
            return Err(ContractError::RewardSlotsUsedUp);
        }
        if self.rewards.reward_coins.contains(&coin.token) {
            return Err(ContractError::RewardCoinExists);
        }
        let key = coin.token.clone();
        self.rewards.reward_coins.insert(key, coin);
        Ok(())
    }

    /// Adds stNEAR as a reward coin of speed 0 at `now`.
    pub fn init_reward_coin(&mut self, now: u64) -> (r: Result<(), ContractError>)
        requires
            old(self).wf(),
        ensures
            final(self).wf(),
            ({
                let cm = old(self).rewards.reward_coins.map();
                let n = old(self).rewards.reward_coins.len_spec();
                &&& r is Ok <==> n < REWARD_UPPER_BOUND && !cm.dom().contains(ST_NEAR@)
                &&& r is Ok ==> final(self).rewards.reward_coins.map().dom() == cm.dom().insert(ST_NEAR@)
                    && ({
                        let c = final(self).rewards.reward_coins.map()[ST_NEAR@];
                        &&& c.token@ == ST_NEAR@
                        &&& c.total_reward == 0
                        &&& c.reward_speed == 0
                        &&& c.index == INIT_INDEX
                        &&& c.double_scale == INIT_INDEX
                        &&& c.block_number == now / crate::consts::NANO_CONVERSION
                    })
                &&& *final(self) == (OinStake {
                    rewards: Rewards { reward_coins: final(self).rewards.reward_coins, ..old(self).rewards },
                    ..*old(self)
                })
            }),
    {
        let block_number = Self::to_nano(now);
        self.internal_add_reward_coin(RewardCoin {
            token: st_near(),
            total_reward: 0,
            reward_speed: 0,
            index: INIT_INDEX,
            block_number,
            double_scale: INIT_INDEX,
        })
    }

    /// A whitelisted `caller` adds the reward coin of `token` with a speed
    /// and a starting index, at `now`.
    pub fn add_reward_coin(&mut self, caller: &String, token: String, reward_speed: u128, double_scale: u128, now: u64)
        -> (r: Result<(), ContractError>)
        requires
            old(self).wf(),
        ensures
            final(self).wf(),
            ({
                let cm = old(self).rewards.reward_coins.map();
                let n = old(self).rewards.reward_coins.len_spec();
                &&& !old(self).whitelist.map().dom().contains(caller@)
                    ==> r == Err::<(), ContractError>(ContractError::NotWhite)
                &&& r is Ok <==> old(self).whitelist.map().dom().contains(caller@) && n < REWARD_UPPER_BOUND
                    && !cm.dom().contains(token@)
                &&& r is Ok ==> final(self).rewards.reward_coins.map().dom() == cm.dom().insert(token@)
                    && ({
                        let c = final(self).rewards.reward_coins.map()[token@];
                        &&& c.token@ == token@
                        &&& c.total_reward == 0
                        &&& c.reward_speed == reward_speed
                        &&& c.index == double_scale
                        &&& c.double_scale == double_scale
                        &&& c.block_number == now / crate::consts::NANO_CONVERSION
                    })
                &&& *final(self) == (OinStake {
                    rewards: Rewards { reward_coins: final(self).rewards.reward_coins, ..old(self).rewards },
                    ..*old(self)
                })
            }),
    {
        self.assert_white(caller)?;
        let block_number = Self::to_nano(now);
        self.internal_add_reward_coin(RewardCoin {
            token,
            total_reward: 0,
            reward_speed,
            index: double_scale,
            block_number,
            double_scale,
        })
    }

    /// Brings a coin's index forward to `now`, then sets its speed.
    pub fn internal_set_reward_speed(&mut self, coin_key: &String, speed: u128, now: u64) -> (r: Result<(), ContractError>)
        requires
            old(self).wf(),
        ensures
            final(self).wf(),
            ({
                let cm = old(self).rewards.reward_coins.map();
                let c = advance_coin(cm[coin_key@], secs(now), old(self).total_token as int, false);
                &&& !cm.dom().contains(coin_key@) ==> r == Err::<(), ContractError>(ContractError::NoRewardCoin)
                &&& r is Ok <==> cm.dom().contains(coin_key@) && c is Some
                &&& r is Ok ==> final(self).rewards.reward_coins.map()
                    == cm.insert(coin_key@, RewardCoin { reward_speed: speed, ..c.unwrap() })
                &&& *final(self) == (OinStake {
                    rewards: Rewards { reward_coins: final(self).rewards.reward_coins, ..old(self).rewards },
                    ..*old(self)
                })
            }),
    {
        self.update_system_single_index(coin_key, now)?;
        let mut c = match self.rewards.reward_coins.get(coin_key) {
            Some(c) => c,
            None => return Err(ContractError::NoRewardCoin),
        };
        c.reward_speed = speed;
        self.rewards.reward_coins.insert(coin_key.clone(), c);
        Ok(())
    }

    /// A whitelisted `caller` sets a coin's speed at `now`.
    pub fn set_reward_speed(&mut self, caller: &String, coin_key: &String, speed: u128, now: u64)
        -> (r: Result<(), ContractError>)
        requires
            old(self).wf(),
        ensures
            final(self).wf(),
            ({
                let cm = old(self).rewards.reward_coins.map();
                let c = advance_coin(cm[coin_key@], secs(now), old(self).total_token as int, false);
                &&& !old(self).whitelist.map().dom().contains(caller@)
                    ==> r == Err::<(), ContractError>(ContractError::NotWhite)
                &&& r is Ok <==> old(self).whitelist.map().dom().contains(caller@) && cm.dom().contains(coin_key@)
                    && c is Some
                &&& r is Ok ==> final(self).rewards.reward_coins.map()
                    == cm.insert(coin_key@, RewardCoin { reward_speed: speed, ..c.unwrap() })
                &&& *final(self) == (OinStake {
                    rewards: Rewards { reward_coins: final(self).rewards.reward_coins, ..old(self).rewards },
                    ..*old(self)
                })
            }),
    {
        self.assert_white(caller)?;
        self.internal_set_reward_speed(coin_key, speed, now)
    }

    /// A whitelisted `caller` gives `staker` an entry in every coin it has
    /// none in yet.
    pub fn register_other_token(&mut self, caller: &String, staker: &String) -> (r: Result<(), ContractError>)
        requires
            old(self).wf(),
        ensures
            final(self).wf(),
            r is Ok <==> old(self).whitelist.map().dom().contains(caller@),
            r is Err ==> r == Err::<(), ContractError>(ContractError::NotWhite) && *final(self) == *old(self),
            r is Ok ==> {
                let keys = old(self).rewards.reward_coins.key_seq();
                let coins = old(self).rewards.reward_coins.val_seq();
                &&& final(self).rewards.account_reward.map()
                    == missing_entries(old(self).rewards.account_reward.map(), staker@, keys, coins, keys.len())
                &&& *final(self) == (OinStake {
                    rewards: Rewards { account_reward: final(self).rewards.account_reward, ..old(self).rewards },
                    ..*old(self)
                })
            },
    {
        self.assert_white(caller)?;
        let ghost s0 = *self;
        let ghost keys = self.rewards.reward_coins.key_seq();
        let ghost coins = self.rewards.reward_coins.val_seq();
        let n = self.rewards.reward_coins.len();
        let mut i: usize = 0;
        while i < n
            invariant
                self.wf(),
                i <= n,
                n == keys.len(),
                n == coins.len(),
                keys == self.rewards.reward_coins.key_seq(),
                coins == self.rewards.reward_coins.val_seq(),
                self.rewards.account_reward.map()
                    == missing_entries(s0.rewards.account_reward.map(), staker@, keys, coins, i as nat),
                *self == (OinStake {
                    rewards: Rewards { account_reward: self.rewards.account_reward, ..s0.rewards },
                    ..s0
                }),
                keys == old(self).rewards.reward_coins.key_seq(),
                coins == old(self).rewards.reward_coins.val_seq(),
                s0 == *old(self),
            decreases n - i,
        {
            let key = self.rewards.reward_coins.key_at(i);
            let c = self.rewards.reward_coins.val_at(i);
            let k = staker_reward_key(staker, &key);
            if !self.rewards.account_reward.contains(&k) {
                self.rewards.account_reward.insert(k, UserReward { index: c.double_scale, reward: 0 });
            }
            i = i + 1;
        }
        Ok(())
    }

    /// A whitelisted `caller` points a coin that has not started at another
    /// token with another starting index, then brings it forward to `now`.
    pub fn update_reward_token(
        &mut self,
        caller: &String,
        coin_key: &String,
        reward_coin: String,
        double_scale: u128,
        now: u64,
    ) -> (r: Result<(), ContractError>)
        requires
            old(self).wf(),
        ensures
            final(self).wf(),
            ({
                let cm = old(self).rewards.reward_coins.map();
                let c = cm[coin_key@];
                let white = old(self).whitelist.map().dom().contains(caller@);
                let fresh = c.index == ONE_TOKEN && c.reward_speed == 0;
                let changed = RewardCoin { token: reward_coin, double_scale, ..c };
                let adv = advance_coin(changed, secs(now), old(self).total_token as int, false);
                &&& !white ==> r == Err::<(), ContractError>(ContractError::NotWhite)
                &&& white && !cm.dom().contains(coin_key@) ==> r == Err::<(), ContractError>(ContractError::NoRewardCoin)
                &&& white && cm.dom().contains(coin_key@) && !fresh
                    ==> r == Err::<(), ContractError>(ContractError::RewardCoinFixed)
                &&& r is Ok <==> white && cm.dom().contains(coin_key@) && fresh && adv is Some
                &&& r is Ok ==> final(self).rewards.reward_coins.map() == cm.insert(coin_key@, adv.unwrap())
                &&& *final(self) == (OinStake {
                    rewards: Rewards { reward_coins: final(self).rewards.reward_coins, ..old(self).rewards },
                    ..*old(self)
                })
            }),
    {
        self.assert_white(caller)?;
        let mut c = match self.rewards.reward_coins.get(coin_key) {
            Some(c) => c,
            None => return Err(ContractError::NoRewardCoin),
        };
        if !(c.index == ONE_TOKEN && c.reward_speed == 0) {
            return Err(ContractError::RewardCoinFixed);
        }
        c.token = reward_coin;
        c.double_scale = double_scale;
        self.rewards.reward_coins.insert(coin_key.clone(), c);
        self.update_system_single_index(coin_key, now)
    }

    /// The owner `caller` takes `amount` out of a coin's rewards and sends
    /// it to `account`.
    pub fn extract_reward(&mut self, caller: &String, account: &String, amount: u128, coin_key: &String)
        -> (r: Result<Transfer, ContractError>)
        requires
            old(self).wf(),
        ensures
            final(self).wf(),
            ({
                let cm = old(self).rewards.reward_coins.map();
                let c = cm[coin_key@];
                &&& caller@ != old(self).owner_id@ ==> r == Err::<Transfer, ContractError>(ContractError::NotAllowed)
                &&& caller@ == old(self).owner_id@ && !cm.dom().contains(coin_key@)
                    ==> r == Err::<Transfer, ContractError>(ContractError::NoRewardCoin)
                &&& caller@ == old(self).owner_id@ && cm.dom().contains(coin_key@) && amount > c.total_reward
                    ==> r == Err::<Transfer, ContractError>(ContractError::WithdrawOverflow)
                &&& r is Ok <==> caller@ == old(self).owner_id@ && cm.dom().contains(coin_key@)
                    && amount <= c.total_reward
                &&& r is Ok ==> {
                    let t = r->Ok_0;
                    &&& final(self).rewards.reward_coins.map() == cm.insert(coin_key@,
                        RewardCoin { total_reward: (c.total_reward - amount) as u128, ..c })
                    &&& t.token_contract@ == c.token@
                    &&& t.receiver_id@ == account@
                    &&& t.amount == amount
                    &&& t.callback matches Callback::OnExtractReward { coin_key: k, amount: a }
                        && k@ == coin_key@ && a == amount
                }
                &&& *final(self) == (OinStake {
                    rewards: Rewards { reward_coins: final(self).rewards.reward_coins, ..old(self).rewards },
                    ..*old(self)
                })
            }),
    {
        self.assert_owner(caller)?;
        let mut c = self.internal_get_reward_coin(coin_key)?;
        if amount > c.total_reward {
            return Err(ContractError::WithdrawOverflow);
        }
        c.total_reward = c.total_reward - amount;
        let token = c.token.clone();
        self.rewards.reward_coins.insert(coin_key.clone(), c);
        Ok(Transfer {
            token_contract: token,
            receiver_id: account.clone(),
            amount,
            callback: Callback::OnExtractReward { coin_key: coin_key.clone(), amount },
        })
    }

    /// Outcome of an extraction's transfer: on failure the amount returns to
    /// the coin's rewards.
    pub fn on_extract_reward(&mut self, coin_key: &String, amount: u128, succeeded: bool) -> (r: Result<(), ContractError>)
        requires
            old(self).wf(),
        ensures
            final(self).wf(),
            succeeded ==> r is Ok && *final(self) == *old(self),
            !succeeded ==> ({
                let cm = old(self).rewards.reward_coins.map();
                let c = cm[coin_key@];
                &&& r is Ok <==> cm.dom().contains(coin_key@) && fits(c.total_reward + amount)
                &&& r is Ok ==> final(self).rewards.reward_coins.map() == cm.insert(coin_key@,
                    RewardCoin { total_reward: (c.total_reward + amount) as u128, ..c })
                &&& *final(self) == (OinStake {
                    rewards: Rewards { reward_coins: final(self).rewards.reward_coins, ..old(self).rewards },
                    ..*old(self)
                })
            }),
    {
        if succeeded {
            return Ok(());
        }
        let mut c = self.internal_get_reward_coin(coin_key)?;
        c.total_reward = c_add(c.total_reward, amount)?;
        self.rewards.reward_coins.insert(coin_key.clone(), c);
        Ok(())
    }

    /// Outcome of a reward claim's transfer: on failure the amount returns
    /// to the coin's rewards and to the holder's reward, the record being
    /// stored under the coin's key.
    pub fn on_claim_reward(&mut self, holder: &String, coin_key: &String, amount: u128, succeeded: bool)
        -> (r: Result<(), ContractError>)
        requires
            old(self).wf(),
        ensures
            final(self).wf(),
            succeeded ==> r is Ok && *final(self) == *old(self),
            !succeeded ==> ({
                let cm = old(self).rewards.reward_coins.map();
                let am = old(self).rewards.account_reward.map();
                let c = cm[coin_key@];
                let k = reward_key(holder@, coin_key@);
                &&& r is Ok <==> cm.dom().contains(coin_key@) && am.dom().contains(k)
                    && fits(c.total_reward + amount) && fits(am[k].reward + amount)
                &&& r is Ok ==> {
                    &&& final(self).rewards.reward_coins.map() == cm.insert(coin_key@,
                        RewardCoin { total_reward: (c.total_reward + amount) as u128, ..c })
                    &&& final(self).rewards.account_reward.map() == am.insert(coin_key@,
                        UserReward { reward: (am[k].reward + amount) as u128, ..am[k] })
                }
                &&& *final(self) == (OinStake { rewards: final(self).rewards, ..*old(self) })
            }),
    {
        if succeeded {
            return Ok(());
        }
        let mut c = self.internal_get_reward_coin(coin_key)?;
        let mut u = self.internal_get_account_reward(holder, coin_key)?;
        c.total_reward = c_add(c.total_reward, amount)?;
        u.reward = c_add(u.reward, amount)?;
        self.rewards.account_reward.insert(coin_key.clone(), u);
        self.rewards.reward_coins.insert(coin_key.clone(), c);
        Ok(())
    }

    /// The owner `caller` collects all liquidation fees in stNEAR.
    pub fn claim_liquidation_fee(&mut self, caller: &String) -> (r: Result<Transfer, ContractError>)
        ensures
            caller@ != old(self).owner_id@ ==> r == Err::<Transfer, ContractError>(ContractError::NotAllowed),
            caller@ == old(self).owner_id@ && old(self).total_liquidation_fee == 0
                ==> r == Err::<Transfer, ContractError>(ContractError::FeeNotEnough),
            r is Ok <==> caller@ == old(self).owner_id@ && old(self).total_liquidation_fee > 0,
            r is Ok ==> {
                let t = r->Ok_0;
                let fee = old(self).total_liquidation_fee;
                &&& *final(self) == (OinStake { total_liquidation_fee: 0, ..*old(self) })
                &&& t.token_contract@ == ST_NEAR@
                &&& t.receiver_id@ == old(self).owner_id@
                &&& t.amount == fee
                &&& t.callback matches Callback::OnClaimLiquidationFee { amount } && amount == fee
            },
    {
        self.assert_owner(caller)?;
        let fee = self.total_liquidation_fee;
        if fee == 0 {
            return Err(ContractError::FeeNotEnough);
        }
        self.total_liquidation_fee = 0;
        Ok(Transfer {
            token_contract: st_near(),
            receiver_id: self.owner_id.clone(),
            amount: fee,
            callback: Callback::OnClaimLiquidationFee { amount: fee },
        })
    }

    /// Outcome of the fee transfer: on failure the fees are owed again.
    pub fn on_claim_liquidation_fee_callback(&mut self, amount: u128, succeeded: bool) -> (r: Result<(), ContractError>)
        ensures
            succeeded ==> r is Ok && *final(self) == *old(self),
            !succeeded ==> {
                &&& r is Ok <==> fits(old(self).total_liquidation_fee + amount)
                &&& r is Ok ==> *final(self) == (OinStake {
                    total_liquidation_fee: (old(self).total_liquidation_fee + amount) as u128,
                    ..*old(self)
                })
            },
    {
        if succeeded {
            return Ok(());
        }
        self.total_liquidation_fee = c_add(self.total_liquidation_fee, amount)?;
        Ok(())
    }

    /// The call that registers `caller` on a reward coin's token, paying
    /// `yocto_near` of the attached balance.
    pub fn reward_stake_storage_deposit(&self, caller: &String, coin_key: &String, yocto_near: u128)
        -> (r: Result<StorageDepositCall, ContractError>)
        requires
            self.wf(),
        ensures
            ({
                let cm = self.rewards.reward_coins.map();
                &&& r is Ok <==> cm.dom().contains(coin_key@)
                &&& r is Err ==> r == Err::<StorageDepositCall, ContractError>(ContractError::NoRewardCoin)
                &&& r is Ok ==> (r->Ok_0).token_contract@ == cm[coin_key@].token@
                    && (r->Ok_0).account_id@ == caller@ && (r->Ok_0).amount == yocto_near
            }),
    {
        let c = self.internal_get_reward_coin(coin_key)?;
        Ok(StorageDepositCall { token_contract: c.token, account_id: caller.clone(), amount: yocto_near })
    }

    /// The oracle `caller` sets the price at `now`. When collateral is
    /// pledged and the system's pledge rate is then at or below the minimum
    /// line, every operation is paused.
    pub fn poke(&mut self, caller: &String, token_price: u128, now: u64) -> (r: Result<(), ContractError>)
        ensures
            caller@ != old(self).oracle.oracle@ ==> r == Err::<(), ContractError>(ContractError::NotOracle),
            ({
                let s1 = priced(*old(self), token_price, now);
                &&& r is Ok <==> caller@ == old(self).oracle.oracle@
                    && (old(self).total_token > 0 ==> crate::debt::poked(&s1, now) && sys_ratio_spec(&s1, now) is Some)
                &&& r is Ok ==> *final(self) == after_poke(*old(self), token_price, now)
            }),
    {
        self.assert_oracle(caller)?;
        self.oracle.token_price = token_price;
        self.oracle.token_poke_time = now;
        if self.total_token > 0 {
            let sr = self.internal_sys_ratio(now)?;
            if sr <= INIT_MIN_RATIO_LINE {
                self.internal_shutdown();
            }
        }
        Ok(())
    }
}

} // verus!
