//! Reward coins of the pledge pool. Each coin's index grows by its speed
//! shared over all pledged tokens; an account earns its pledge times the
//! index growth since its own index.
use vstd::prelude::*;
use crate::actions::{Callback, Transfer};
use crate::book::{Book, BookKey};
use crate::consts::{ONE_TOKEN, REWARD_UPPER_BOUND};
use crate::error::ContractError;
use crate::math::{c_add, c_mul, c_sub, fits, mul3_div, mul3_div_spec, mul_div, mul_div_spec};
use crate::stablefee::secs;
use crate::state::{st_near, OinStake, Rewards, ST_NEAR};
use crate::types::{RewardCoin, UserReward};

verus! {

/// Key of an account's reward in one coin: `staker:coin`.
pub open spec fn reward_key(staker: Seq<char>, coin: Seq<char>) -> Seq<char> {
    staker + seq![':'] + coin
}

/// Builds the key of an account's reward in one coin.
pub fn staker_reward_key(staker: &String, coin: &String) -> (r: String)
    ensures
        r@ == reward_key(staker@, coin@),
{
    let mut k = staker.clone();
    k.append(":");
    proof {
        reveal_strlit(":");
        assert(":"@ =~= seq![':']);
    }
    k.append(coin.as_str());
    k
}

/// A coin's index brought forward to `cur` seconds, guarded by
/// `guarded`: when set, coins with no elapsed time or no speed stay as they
/// are.
pub open spec fn advance_coin(c: RewardCoin, cur: int, total_token: int, guarded: bool) -> Option<RewardCoin> {
    let delta = cur - c.block_number;
    if delta < 0 {
        None
    } else if guarded && !(delta > 0 && c.reward_speed > 0) {
        Some(c)
    } else if !fits(c.reward_speed * delta) {
        None
    } else {
        let gain = if total_token > 0 {
            mul_div_spec(c.reward_speed * delta, c.double_scale as int, total_token)
        } else {
            Some(0int)
        };
        match gain {
            Some(g) => if fits(c.index + g) {
                Some(RewardCoin { index: (c.index + g) as u128, block_number: cur as u64, ..c })
            } else {
                None
            },
            None => None,
        }
    }
}

/// Brings one coin's index forward.
pub fn advance_reward_coin(c: RewardCoin, cur: u64, total_token: u128, guarded: bool)
    -> (r: Result<RewardCoin, ContractError>)
    ensures
        match r {
            Ok(v) => advance_coin(c, cur as int, total_token as int, guarded) == Some(v),
            Err(_) => advance_coin(c, cur as int, total_token as int, guarded) is None,
        },
{
    let delta = c_sub(cur as u128, c.block_number as u128)?;
    if guarded && !(delta > 0 && c.reward_speed > 0) {
        return Ok(c);
    }
    let inc = c_mul(c.reward_speed, delta)?;
    let gain = if total_token > 0 {
        mul_div(inc, c.double_scale, total_token)?
    } else {
        0
    };
    let index = c_add(c.index, gain)?;
    Ok(RewardCoin { index, block_number: cur, ..c })
}

/// Reward an account has earned in a coin up to the coin's index.
pub open spec fn saved_spec(ur: UserReward, c: RewardCoin, stake: int) -> Option<int> {
    if c.index < ur.index {
        None
    } else {
        match mul_div_spec(c.index - ur.index, stake, c.double_scale as int) {
            Some(v) => if fits(ur.reward + v) {
                Some(ur.reward + v)
            } else {
                None
            },
            None => None,
        }
    }
}

/// Computes `saved_spec`.
pub fn saved_reward(ur: UserReward, c: &RewardCoin, stake: u128) -> (r: Result<u128, ContractError>)
    ensures
        match r {
            Ok(v) => saved_spec(ur, *c, stake as int) == Some(v as int),
            Err(_) => saved_spec(ur, *c, stake as int) is None,
        },
{
    let d = c_sub(c.index, ur.index)?;
    let v = mul_div(d, stake, c.double_scale)?;
    c_add(ur.reward, v)
}

/// One coin's step of updating an account's rewards.
pub open spec fn personal_step(
    ar: Map<Seq<char>, UserReward>,
    staker: Seq<char>,
    coin_key: Seq<char>,
    c: RewardCoin,
    stake: Option<u128>,
) -> Option<Map<Seq<char>, UserReward>> {
    let k = reward_key(staker, coin_key);
    if !ar.dom().contains(k) {
        Some(ar.insert(k, UserReward { index: c.index, reward: 0 }))
    } else if c.index > ar[k].index {
        match stake {
            Some(st) => match saved_spec(ar[k], c, st as int) {
                Some(v) => Some(ar.insert(k, UserReward { index: c.index, reward: v as u128 })),
                None => None,
            },
            None => None,
        }
    } else {
        Some(ar)
    }
}

/// An account's rewards after the steps for the first `n` coins.
pub open spec fn personal_fold(
    ar: Map<Seq<char>, UserReward>,
    staker: Seq<char>,
    keys: Seq<Seq<char>>,
    coins: Seq<RewardCoin>,
    stake: Option<u128>,
    n: nat,
) -> Option<Map<Seq<char>, UserReward>>
    decreases n,
{
    if n == 0 {
        Some(ar)
    } else {
        match personal_fold(ar, staker, keys, coins, stake, (n - 1) as nat) {
            Some(m) => personal_step(m, staker, keys[n - 1], coins[n - 1], stake),
            None => None,
        }
    }
}

/// Once a step fails, every longer fold fails.
pub proof fn lemma_fold_none(
    ar: Map<Seq<char>, UserReward>,
    staker: Seq<char>,
    keys: Seq<Seq<char>>,
    coins: Seq<RewardCoin>,
    stake: Option<u128>,
    i: nat,
    n: nat,
)
    requires
        i <= n,
        personal_fold(ar, staker, keys, coins, stake, i) is None,
    ensures
        personal_fold(ar, staker, keys, coins, stake, n) is None,
    decreases n - i,
{
    if i < n {
        lemma_fold_none(ar, staker, keys, coins, stake, i + 1, n);
    }
}

/// Every coin advances in range.
pub open spec fn all_advance(coins: Seq<RewardCoin>, cur: int, total_token: int) -> bool {
    forall|j: int| 0 <= j < coins.len() ==> (#[trigger] advance_coin(coins[j], cur, total_token, true)) is Some
}

/// The coins after advancing each.
pub open spec fn advanced_coins(coins: Seq<RewardCoin>, cur: int, total_token: int) -> Seq<RewardCoin> {
    coins.map_values(|c: RewardCoin| advance_coin(c, cur, total_token, true).unwrap())
}

/// The map from coin keys to coins of a reward book with these keys and
/// values.
pub open spec fn coins_map(keys: Seq<Seq<char>>, coins: Seq<RewardCoin>) -> Map<Seq<char>, RewardCoin> {
    Map::new(|k: Seq<char>| keys.contains(k), |k: Seq<char>| coins[keys.index_of(k)])
}

/// What a claim of `staker`'s reward in `coin` pays at `now`, with the
/// coins and account rewards brought up to date first.
pub open spec fn claim_value(s: &OinStake, staker: Seq<char>, coin: Seq<char>, now: u64) -> int {
    let keys = s.rewards.reward_coins.key_seq();
    let cm = coins_map(keys, advanced_coins(s.rewards.reward_coins.val_seq(), secs(now), s.total_token as int));
    let mid = personal_fold(s.rewards.account_reward.map(), staker, keys,
        advanced_coins(s.rewards.reward_coins.val_seq(), secs(now), s.total_token as int), stake_of(s, staker),
        keys.len())->0;
    let k = reward_key(staker, coin);
    if cm[coin].total_reward >= mid[k].reward { mid[k].reward as int } else { cm[coin].total_reward as int }
}

impl OinStake {
    /// Key of `staker`'s reward in `reward_coin`.
    pub fn get_staker_reward_key(&self, staker: &String, reward_coin: &String) -> (r: String)
        ensures
            r@ == reward_key(staker@, reward_coin@),
    {
        staker_reward_key(staker, reward_coin)
    }

    /// The reward coin under `coin_key`.
    pub fn internal_get_reward_coin(&self, coin_key: &String) -> (r: Result<RewardCoin, ContractError>)
        requires
            self.wf(),
        ensures
            match r {
                Ok(c) => self.rewards.reward_coins.map().dom().contains(coin_key@)
                    && c == self.rewards.reward_coins.map()[coin_key@],
                Err(e) => !self.rewards.reward_coins.map().dom().contains(coin_key@)
                    && e == ContractError::NoRewardCoin,
            },
    {
        match self.rewards.reward_coins.get(coin_key) {
            Some(c) => Ok(c),
            None => Err(ContractError::NoRewardCoin),
        }
    }

    /// `staker`'s reward record in a coin.
    pub fn internal_get_account_reward(&self, staker: &String, coin_key: &String) -> (r: Result<UserReward, ContractError>)
        requires
            self.wf(),
        ensures
            ({
                let k = reward_key(staker@, coin_key@);
                match r {
                    Ok(u) => self.rewards.account_reward.map().dom().contains(k)
                        && u == self.rewards.account_reward.map()[k],
                    Err(e) => !self.rewards.account_reward.map().dom().contains(k)
                        && e == ContractError::RewardNotRegistered,
                }
            }),
    {
        let k = staker_reward_key(staker, coin_key);
        match self.rewards.account_reward.get(&k) {
            Some(u) => Ok(u),
            None => Err(ContractError::RewardNotRegistered),
        }
    }

    /// `staker`'s reward record in `reward_coin`, if any.
    pub fn get_account_reward(&self, staker: &String, reward_coin: &String) -> (r: Option<UserReward>)
        requires
            self.wf(),
        ensures
            ({
                let k = reward_key(staker@, reward_coin@);
                match r {
                    Some(u) => self.rewards.account_reward.map().dom().contains(k)
                        && u == self.rewards.account_reward.map()[k],
                    None => !self.rewards.account_reward.map().dom().contains(k),
                }
            }),
    {
        let k = staker_reward_key(staker, reward_coin);
        self.rewards.account_reward.get(&k)
    }

    /// Reward `staker` has earned in a coin up to the coin's recorded index.
    pub fn internal_get_saved_reward(&self, staker: &String, coin_key: &String) -> (r: Result<u128, ContractError>)
        requires
            self.wf(),
        ensures
            ({
                let cm = self.rewards.reward_coins.map();
                let pm = self.positions.map();
                let am = self.rewards.account_reward.map();
                let k = reward_key(staker@, coin_key@);
                &&& !cm.dom().contains(coin_key@) ==> r == Err::<u128, ContractError>(ContractError::NoRewardCoin)
                &&& cm.dom().contains(coin_key@) && !pm.dom().contains(staker@)
                    ==> r == Err::<u128, ContractError>(ContractError::NotRegistered)
                &&& cm.dom().contains(coin_key@) && pm.dom().contains(staker@) ==> {
                    if am.dom().contains(k) {
                        match r {
                            Ok(v) => saved_spec(am[k], cm[coin_key@], pm[staker@].token as int) == Some(v as int),
                            Err(_) => saved_spec(am[k], cm[coin_key@], pm[staker@].token as int) is None,
                        }
                    } else {
                        r == Ok::<u128, ContractError>(0)
                    }
                }
            }),
    {
        let c = self.internal_get_reward_coin(coin_key)?;
        let stake = match self.positions.get(staker) {
            Some(p) => p.token,
            None => return Err(ContractError::NotRegistered),
        };
        let k = staker_reward_key(staker, coin_key);
        match self.rewards.account_reward.get(&k) {
            Some(ur) => saved_reward(ur, &c, stake),
            None => Ok(0),
        }
    }

    /// Reward `staker` has earned in a coin since the coin's last index
    /// update, at `now` (nanoseconds).
    pub fn internal_get_unsaved_reward(&self, staker: &String, coin_key: &String, now: u64)
        -> (r: Result<u128, ContractError>)
        requires
            self.wf(),
        ensures
            ({
                let cm = self.rewards.reward_coins.map();
                let pm = self.positions.map();
                &&& !cm.dom().contains(coin_key@) ==> r == Err::<u128, ContractError>(ContractError::NoRewardCoin)
                &&& cm.dom().contains(coin_key@) && !pm.dom().contains(staker@)
                    ==> r == Err::<u128, ContractError>(ContractError::NotRegistered)
                &&& cm.dom().contains(coin_key@) && pm.dom().contains(staker@) ==> {
                    let c = cm[coin_key@];
                    if self.total_token == 0 {
                        r == Ok::<u128, ContractError>(0)
                    } else {
                        let spec = if secs(now) < c.block_number {
                            None
                        } else {
                            mul3_div_spec(secs(now) - c.block_number, c.reward_speed as int,
                                pm[staker@].token as int, self.total_token as int)
                        };
                        match r {
                            Ok(v) => spec == Some(v as int),
                            Err(_) => spec is None,
                        }
                    }
                }
            }),
    {
        let c = self.internal_get_reward_coin(coin_key)?;
        let stake = match self.positions.get(staker) {
            Some(p) => p.token,
            None => return Err(ContractError::NotRegistered),
        };
        let cur = Self::to_nano(now);
        if self.total_token == 0 {
            Ok(0)
        } else {
            let delta = c_sub(cur as u128, c.block_number as u128)?;
            mul3_div(delta, c.reward_speed, stake, self.total_token)
        }
    }

    /// Saved plus unsaved reward of `staker` in a coin.
    pub fn internal_get_staker_reward(&self, staker: &String, coin_key: &String, now: u64)
        -> (r: Result<u128, ContractError>)
        requires
            self.wf(),
        ensures
            r matches Ok(v) ==> {
                &&& self.internal_get_saved_reward_spec(staker@, coin_key@) is Some
                &&& self.internal_get_unsaved_reward_spec(staker@, coin_key@, now) is Some
                &&& v == self.internal_get_saved_reward_spec(staker@, coin_key@).unwrap()
                    + self.internal_get_unsaved_reward_spec(staker@, coin_key@, now).unwrap()
            },
            r is Err ==> self.internal_get_saved_reward_spec(staker@, coin_key@) is None
                || self.internal_get_unsaved_reward_spec(staker@, coin_key@, now) is None
                || !fits(self.internal_get_saved_reward_spec(staker@, coin_key@).unwrap()
                    + self.internal_get_unsaved_reward_spec(staker@, coin_key@, now).unwrap()),
    {
        let a = self.internal_get_saved_reward(staker, coin_key)?;
        let b = self.internal_get_unsaved_reward(staker, coin_key, now)?;
        c_add(a, b)
    }

    /// What `internal_get_saved_reward` computes, when it succeeds.
    pub open spec fn internal_get_saved_reward_spec(&self, staker: Seq<char>, coin_key: Seq<char>) -> Option<int> {
        let cm = self.rewards.reward_coins.map();
        let pm = self.positions.map();
        let am = self.rewards.account_reward.map();
        let k = reward_key(staker, coin_key);
        if !cm.dom().contains(coin_key) || !pm.dom().contains(staker) {
            None
        } else if am.dom().contains(k) {
            saved_spec(am[k], cm[coin_key], pm[staker].token as int)
        } else {
            Some(0)
        }
    }

    /// What `internal_get_unsaved_reward` computes, when it succeeds.
    pub open spec fn internal_get_unsaved_reward_spec(&self, staker: Seq<char>, coin_key: Seq<char>, now: u64) -> Option<int> {
        let cm = self.rewards.reward_coins.map();
        let pm = self.positions.map();
        if !cm.dom().contains(coin_key) || !pm.dom().contains(staker) {
            None
        } else if self.total_token == 0 {
            Some(0)
        } else if secs(now) < cm[coin_key].block_number {
            None
        } else {
            mul3_div_spec(secs(now) - cm[coin_key].block_number, cm[coin_key].reward_speed as int,
                pm[staker].token as int, self.total_token as int)
        }
    }
}


/// `account`'s pledge, if registered.
pub open spec fn stake_of(s: &OinStake, account: Seq<char>) -> Option<u128> {
    if s.positions.map().dom().contains(account) {
        Some(s.positions.map()[account].token)
    } else {
        None
    }
}

impl OinStake {
    /// Brings every reward coin's index forward to `now` (nanoseconds).
    pub fn update_system_index(&mut self, now: u64) -> (r: Result<(), ContractError>)
        requires
            old(self).wf(),
        ensures
            final(self).wf(),
            *final(self) == (OinStake {
                rewards: Rewards { reward_coins: final(self).rewards.reward_coins, ..old(self).rewards },
                ..*old(self)
            }),
            final(self).rewards.reward_coins.key_seq() == old(self).rewards.reward_coins.key_seq(),
            r is Ok <==> all_advance(old(self).rewards.reward_coins.val_seq(), secs(now), old(self).total_token as int),
            r is Ok ==> final(self).rewards.reward_coins.val_seq() == advanced_coins(
                old(self).rewards.reward_coins.val_seq(), secs(now), old(self).total_token as int),
    {
        let cur = Self::to_nano(now);
        let tt = self.total_token;
        let n = self.rewards.reward_coins.len();
        let ghost coins0 = self.rewards.reward_coins.val_seq();
        let mut i: usize = 0;
        while i < n
            invariant
                self.wf(),
                i <= n,
                n == coins0.len(),
                n == self.rewards.reward_coins.len_spec(),
                cur as int == secs(now),
                tt == old(self).total_token,
                *self == (OinStake {
                    rewards: Rewards { reward_coins: self.rewards.reward_coins, ..old(self).rewards },
                    ..*old(self)
                }),
                coins0 == old(self).rewards.reward_coins.val_seq(),
                self.rewards.reward_coins.key_seq() == old(self).rewards.reward_coins.key_seq(),
                self.rewards.reward_coins.val_seq().len() == n,
                forall|j: int| 0 <= j < i ==> (#[trigger] advance_coin(coins0[j], cur as int, tt as int, true)) is Some
                    && self.rewards.reward_coins.val_seq()[j] == advance_coin(coins0[j], cur as int, tt as int, true).unwrap(),
                forall|j: int| i <= j < n ==> #[trigger] self.rewards.reward_coins.val_seq()[j] == coins0[j],
            decreases n - i,
        {
            let c = self.rewards.reward_coins.val_at(i);
            match advance_reward_coin(c, cur, tt, true) {
                Ok(c2) => {
                    self.rewards.reward_coins.update_at(i, c2);
                },
                Err(e) => {
                    return Err(e);
                },
            }
            i = i + 1;
        }
        proof {
            assert(self.rewards.reward_coins.val_seq() =~= advanced_coins(coins0, cur as int, tt as int));
        }
        Ok(())
    }

    /// Brings one reward coin's index forward to `now`, whatever its speed.
    pub fn update_system_single_index(&mut self, coin_key: &String, now: u64) -> (r: Result<(), ContractError>)
        requires
            old(self).wf(),
        ensures
            final(self).wf(),
            *final(self) == (OinStake {
                rewards: Rewards { reward_coins: final(self).rewards.reward_coins, ..old(self).rewards },
                ..*old(self)
            }),
            ({
                let cm = old(self).rewards.reward_coins.map();
                &&& !cm.dom().contains(coin_key@) ==> r == Err::<(), ContractError>(ContractError::NoRewardCoin)
                &&& r is Ok <==> cm.dom().contains(coin_key@)
                    && advance_coin(cm[coin_key@], secs(now), old(self).total_token as int, false) is Some
                &&& r is Ok ==> final(self).rewards.reward_coins.map() == cm.insert(coin_key@,
                    advance_coin(cm[coin_key@], secs(now), old(self).total_token as int, false).unwrap())
                &&& r is Ok ==> final(self).rewards.reward_coins.key_seq() == old(self).rewards.reward_coins.key_seq()
            }),
    {
        let c = self.internal_get_reward_coin(coin_key)?;
        let cur = Self::to_nano(now);
        let c2 = advance_reward_coin(c, cur, self.total_token, false)?;
        self.rewards.reward_coins.insert(coin_key.clone(), c2);
        Ok(())
    }

    /// Brings the coins forward, then records in each coin the reward
    /// `account` earned up to the coin's index.
    pub fn update_personal_token(&mut self, account: &String, now: u64) -> (r: Result<(), ContractError>)
        requires
            old(self).wf(),
        ensures
            final(self).wf(),
            *final(self) == (OinStake {
                rewards: Rewards {
                    reward_coins: final(self).rewards.reward_coins,
                    account_reward: final(self).rewards.account_reward,
                },
                ..*old(self)
            }),
            ({
                let coins0 = old(self).rewards.reward_coins.val_seq();
                let keys = old(self).rewards.reward_coins.key_seq();
                let tt = old(self).total_token as int;
                let coins1 = advanced_coins(coins0, secs(now), tt);
                let folded = personal_fold(old(self).rewards.account_reward.map(), account@, keys, coins1,
                    stake_of(old(self), account@), keys.len());
                &&& r is Ok <==> all_advance(coins0, secs(now), tt) && folded is Some
                &&& r is Ok ==> {
                    &&& final(self).rewards.reward_coins.key_seq() == keys
                    &&& final(self).rewards.reward_coins.val_seq() == coins1
                    &&& final(self).rewards.account_reward.map() == folded.unwrap()
                }
            }),
    {
        self.update_system_index(now)?;
        let ghost s1 = *self;
        let ghost keys = self.rewards.reward_coins.key_seq();
        let ghost coins1 = self.rewards.reward_coins.val_seq();
        let ghost stake = stake_of(self, account@);
        let stake_exec: Option<u128> = match self.positions.get(account) {
            Some(p) => Some(p.token),
            None => None,
        };
        let n = self.rewards.reward_coins.len();
        let mut i: usize = 0;
        while i < n
            invariant
                self.wf(),
                i <= n,
                n == keys.len(),
                n == coins1.len(),
                keys == self.rewards.reward_coins.key_seq(),
                coins1 == self.rewards.reward_coins.val_seq(),
                stake_exec == stake,
                s1 == (OinStake {
                    rewards: Rewards { reward_coins: s1.rewards.reward_coins, ..old(self).rewards },
                    ..*old(self)
                }),
                keys == old(self).rewards.reward_coins.key_seq(),
                all_advance(old(self).rewards.reward_coins.val_seq(), secs(now), old(self).total_token as int),
                coins1 == advanced_coins(old(self).rewards.reward_coins.val_seq(), secs(now), old(self).total_token as int),
                stake == stake_of(old(self), account@),
                *self == (OinStake {
                    rewards: Rewards {
                        reward_coins: s1.rewards.reward_coins,
                        account_reward: self.rewards.account_reward,
                    },
                    ..s1
                }),
                personal_fold(s1.rewards.account_reward.map(), account@, keys, coins1, stake, i as nat)
                    == Some(self.rewards.account_reward.map()),
            decreases n - i,
        {
            let coin_key = self.rewards.reward_coins.key_at(i);
            let c = self.rewards.reward_coins.val_at(i);
            let k = staker_reward_key(account, &coin_key);
            match self.rewards.account_reward.get(&k) {
                None => {
                    self.rewards.account_reward.insert(k, UserReward { index: c.index, reward: 0 });
                },
                Some(ur) => {
                    if c.index > ur.index {
                        if stake_exec.is_none() {
                            proof {
                                assert(stake is None);
                                assert(self.rewards.account_reward.map().dom().contains(k@));
                                assert(c.index > self.rewards.account_reward.map()[k@].index);
                                assert(personal_fold(s1.rewards.account_reward.map(), account@, keys, coins1, stake, (i + 1) as nat) is None);
                                lemma_fold_none(s1.rewards.account_reward.map(), account@, keys, coins1, stake, (i + 1) as nat, n as nat);

                            }
                            return Err(ContractError::NotRegistered);
                        }
                        let st = stake_exec.unwrap();
                        let v = match saved_reward(ur, &c, st) {
                            Ok(v) => v,
                            Err(e) => {
                                proof {
                                    lemma_fold_none(s1.rewards.account_reward.map(), account@, keys, coins1, stake, (i + 1) as nat, n as nat);
                                }
                                return Err(e);
                            },
                        };
                        self.rewards.account_reward.insert(k, UserReward { index: c.index, reward: v });
                    }
                },
            }
            i = i + 1;
        }
        Ok(())
    }
}


impl OinStake {
    /// Claims `staker`'s reward in a coin, as far as the coin's pool covers
    /// it. Returns the transfer of the claimed amount.
    pub fn claim_reward(&mut self, staker: &String, reward_coin: &String, now: u64) -> (r: Result<Transfer, ContractError>)
        requires
            old(self).wf(),
        ensures
            final(self).wf(),
            ({
                let s = old(self);
                let keys = s.rewards.reward_coins.key_seq();
                let coins1 = advanced_coins(s.rewards.reward_coins.val_seq(), secs(now), s.total_token as int);
                let cm = coins_map(keys, coins1);
                let folded = personal_fold(s.rewards.account_reward.map(), staker@, keys, coins1,
                    stake_of(s, staker@), keys.len());
                let mid = folded->0;
                let k = reward_key(staker@, reward_coin@);
                let updated = all_advance(s.rewards.reward_coins.val_seq(), secs(now), s.total_token as int)
                    && folded is Some;
                let value = claim_value(s, staker@, reward_coin@, now);
                let c = cm[reward_coin@];
                &&& s.esm.is_claim_reward_live != 1 ==> r == Err::<Transfer, ContractError>(ContractError::SystemPause)
                &&& s.esm.is_claim_reward_live == 1 && updated && !cm.dom().contains(reward_coin@)
                    ==> r == Err::<Transfer, ContractError>(ContractError::NoRewardCoin)
                &&& s.esm.is_claim_reward_live == 1 && updated && cm.dom().contains(reward_coin@)
                    && !mid.dom().contains(k) ==> r == Err::<Transfer, ContractError>(ContractError::RewardNotRegistered)
                &&& s.esm.is_claim_reward_live == 1 && updated && cm.dom().contains(reward_coin@)
                    && mid.dom().contains(k) && value == 0 ==> r == Err::<Transfer, ContractError>(ContractError::RewardZero)
                &&& r is Ok <==> s.esm.is_claim_reward_live == 1 && updated && cm.dom().contains(reward_coin@)
                    && mid.dom().contains(k) && value > 0
                &&& r matches Ok(t) ==> {
                    &&& t.amount == value
                    &&& final(self).rewards.reward_coins.map()
                        == cm.insert(reward_coin@, RewardCoin { total_reward: (c.total_reward - value) as u128, ..c })
                    &&& final(self).rewards.account_reward.map() == mid.insert(k, UserReward {
                            index: c.index,
                            reward: (mid[k].reward - value) as u128,
                        })
                    &&& t.receiver_id@ == staker@
                    &&& t.token_contract@ == c.token@
                    &&& t.callback matches Callback::OnClaimReward { holder, coin_key, amount }
                        && holder@ == staker@ && coin_key@ == reward_coin@ && amount == t.amount
                }
            }),
            *final(self) == (OinStake { rewards: final(self).rewards, ..*old(self) }),
    {
        if self.esm.is_claim_reward_live != 1 {
            return Err(ContractError::SystemPause);
        }
        self.update_personal_token(staker, now)?;
        proof {
            assert(self.rewards.reward_coins.map() =~= coins_map(self.rewards.reward_coins.key_seq(),
                self.rewards.reward_coins.val_seq()));
        }
        let mut c = self.internal_get_reward_coin(reward_coin)?;
        let mut ur = self.internal_get_account_reward(staker, reward_coin)?;
        let value = if c.total_reward >= ur.reward { ur.reward } else { c.total_reward };
        if value == 0 {
            return Err(ContractError::RewardZero);
        }
        c.total_reward = c.total_reward - value;
        ur.index = c.index;
        ur.reward = ur.reward - value;
        let k = staker_reward_key(staker, reward_coin);
        self.rewards.account_reward.insert(k, ur);
        let token = c.token.clone();
        self.rewards.reward_coins.insert(reward_coin.clone(), c);
        Ok(Transfer {
            token_contract: token,
            receiver_id: staker.clone(),
            amount: value,
            callback: Callback::OnClaimReward { holder: staker.clone(), coin_key: reward_coin.clone(), amount: value },
        })
    }

    /// Credits a liquidation: gas compensation to the liquidator's and the
    /// surplus to the liquidated account's collateral reward, the fee to the
    /// project.
    pub fn personal_liquidation_token(
        &mut self,
        send_id: &String,
        account_id: &String,
        liquidation_gas: u128,
        surplus_token: u128,
        liquidation_fee: u128,
    ) -> (r: Result<(), ContractError>)
        requires
            old(self).wf(),
        ensures
            final(self).wf(),
            *final(self) == (OinStake {
                rewards: final(self).rewards,
                total_liquidation_fee: final(self).total_liquidation_fee,
                ..*old(self)
            }),
            ({
                let cm = old(self).rewards.reward_coins.map();
                let am = old(self).rewards.account_reward.map();
                let ko = reward_key(send_id@, ST_NEAR@);
                let kt = reward_key(account_id@, ST_NEAR@);
                let am1 = am.insert(ko, UserReward { index: am[ko].index, reward: (am[ko].reward + liquidation_gas) as u128 });
                let am2 = if surplus_token > 0 {
                    am1.insert(kt, UserReward { index: am1[kt].index, reward: (am1[kt].reward + surplus_token) as u128 })
                } else {
                    am1
                };
                &&& r is Ok <==> {
                    &&& cm.dom().contains(ST_NEAR@)
                    &&& am.dom().contains(ko)
                    &&& fits(am[ko].reward + liquidation_gas)
                    &&& surplus_token > 0 ==> am1.dom().contains(kt) && fits(am1[kt].reward + surplus_token)
                    &&& liquidation_fee > 0 ==> fits(old(self).total_liquidation_fee + liquidation_fee)
                    &&& fits(cm[ST_NEAR@].total_reward + liquidation_gas + surplus_token)
                }
                &&& r is Ok ==> {
                    &&& final(self).rewards.account_reward.map() == am2
                    &&& final(self).total_liquidation_fee == old(self).total_liquidation_fee + liquidation_fee
                    &&& final(self).rewards.reward_coins.map() == cm.insert(ST_NEAR@, RewardCoin {
                            total_reward: (cm[ST_NEAR@].total_reward + liquidation_gas + surplus_token) as u128,
                            ..cm[ST_NEAR@]
                        })
                }
            }),
    {
        let coin_key = st_near();
        let mut sys = self.internal_get_reward_coin(&coin_key)?;
        let ko = staker_reward_key(send_id, &coin_key);
        let uo = self.internal_get_account_reward(send_id, &coin_key)?;
        let ro = c_add(uo.reward, liquidation_gas)?;
        self.rewards.account_reward.insert(ko, UserReward { index: uo.index, reward: ro });
        if surplus_token > 0 {
            let kt = staker_reward_key(account_id, &coin_key);
            let ut = self.internal_get_account_reward(account_id, &coin_key)?;
            let rt = c_add(ut.reward, surplus_token)?;
            self.rewards.account_reward.insert(kt, UserReward { index: ut.index, reward: rt });
        }
        if liquidation_fee > 0 {
            self.total_liquidation_fee = c_add(self.total_liquidation_fee, liquidation_fee)?;
        }
        let t1 = c_add(sys.total_reward, liquidation_gas)?;
        sys.total_reward = c_add(t1, surplus_token)?;
        self.rewards.reward_coins.insert(coin_key, sys);
        Ok(())
    }
}


/// `j` is the position of the first coin whose token is `token`.
pub open spec fn first_coin(vs: Seq<RewardCoin>, j: int, token: Seq<char>) -> bool {
    &&& 0 <= j < vs.len()
    &&& vs[j].token@ == token
    &&& forall|i: int| 0 <= i < j ==> (#[trigger] vs[i]).token@ != token
}

impl OinStake {
    /// The first reward coin whose token is `reward_coin`, with its key.
    pub fn find_reward_coin(&self, reward_coin: &String) -> (r: Result<(String, RewardCoin), ContractError>)
        requires
            self.wf(),
        ensures
            ({
                let ks = self.rewards.reward_coins.key_seq();
                let vs = self.rewards.reward_coins.val_seq();
                match r {
                    Ok((k, c)) => self.rewards.reward_coins.map().dom().contains(k@)
                        && self.rewards.reward_coins.map()[k@] == c
                        && exists|i: int| 0 <= i < vs.len() && #[trigger] vs[i] == c && ks[i] == k@
                        && c.token@ == reward_coin@
                        && forall|j: int| 0 <= j < i ==> (#[trigger] vs[j]).token@ != reward_coin@,
                    Err(e) => e == ContractError::NoRewardCoin
                        && forall|j: int| 0 <= j < vs.len() ==> (#[trigger] vs[j]).token@ != reward_coin@,
                }
            }),
    {
        let n = self.rewards.reward_coins.len();
        let mut i: usize = 0;
        while i < n
            invariant
                self.wf(),
                i <= n,
                n == self.rewards.reward_coins.len_spec(),
                n == self.rewards.reward_coins.val_seq().len(),
                forall|j: int| 0 <= j < i ==> (#[trigger] self.rewards.reward_coins.val_seq()[j]).token@ != reward_coin@,
            decreases n - i,
        {
            let c = self.rewards.reward_coins.val_at(i);
            if c.token == *reward_coin {
                let k = self.rewards.reward_coins.key_at(i);
                proof {
                    self.rewards.reward_coins.lemma_pos(i as int);
                }
                return Ok((k, c));
            }
            i = i + 1;
        }
        Err(ContractError::NoRewardCoin)
    }

    /// Adds `amount` to the pool of the first coin whose token is
    /// `reward_coin`.
    pub fn inject_reward(&mut self, amount: u128, reward_coin: &String) -> (r: Result<(), ContractError>)
        requires
            old(self).wf(),
        ensures
            final(self).wf(),
            *final(self) == (OinStake {
                rewards: Rewards { reward_coins: final(self).rewards.reward_coins, ..old(self).rewards },
                ..*old(self)
            }),
            ({
                let cm = old(self).rewards.reward_coins.map();
                let ks = old(self).rewards.reward_coins.key_seq();
                let vs = old(self).rewards.reward_coins.val_seq();
                &&& r is Ok <==> exists|j: int| #[trigger] first_coin(vs, j, reward_coin@)
                    && fits(vs[j].total_reward + amount)
                &&& r is Ok ==> exists|j: int| #[trigger] first_coin(vs, j, reward_coin@)
                    && final(self).rewards.reward_coins.map() == cm.insert(ks[j],
                        RewardCoin { total_reward: (vs[j].total_reward + amount) as u128, ..vs[j] })
                &&& (forall|j: int| 0 <= j < vs.len() ==> (#[trigger] vs[j]).token@ != reward_coin@)
                    ==> r == Err::<(), ContractError>(ContractError::NoRewardCoin)
                &&& r is Err ==> r == Err::<(), ContractError>(ContractError::NoRewardCoin)
                    || r == Err::<(), ContractError>(ContractError::AddOverflow)
                &&& r is Err ==> *final(self) == *old(self)
            }),
    {
        let ghost vs = self.rewards.reward_coins.val_seq();
        let ghost ks = self.rewards.reward_coins.key_seq();
        let ghost tok = reward_coin@;
        let (key, mut c) = match self.find_reward_coin(reward_coin) {
            Ok(kc) => kc,
            Err(e) => {
                proof {
                    assert forall|j: int| !first_coin(vs, j, tok) by {
                        if 0 <= j < vs.len() {
                            assert(vs[j].token@ != tok);
                        }
                    }
                }
                return Err(e);
            },
        };
        let ghost i = choose|i: int| 0 <= i < vs.len() && #[trigger] vs[i] == c && ks[i] == key@
            && c.token@ == tok && forall|j: int| 0 <= j < i ==> (#[trigger] vs[j]).token@ != tok;
        proof {
            assert(first_coin(vs, i, tok));
            assert forall|j: int| #[trigger] first_coin(vs, j, tok) implies j == i by {
                if j < i {
                    assert(vs[j].token@ != tok);
                } else if j > i {
                    assert(vs[i].token@ != tok);
                }
            }
        }
        c.total_reward = c_add(c.total_reward, amount)?;
        self.rewards.reward_coins.insert(key, c);
        Ok(())
    }
}

} // verus!
