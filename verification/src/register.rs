//! Registering accounts, and the entry point for tokens sent to the
//! contract.
use vstd::prelude::*;
use crate::allot::zero_position;
use crate::error::ContractError;
use crate::math::{c_mul, fits};
use crate::ops::deposit_ok;
use crate::reward::{first_coin, reward_key, staker_reward_key};
use crate::sp::{g_entry, sum_entry};
use crate::state::{OinStake, ST_NEAR, ST_OIN};
use crate::types::{AccountAllot, Depositor, Position, RewardCoin, Snapshots, UserReward, UserStable};
use vstd::string::StringExecFns;

verus! {

/// What a token sent to the contract is for, as its message says.
#[derive(Clone, Copy, Debug, PartialEq, Eq, Structural)]
pub enum FtOnTransferArgs {
    DepositToken,
    InjectSpReward,
    InjectReward,
}

/// The account rewards with a fresh entry for `account` in each of the
/// first `n` coins, at the coin's current index.
pub open spec fn reward_entries(
    am: Map<Seq<char>, UserReward>,
    account: Seq<char>,
    keys: Seq<Seq<char>>,
    coins: Seq<RewardCoin>,
    n: nat,
) -> Map<Seq<char>, UserReward>
    decreases n,
{
    if n == 0 {
        am
    } else {
        reward_entries(am, account, keys, coins, (n - 1) as nat).insert(
            reward_key(account, keys[n - 1]),
            UserReward { index: coins[n - 1].double_scale, reward: 0 },
        )
    }
}

/// A new account's stability-pool record: nothing deposited, its snapshot
/// at the current scale.
pub open spec fn fresh_depositor(s: &OinStake) -> Depositor {
    let sp = s.sp;
    Depositor {
        deposit: 0,
        snapshot: Snapshots {
            scale: sp.current_scale,
            epoch: sp.current_epoch,
            p: sp.p_system,
            g: g_entry(sp, sp.current_epoch as int, sp.current_scale as int)->0.g_system,
            s: sum_entry(sp, sp.current_epoch as int, sp.current_scale as int)->0,
        },
        min_reward: 0,
        dis_reward: 0,
    }
}

/// Whether `account` can be registered with the attached deposit at
/// `byte_cost` per byte.
pub open spec fn register_ok(s: &OinStake, account: Seq<char>, attached: u128, byte_cost: u128) -> bool {
    let cost = s.stake_storage_usage * byte_cost;
    &&& fits(cost)
    &&& cost <= attached
    &&& !s.positions.map().dom().contains(account)
    &&& (!s.token.accounts.map().dom().contains(account) ==> s.token.account_storage_usage * byte_cost <= attached)
    &&& g_entry(s.sp, s.sp.current_epoch as int, s.sp.current_scale as int) is Some
}

/// `t` is `s` with `account` registered, paid by `attached_deposit` at
/// `byte_cost` per byte, `refund` being what goes back: a cleared position,
/// a fresh reward entry in each coin, a stable coin account if it had none,
/// and a fresh stability pool record.
pub open spec fn registered(s: &OinStake, t: &OinStake, account: Seq<char>, attached_deposit: u128, byte_cost: u128,
    refund: int) -> bool {
    let pm = s.positions.map();
    let tm = s.token.accounts.map();
    let token_cost = s.token.account_storage_usage * byte_cost;
    let keys = s.rewards.reward_coins.key_seq();
    let coins = s.rewards.reward_coins.val_seq();
    &&& refund == if tm.dom().contains(account) { attached_deposit as int } else { attached_deposit - token_cost }
    &&& t.positions.map() == pm.insert(account, zero_position())
    &&& t.rewards.reward_coins == s.rewards.reward_coins
    &&& t.rewards.account_reward.map() == reward_entries(s.rewards.account_reward.map(), account, keys, coins, keys.len())
    &&& t.token.accounts.map() == if tm.dom().contains(account) { tm } else { tm.insert(account, 0) }
    &&& t.token.total_supply == s.token.total_supply
    &&& t.token.account_storage_usage == s.token.account_storage_usage
    &&& t.sp.depositors.map() == s.sp.depositors.map().insert(account, fresh_depositor(s))
    &&& t.sp == (crate::state::StablePool { depositors: t.sp.depositors, ..s.sp })
    &&& *t == (OinStake { positions: t.positions, rewards: t.rewards, token: t.token, sp: t.sp, ..*s })
}

impl OinStake {
    /// Storage deposit one registration needs at `byte_cost` per byte.
    pub fn cal_storage_near(&self, byte_cost: u128) -> (r: Result<u128, ContractError>)
        ensures
            r is Ok <==> fits(self.stake_storage_usage * byte_cost),
            r is Ok ==> r->Ok_0 == self.stake_storage_usage * byte_cost,
            r is Err ==> r == Err::<u128, ContractError>(ContractError::MulOverflow),
    {
        c_mul(self.stake_storage_usage, byte_cost)
    }

    /// Registers `account`, paid by the attached deposit: an empty position,
    /// an entry in each reward coin, a stable coin account and a
    /// stability-pool record. Returns the deposit the stable coin
    /// registration refunds.
    pub fn register_account(&mut self, account: &String, attached_deposit: u128, byte_cost: u128)
        -> (r: Result<u128, ContractError>)
        requires
            old(self).wf(),
        ensures
            final(self).wf(),
            r is Ok && crate::vaults::list_kept(old(self)) ==> crate::vaults::list_kept(final(self)),
            ({
                let s = old(self);
                let cost = s.stake_storage_usage * byte_cost;
                let pm = s.positions.map();
                let tm = s.token.accounts.map();
                let token_cost = s.token.account_storage_usage * byte_cost;
                let keys = s.rewards.reward_coins.key_seq();
                let coins = s.rewards.reward_coins.val_seq();
                &&& !fits(cost) ==> r == Err::<u128, ContractError>(ContractError::MulOverflow)
                &&& fits(cost) && attached_deposit < cost ==> r == Err::<u128, ContractError>(ContractError::StorageNotEnough)
                &&& fits(cost) && cost <= attached_deposit && pm.dom().contains(account@)
                    ==> r == Err::<u128, ContractError>(ContractError::AlreadyRegistered)
                &&& r is Ok <==> register_ok(s, account@, attached_deposit, byte_cost)
                &&& r is Ok ==> registered(s, final(self), account@, attached_deposit, byte_cost, r->Ok_0 as int)
            }),
    {
        let cost = self.cal_storage_near(byte_cost)?;
        if attached_deposit < cost {
            return Err(ContractError::StorageNotEnough);
        }
        if self.is_register(account) {
            return Err(ContractError::AlreadyRegistered);
        }
        let ghost s0 = *self;
        let ghost keys = self.rewards.reward_coins.key_seq();
        let ghost coins = self.rewards.reward_coins.val_seq();
        let n = self.rewards.reward_coins.len();
        let mut i: usize = 0;
        while i < n
            invariant
                self.wf(),
                i <= n,
                n == keys.len(),
                n == coins.len(),
                keys == self.rewards.reward_coins.key_seq(),
                coins == self.rewards.reward_coins.val_seq(),
                self.rewards.reward_coins == s0.rewards.reward_coins,
                self.rewards.account_reward.map()
                    == reward_entries(s0.rewards.account_reward.map(), account@, keys, coins, i as nat),
                *self == (OinStake {
                    rewards: crate::state::Rewards {
                        account_reward: self.rewards.account_reward,
                        ..s0.rewards
                    },
                    ..s0
                }),
            decreases n - i,
        {
            let key = self.rewards.reward_coins.key_at(i);
            let c = self.rewards.reward_coins.val_at(i);
            let k = staker_reward_key(account, &key);
            self.rewards.account_reward.insert(k, UserReward { index: c.double_scale, reward: 0 });
            i = i + 1;
        }
        let ghost pm0 = self.positions;
        let np = Position {
            coin: 0,
            token: 0,
            guarantee: 0,
            allot: AccountAllot { account_allot_debt: 0, account_allot_token: 0 },
            stable: UserStable { unpaid_stable_fee: 0, index: 0 },
        };
        self.positions.insert(account.clone(), np);
        proof {
            crate::state::lemma_reserved_insert(pm0, self.positions, account@, np);
        }
        let refund = self.register_usdo(account, attached_deposit, byte_cost)?;
        let e = self.sp.current_epoch;
        let sc = self.sp.current_scale;
        let g = self.sp.g_at(e, sc)?;
        let sum = self.sp.sum_at(e, sc)?;
        self.sp.depositors.insert(account.clone(), Depositor {
            deposit: 0,
            snapshot: Snapshots { scale: sc, epoch: e, p: self.sp.p_system, g: g.g_system, s: sum },
            min_reward: 0,
            dis_reward: 0,
        });
        Ok(refund)
    }

    /// The owner `caller` hands the contract to `owner`, registering it
    /// first if needed. Returns the deposit a registration refunds, 0 when
    /// none was made.
    pub fn set_owner(&mut self, caller: &String, owner: &String, attached_deposit: u128, byte_cost: u128)
        -> (r: Result<u128, ContractError>)
        requires
            old(self).wf(),
        ensures
            final(self).wf(),
            r is Ok && crate::vaults::list_kept(old(self)) ==> crate::vaults::list_kept(final(self)),
            caller@ != old(self).owner_id@ ==> r == Err::<u128, ContractError>(ContractError::NotAllowed),
            caller@ == old(self).owner_id@ && old(self).positions.map().dom().contains(owner@) ==> {
                &&& r == Ok::<u128, ContractError>(0)
                &&& final(self).owner_id@ == owner@
                &&& *final(self) == (OinStake { owner_id: final(self).owner_id, ..*old(self) })
            },
            r is Ok ==> final(self).owner_id@ == owner@ && final(self).positions.map().dom().contains(owner@),
            (r is Ok && !old(self).positions.map().dom().contains(owner@)) ==> exists|mid: OinStake|
                #[trigger] registered(old(self), &mid, owner@, attached_deposit, byte_cost, r->Ok_0 as int)
                && *final(self) == (OinStake { owner_id: final(self).owner_id, ..mid }),
            r is Ok <==> caller@ == old(self).owner_id@ && (old(self).positions.map().dom().contains(owner@)
                || register_ok(old(self), owner@, attached_deposit, byte_cost)),
    {
        self.assert_owner(caller)?;
        let mut refund: u128 = 0;
        let ghost mut mid = *self;
        if !self.is_register(owner) {
            refund = self.register_account(owner, attached_deposit, byte_cost)?;
            proof {
                mid = *self;
            }
        }
        self.owner_id = owner.clone();
        proof {
            if !old(self).positions.map().dom().contains(owner@) {
                assert(registered(old(self), &mid, owner@, attached_deposit, byte_cost, refund as int));
            }
        }
        Ok(refund)
    }

    /// Handles `amount` of `token_account`'s token sent by `sender` for the
    /// purpose `args`: a collateral deposit (stNEAR only), rewards for the
    /// coin of that token (owner only) or stability-pool mining rewards
    /// (OIN only, owner only). Keeps the whole amount: returns 0 to refund.
    pub fn ft_on_transfer(
        &mut self,
        sender: &String,
        amount: u128,
        args: FtOnTransferArgs,
        token_account: &String,
        now: u64,
    ) -> (r: Result<u128, ContractError>)
        requires
            old(self).wf(),
        ensures
            final(self).wf(),
            r is Ok && crate::vaults::list_kept(old(self)) && (args == FtOnTransferArgs::DepositToken
                && old(self).positions.map()[sender@].guarantee == 0 ==> old(self).params.guarantee_limit > 0)
                ==> crate::vaults::list_kept(final(self)),
            r is Ok ==> r->Ok_0 == 0,
            args == FtOnTransferArgs::DepositToken ==> {
                &&& token_account@ != ST_NEAR@ ==> r == Err::<u128, ContractError>(ContractError::OnlySupportStNear)
                &&& token_account@ == ST_NEAR@ && !old(self).positions.map().dom().contains(sender@)
                    ==> r == Err::<u128, ContractError>(ContractError::NotRegistered)
                &&& r is Ok <==> token_account@ == ST_NEAR@ && deposit_ok(old(self), amount, sender@, now)
                &&& r is Ok ==> crate::ops::deposited(*old(self), *final(self), amount, sender@, now)
            },
            args == FtOnTransferArgs::InjectSpReward ==> {
                &&& token_account@ != ST_OIN@ ==> r == Err::<u128, ContractError>(ContractError::OnlySupportOin)
                &&& token_account@ == ST_OIN@ && sender@ != old(self).owner_id@
                    ==> r == Err::<u128, ContractError>(ContractError::OnlyOwner)
                &&& r is Ok <==> token_account@ == ST_OIN@ && sender@ == old(self).owner_id@
                    && fits(old(self).sp.reward_sp + amount)
                &&& r is Ok ==> *final(self) == (OinStake {
                    sp: crate::state::StablePool { reward_sp: (old(self).sp.reward_sp + amount) as u128, ..old(self).sp },
                    ..*old(self)
                })
                &&& r is Err ==> *final(self) == *old(self)
            },
            args == FtOnTransferArgs::InjectReward ==> {
                let cm = old(self).rewards.reward_coins.map();
                let ks = old(self).rewards.reward_coins.key_seq();
                let vs = old(self).rewards.reward_coins.val_seq();
                &&& (forall|j: int| 0 <= j < vs.len() ==> (#[trigger] vs[j]).token@ != token_account@)
                    ==> r == Err::<u128, ContractError>(ContractError::NoRewardCoin)
                &&& (exists|j: int| 0 <= j < vs.len() && (#[trigger] vs[j]).token@ == token_account@)
                    && sender@ != old(self).owner_id@ ==> r == Err::<u128, ContractError>(ContractError::OnlyOwner)
                &&& r is Ok <==> sender@ == old(self).owner_id@ && exists|j: int|
                    #[trigger] first_coin(vs, j, token_account@) && fits(vs[j].total_reward + amount)
                &&& r is Ok ==> exists|j: int| #[trigger] first_coin(vs, j, token_account@)
                    && final(self).rewards.reward_coins.map() == cm.insert(ks[j],
                        RewardCoin { total_reward: (vs[j].total_reward + amount) as u128, ..vs[j] })
                &&& r is Ok ==> *final(self) == (OinStake {
                    rewards: crate::state::Rewards {
                        reward_coins: final(self).rewards.reward_coins,
                        ..old(self).rewards
                    },
                    ..*old(self)
                })
                &&& r is Err ==> *final(self) == *old(self)
            },
    {
        match args {
            FtOnTransferArgs::DepositToken => {
                if !str_eq(token_account, ST_NEAR) {
                    return Err(ContractError::OnlySupportStNear);
                }
                if !self.is_register(sender) {
                    return Err(ContractError::NotRegistered);
                }
                self.deposit_token(amount, sender, now)?;
                Ok(0)
            },
            FtOnTransferArgs::InjectReward => {
                let _found = self.find_reward_coin(token_account)?;
                if !self.is_owner(sender) {
                    return Err(ContractError::OnlyOwner);
                }
                self.inject_reward(amount, token_account)?;
                Ok(0)
            },
            FtOnTransferArgs::InjectSpReward => {
                if !str_eq(token_account, ST_OIN) {
                    return Err(ContractError::OnlySupportOin);
                }
                if !self.is_owner(sender) {
                    return Err(ContractError::OnlyOwner);
                }
                self.sp.inject_sp_reward(amount)?;
                Ok(0)
            },
        }
    }
}

/// Whether `s` spells `lit`.
pub fn str_eq(s: &String, lit: &str) -> (r: bool)
    ensures
        r == (s@ == lit@),
{
    let t = String::from_str(lit);
    *s == t
}

} // verus!
