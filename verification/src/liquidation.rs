//! Liquidation of a position below the liquidation line. Its debt, fee
//! included, goes first to the stability pool, the rest is spread over all
//! pledges; its collateral pays the liquidator's gas compensation and the
//! project's fee, covers the debt it hands over, and what is left is the
//! liquidated account's reward.
use vstd::prelude::*;
use crate::allot::{spread, stake_allot_spec, zero_position};
use crate::sp_ops::offset_ok;
use crate::consts::{INIT_MIN_RATIO_LINE, INIT_NO_LIQUIDATION_FEE_RATE, STAKE_RATIO_BASE};
use crate::debt::{debt_spec, sys_ratio_parts, sys_ratio_spec, user_ratio_of};
use crate::error::ContractError;
use crate::esm::esm_all;
use crate::math::{c_add, c_div, c_mul, c_sub, fits};
use crate::stablefee::{secs, unpaid_at, unpaid_ok};
use crate::reward::{advanced_coins, all_advance, coins_map, personal_fold, reward_key, stake_of};
use crate::sp::{
    epoch_after, g_rows, gs_after, loss_numerator, loss_per_unit, near_numerator, p_after, scale_after, sum_rows,
    sums_after,
};
use crate::state::{OinStake, StableFee, StablePool, ST_NEAR};
use crate::types::{RewardCoin, UserReward};
use crate::usdo::minted;
use crate::vaults::{list_kept, listed, names, vaults_wf};

verus! {

/// How a liquidation splits a position's debt and collateral.
#[derive(Clone, Copy, Debug, PartialEq, Eq, Structural)]
pub struct LiquidationPlan {
    /// Collateral credited to the liquidator.
    pub gas_compensation: u128,
    /// Collateral charged by the project.
    pub liquidation_fee: u128,
    /// Collateral left to cover the debt.
    pub token: u128,
    /// Debt and collateral the stability pool takes.
    pub sp_allot_coin: u128,
    pub sp_allot_token: u128,
    /// Debt and collateral spread over the pledges.
    pub stake_allot_coin: u128,
    pub stake_allot_token: u128,
    /// Collateral credited back to the liquidated account.
    pub surplus_token: u128,
    /// Collateral and coins the system's totals lose.
    pub reduce_pledge: u128,
    pub reduce_coin: u128,
    /// Collateral leaving the pledges the redistribution is spread over.
    pub sys_reduce_token: u128,
}

/// Collateral `debt` is worth at `ratio_part` (scaled by 10^8) at the price.
pub open spec fn share_of(s: &OinStake, debt: int, ratio_part: int) -> Option<int> {
    let a = debt * ratio_part;
    let b = a * STAKE_RATIO_BASE;
    if !fits(a) || !fits(b) || s.oracle.token_price == 0 {
        None
    } else {
        Some(b / s.oracle.token_price as int)
    }
}

/// The liquidator's gas compensation on `debt`.
pub open spec fn gas_spec(s: &OinStake, debt: int) -> Option<int> {
    share_of(s, debt, s.params.gas_compensation_ratio as int)
}

/// The project's fee on `debt` for a position at `ratio`: charged at or
/// above the fee line only.
pub open spec fn fee_spec(s: &OinStake, debt: int, ratio: int) -> Option<int> {
    if ratio >= INIT_NO_LIQUIDATION_FEE_RATE {
        share_of(s, debt, s.params.liquidation_fee_ratio as int)
    } else {
        Some(0)
    }
}

/// Collateral a pool takes for `debt` out of `token`.
pub open spec fn ssa(s: &OinStake, debt: int, token: int, ratio: int, is_stable: bool, is_all: bool) -> Option<int> {
    stake_allot_spec(debt, token, ratio, s.params.allot_ratio as int, s.oracle.token_price as int, is_stable, is_all)
}

/// The plan for a position at `ratio` with `debt` (its fee included) and
/// `allot_token` of collateral.
pub open spec fn plan_spec(s: &OinStake, ratio: int, debt: int, allot_token: int) -> Option<LiquidationPlan> {
    match (gas_spec(s, debt), fee_spec(s, debt, ratio)) {
        (Some(gas), Some(fee)) => if allot_token < gas || allot_token - gas < fee {
            None
        } else {
            let token = allot_token - gas - fee;
            let t = s.sp.total_usdo_deposits as int;
            if t == 0 {
                match ssa(s, debt, token, ratio, false, false) {
                    None => None,
                    Some(sat) => if token < sat || allot_token < sat {
                        None
                    } else {
                        Some(LiquidationPlan {
                            gas_compensation: gas as u128,
                            liquidation_fee: fee as u128,
                            token: token as u128,
                            sp_allot_coin: 0,
                            sp_allot_token: 0,
                            stake_allot_coin: debt as u128,
                            stake_allot_token: sat as u128,
                            surplus_token: (token - sat) as u128,
                            reduce_pledge: (allot_token - sat) as u128,
                            reduce_coin: 0,
                            sys_reduce_token: allot_token as u128,
                        })
                    },
                }
            } else if t < debt {
                match ssa(s, t, token, ratio, true, false) {
                    None => None,
                    Some(spt) => if token < spt {
                        None
                    } else {
                        match ssa(s, debt - t, token - spt, ratio, false, false) {
                            None => None,
                            Some(stt) => if token - spt < stt || allot_token < stt {
                                None
                            } else {
                                Some(LiquidationPlan {
                                    gas_compensation: gas as u128,
                                    liquidation_fee: fee as u128,
                                    token: token as u128,
                                    sp_allot_coin: t as u128,
                                    sp_allot_token: spt as u128,
                                    stake_allot_coin: (debt - t) as u128,
                                    stake_allot_token: stt as u128,
                                    surplus_token: (token - spt - stt) as u128,
                                    reduce_pledge: (allot_token - stt) as u128,
                                    reduce_coin: t as u128,
                                    sys_reduce_token: allot_token as u128,
                                })
                            },
                        }
                    },
                }
            } else {
                match ssa(s, debt, token, ratio, true, true) {
                    None => None,
                    Some(spt) => if token < spt {
                        None
                    } else {
                        Some(LiquidationPlan {
                            gas_compensation: gas as u128,
                            liquidation_fee: fee as u128,
                            token: token as u128,
                            sp_allot_coin: debt as u128,
                            sp_allot_token: spt as u128,
                            stake_allot_coin: 0,
                            stake_allot_token: 0,
                            surplus_token: (token - spt) as u128,
                            reduce_pledge: allot_token as u128,
                            reduce_coin: debt as u128,
                            sys_reduce_token: 0,
                        })
                    },
                }
            }
        },
        _ => None,
    }
}

/// The stability fee state a liquidation at `now` works with.
pub open spec fn liq_fee(s: &OinStake, now: u64) -> StableFee {
    s.fee.advanced(secs(now), s.total_coin as int)
}

/// The stability fee the liquidated `account` owes at `now`.
pub open spec fn liq_unpaid(s: &OinStake, account: Seq<char>, now: u64) -> int {
    unpaid_at(liq_fee(s, now), s.positions.map()[account], secs(now))
}

/// The liquidated position's debt with its fee, and its collateral.
pub open spec fn liq_debt(s: &OinStake, account: Seq<char>, now: u64) -> (int, int, int) {
    let (d, t, g) = debt_spec(s.positions.map()[account], s.allot).unwrap();
    (d + liq_unpaid(s, account, now), t, g)
}

/// The plan of liquidating `account` at `now`.
pub open spec fn liq_plan(s: &OinStake, account: Seq<char>, now: u64) -> LiquidationPlan {
    let (debt, t, g) = liq_debt(s, account, now);
    plan_spec(s, user_ratio_of(s, account, now)->0, debt, t)->0
}

impl OinStake {
    /// Splits the debt `debt` and collateral `allot_token` of a position at
    /// `ratio` between the gas compensation, the fee, the stability pool and
    /// the pledges.
    pub fn liquidation_plan(&self, ratio: u128, debt: u128, allot_token: u128)
        -> (r: Result<LiquidationPlan, ContractError>)
        ensures
            match r {
                Ok(p) => plan_spec(self, ratio as int, debt as int, allot_token as int) == Some(p),
                Err(_) => plan_spec(self, ratio as int, debt as int, allot_token as int) is None,
            },
    {
        let g1 = c_mul(debt, self.params.gas_compensation_ratio)?;
        let g2 = c_mul(g1, STAKE_RATIO_BASE)?;
        let gas = c_div(g2, self.oracle.token_price)?;
        let fee = if ratio >= INIT_NO_LIQUIDATION_FEE_RATE {
            let f1 = c_mul(debt, self.params.liquidation_fee_ratio)?;
            let f2 = c_mul(f1, STAKE_RATIO_BASE)?;
            c_div(f2, self.oracle.token_price)?
        } else {
            0
        };
        let token = c_sub(allot_token, gas)?;
        let token = c_sub(token, fee)?;
        let t = self.sp.total_usdo_deposits;
        if t == 0 {
            let sat = self.stable_stake_allot(debt, token, ratio, false, false)?;
            let surplus = c_sub(token, sat)?;
            let reduce = c_sub(allot_token, sat)?;
            Ok(LiquidationPlan {
                gas_compensation: gas,
                liquidation_fee: fee,
                token,
                sp_allot_coin: 0,
                sp_allot_token: 0,
                stake_allot_coin: debt,
                stake_allot_token: sat,
                surplus_token: surplus,
                reduce_pledge: reduce,
                reduce_coin: 0,
                sys_reduce_token: allot_token,
            })
        } else if t < debt {
            let spt = self.stable_stake_allot(t, token, ratio, true, false)?;
            let rest = c_sub(token, spt)?;
            let stc = debt - t;
            let stt = self.stable_stake_allot(stc, rest, ratio, false, false)?;
            let surplus = c_sub(rest, stt)?;
            let reduce = c_sub(allot_token, stt)?;
            Ok(LiquidationPlan {
                gas_compensation: gas,
                liquidation_fee: fee,
                token,
                sp_allot_coin: t,
                sp_allot_token: spt,
                stake_allot_coin: stc,
                stake_allot_token: stt,
                surplus_token: surplus,
                reduce_pledge: reduce,
                reduce_coin: t,
                sys_reduce_token: allot_token,
            })
        } else {
            let spt = self.stable_stake_allot(debt, token, ratio, true, true)?;
            let surplus = c_sub(token, spt)?;
            Ok(LiquidationPlan {
                gas_compensation: gas,
                liquidation_fee: fee,
                token,
                sp_allot_coin: debt,
                sp_allot_token: spt,
                stake_allot_coin: 0,
                stake_allot_token: 0,
                surplus_token: surplus,
                reduce_pledge: allot_token,
                reduce_coin: debt,
                sys_reduce_token: 0,
            })
        }
    }
}

/// The redistribution figures after a liquidation following `plan`.
pub open spec fn liq_allot(s: &OinStake, plan: LiquidationPlan) -> crate::state::Allot {
    if plan.stake_allot_coin == 0 && plan.stake_allot_token == 0 && plan.sys_reduce_token == 0 {
        s.allot
    } else {
        spread(s.allot, plan.stake_allot_coin as int, plan.stake_allot_token as int,
            s.total_token - plan.sys_reduce_token)->0
    }
}

/// The reward coins after liquidating at `now`: brought forward, stNEAR's
/// rewards grown by the gas compensation and the surplus of `plan`.
pub open spec fn liq_coins(s: &OinStake, now: u64, plan: LiquidationPlan) -> Map<Seq<char>, RewardCoin> {
    let keys = s.rewards.reward_coins.key_seq();
    let cm = coins_map(keys, advanced_coins(s.rewards.reward_coins.val_seq(), secs(now), s.total_token as int));
    cm.insert(ST_NEAR@, RewardCoin {
        total_reward: (cm[ST_NEAR@].total_reward + plan.gas_compensation + plan.surplus_token) as u128,
        ..cm[ST_NEAR@]
    })
}

/// The account rewards after `caller` liquidated `account` at `now`:
/// `account`'s brought forward, then the gas compensation credited to
/// `caller` and the surplus to `account`, in stNEAR.
pub open spec fn liq_rewards(s: &OinStake, caller: Seq<char>, account: Seq<char>, now: u64, plan: LiquidationPlan)
    -> Map<Seq<char>, UserReward> {
    let keys = s.rewards.reward_coins.key_seq();
    let coins1 = advanced_coins(s.rewards.reward_coins.val_seq(), secs(now), s.total_token as int);
    let am = personal_fold(s.rewards.account_reward.map(), account, keys, coins1, stake_of(s, account),
        keys.len())->0;
    let ko = reward_key(caller, ST_NEAR@);
    let kt = reward_key(account, ST_NEAR@);
    let am1 = am.insert(ko, UserReward { index: am[ko].index, reward: (am[ko].reward + plan.gas_compensation) as u128 });
    if plan.surplus_token > 0 {
        am1.insert(kt, UserReward { index: am1[kt].index, reward: (am1[kt].reward + plan.surplus_token) as u128 })
    } else {
        am1
    }
}

/// Stable coin balances after the stability pool burnt its part of `plan`
/// from the pool's account `current`.
pub open spec fn liq_burnt(s: &OinStake, plan: LiquidationPlan, current: Seq<char>) -> Map<Seq<char>, u128> {
    let m = s.token.accounts.map();
    if plan.sp_allot_coin == 0 && plan.sp_allot_token == 0 {
        m
    } else {
        m.insert(current, (m[current] - plan.sp_allot_coin) as u128)
    }
}

/// Whether `caller` can liquidate `account` at `now`, the pool's account
/// being `current`: the position is below the liquidation line, and each
/// step of the liquidation stays within its bounds.
pub open spec fn liquidation_ok(s: &OinStake, caller: Seq<char>, account: Seq<char>, current: Seq<char>,
    attached_deposit: u128, byte_cost: u128, now: u64) -> bool {
    let pm = s.positions.map();
    let ratio = user_ratio_of(s, account, now);
    let keys = s.rewards.reward_coins.key_seq();
    let coins0 = s.rewards.reward_coins.val_seq();
    let coins1 = advanced_coins(coins0, secs(now), s.total_token as int);
    let folded = personal_fold(s.rewards.account_reward.map(), account, keys, coins1, stake_of(s, account),
        keys.len());
    let f = liq_fee(s, now);
    let (d, at, g) = debt_spec(pm[account], s.allot)->0;
    let unpaid = liq_unpaid(s, account, now);
    let plan = plan_spec(s, ratio->0, d + unpaid, at);
    let p = plan->0;
    let burnt = liq_burnt(s, p, current);
    let held: int = if burnt.dom().contains(caller) { burnt[caller] as int } else { 0 };
    let cm = coins_map(keys, coins1);
    let am = folded->0;
    let ko = reward_key(caller, ST_NEAR@);
    let kt = reward_key(account, ST_NEAR@);
    let am1 = am.insert(ko, UserReward { index: am[ko].index, reward: (am[ko].reward + p.gas_compensation) as u128 });
    let vm = s.vaults.account_to_index.map();
    let fee_after = StableFee { total_unpaid_stable_fee: (f.total_unpaid_stable_fee - unpaid) as u128, ..f };
    &&& s.esm.is_liquidate_live == 1
    &&& pm.dom().contains(caller)
    &&& ratio is Some
    &&& 0 < ratio->0 < s.params.liquidation_line
    &&& all_advance(coins0, secs(now), s.total_token as int)
    &&& folded is Some
    &&& s.fee.advance_ok(secs(now), s.total_coin as int)
    &&& unpaid_ok(f, pm[account], secs(now))
    &&& fits(d + unpaid)
    &&& s.total_token > at
    &&& plan is Some
    &&& offset_ok(*s, p.sp_allot_coin as int, p.sp_allot_token as int, current, now)
    &&& (p.stake_allot_coin == 0 && p.stake_allot_token == 0 && p.sys_reduce_token == 0)
        || spread(s.allot, p.stake_allot_coin as int, p.stake_allot_token as int,
            s.total_token - p.sys_reduce_token) is Some
    &&& s.total_token >= p.reduce_pledge
    &&& s.total_guarantee >= g
    &&& fits(s.total_coin + g + unpaid)
    &&& s.total_coin + g + unpaid >= p.reduce_coin
    &&& f.total_unpaid_stable_fee >= unpaid
    &&& vm.dom().contains(account)
    &&& vm[account] < s.vaults.unsorted_vaults@.len()
    &&& !burnt.dom().contains(caller) ==> s.token.account_storage_usage * byte_cost <= attached_deposit
    &&& held + g <= u128::MAX
    &&& s.token.total_supply - p.sp_allot_coin + g <= u128::MAX
    &&& cm.dom().contains(ST_NEAR@)
    &&& am.dom().contains(ko)
    &&& fits(am[ko].reward + p.gas_compensation)
    &&& p.surplus_token > 0 ==> am1.dom().contains(kt) && fits(am1[kt].reward + p.surplus_token)
    &&& p.liquidation_fee > 0 ==> fits(s.total_liquidation_fee + p.liquidation_fee)
    &&& fits(cm[ST_NEAR@].total_reward + p.gas_compensation + p.surplus_token)
    &&& sys_ratio_parts(s.total_token - p.reduce_pledge, s.oracle.token_price as int, fee_after,
        s.total_coin + g + unpaid - p.reduce_coin, s.total_guarantee - g, now) is Some
}

impl OinStake {
    /// `caller` liquidates `account` at `now`: the position is cleared,
    /// its debt and collateral are split as the plan says, the stability
    /// pool offsets its part, the pledges take the rest, the position's
    /// guarantee is minted to `caller` (registered with the attached
    /// deposit if needed; returns the deposit to refund), the gas
    /// compensation and surplus are credited as collateral rewards and the
    /// fee to the project. When the system's pledge rate ends at or below
    /// the minimum line, every operation is paused.
    #[verifier::rlimit(40)]
    pub fn liquidation(
        &mut self,
        caller: &String,
        account: &String,
        current: &String,
        attached_deposit: u128,
        byte_cost: u128,
        now: u64,
    ) -> (r: Result<u128, ContractError>)
        requires
            old(self).wf(),
        ensures
            final(self).wf(),
            old(self).esm.is_liquidate_live != 1 ==> r == Err::<u128, ContractError>(ContractError::SystemPause),
            old(self).esm.is_liquidate_live == 1 && !old(self).positions.map().dom().contains(caller@)
                ==> r == Err::<u128, ContractError>(ContractError::NotRegistered),
            old(self).esm.is_liquidate_live == 1 && old(self).positions.map().dom().contains(caller@)
                && user_ratio_of(old(self), account@, now) == Some(0int)
                ==> r == Err::<u128, ContractError>(ContractError::NoCurrentToken),
            (old(self).esm.is_liquidate_live == 1 && old(self).positions.map().dom().contains(caller@)
                && user_ratio_of(old(self), account@, now) is Some
                && user_ratio_of(old(self), account@, now)->0 > 0
                && user_ratio_of(old(self), account@, now)->0 >= old(self).params.liquidation_line)
                ==> r == Err::<u128, ContractError>(ContractError::NotAtClearingLine),
            r is Ok <==> liquidation_ok(old(self), caller@, account@, current@, attached_deposit, byte_cost, now),
            r is Ok ==> {
                let s = old(self);
                let pm = s.positions.map();
                let ratio = user_ratio_of(s, account@, now)->0;
                let (debt, at, g) = liq_debt(s, account@, now);
                let unpaid = liq_unpaid(s, account@, now);
                let plan = liq_plan(s, account@, now);
                let f = liq_fee(s, now);
                let vm = s.vaults.account_to_index.map();
                let v = names(s.vaults.unsorted_vaults@);
                &&& s.esm.is_liquidate_live == 1
                &&& pm.dom().contains(caller@)
                &&& pm.dom().contains(account@)
                &&& 0 < ratio < s.params.liquidation_line
                &&& s.total_token > at
                &&& plan_spec(s, ratio, debt, at) == Some(plan)
                &&& final(self).positions.map() == pm.insert(account@, zero_position())
                &&& final(self).total_token == s.total_token - plan.reduce_pledge
                &&& final(self).total_guarantee == s.total_guarantee - g
                &&& final(self).total_coin == s.total_coin + g + unpaid - plan.reduce_coin
                &&& final(self).fee == (StableFee { total_unpaid_stable_fee: (f.total_unpaid_stable_fee - unpaid) as u128, ..f })
                &&& final(self).allot == liq_allot(s, plan)
                &&& final(self).sp.total_usdo_deposits == s.sp.total_usdo_deposits - plan.sp_allot_coin
                &&& final(self).sp.total_token_sp == s.sp.total_token_sp + plan.sp_allot_token
                &&& (plan.sp_allot_coin == 0 && plan.sp_allot_token == 0) ==> final(self).sp == s.sp
                &&& !(plan.sp_allot_coin == 0 && plan.sp_allot_token == 0) ==> {
                    let sp = s.sp;
                    let total = sp.total_usdo_deposits as int;
                    let num = near_numerator(sp, plan.sp_allot_token as int);
                    let gain = (num / total) as nat;
                    let loss = loss_per_unit(sp, plan.sp_allot_coin as int, total);
                    &&& sum_rows(final(self).sp) == sums_after(sp, gain, loss)
                    &&& g_rows(final(self).sp) == gs_after(sp, loss, secs(now))
                    &&& final(self).sp.p_system == p_after(sp, loss)
                    &&& final(self).sp.current_epoch == epoch_after(sp, loss)
                    &&& final(self).sp.current_scale == scale_after(sp, loss)
                    &&& final(self).sp.last_near_error_offset == num % total
                    &&& final(self).sp.last_usdo_loss_error_offset == if plan.sp_allot_coin == total {
                        0
                    } else {
                        loss * total - loss_numerator(sp, plan.sp_allot_coin as int)
                    }
                    &&& final(self).sp == (StablePool {
                        epoch_to_scale_to_sum: final(self).sp.epoch_to_scale_to_sum,
                        epoch_to_scale_to_g: final(self).sp.epoch_to_scale_to_g,
                        p_system: final(self).sp.p_system,
                        current_scale: final(self).sp.current_scale,
                        current_epoch: final(self).sp.current_epoch,
                        last_near_error_offset: final(self).sp.last_near_error_offset,
                        last_usdo_loss_error_offset: final(self).sp.last_usdo_loss_error_offset,
                        total_token_sp: final(self).sp.total_token_sp,
                        total_usdo_deposits: final(self).sp.total_usdo_deposits,
                        ..sp
                    })
                }
                &&& final(self).rewards.reward_coins.map() == liq_coins(s, now, plan)
                &&& final(self).rewards.account_reward.map() == liq_rewards(s, caller@, account@, now, plan)
                &&& final(self).token.accounts.map() == minted(liq_burnt(s, plan, current@), caller@, g)
                &&& final(self).token.total_supply == s.token.total_supply - plan.sp_allot_coin + g
                &&& final(self).total_liquidation_fee == s.total_liquidation_fee + plan.liquidation_fee
                &&& vm.dom().contains(account@)
                &&& names(final(self).vaults.unsorted_vaults@) == v.update(vm[account@] as int, v.last()).drop_last()
                &&& final(self).vaults.account_to_index.map() == vm.insert(v.last(), vm[account@])
                &&& vaults_wf(s.vaults) ==> vaults_wf(final(self).vaults) && !listed(final(self).vaults, account@)
                &&& vaults_wf(s.vaults) && listed(s.vaults, account@)
                    ==> names(final(self).vaults.unsorted_vaults@).to_set() == v.to_set().remove(account@)
                &&& list_kept(s) ==> list_kept(final(self))
                &&& final(self).esm == if sys_ratio_spec(final(self), now)->0 <= INIT_MIN_RATIO_LINE {
                    esm_all(0)
                } else {
                    s.esm
                }
                &&& *final(self) == (OinStake {
                    positions: final(self).positions,
                    total_token: final(self).total_token,
                    total_guarantee: final(self).total_guarantee,
                    total_coin: final(self).total_coin,
                    fee: final(self).fee,
                    allot: final(self).allot,
                    sp: final(self).sp,
                    token: final(self).token,
                    total_liquidation_fee: final(self).total_liquidation_fee,
                    rewards: final(self).rewards,
                    vaults: final(self).vaults,
                    esm: final(self).esm,
                    ..*s
                })
            },
    {
        if self.esm.is_liquidate_live != 1 {
            return Err(ContractError::SystemPause);
        }
        if !self.is_register(caller) {
            return Err(ContractError::NotRegistered);
        }
        let ratio = self.internal_user_ratio(account, now)?;
        if ratio == 0 {
            return Err(ContractError::NoCurrentToken);
        }
        if ratio >= self.params.liquidation_line {
            return Err(ContractError::NotAtClearingLine);
        }
        let ghost s0 = *self;
        self.update_personal_token(account, now)?;
        proof {
            assert(self.rewards.reward_coins.map() =~= coins_map(self.rewards.reward_coins.key_seq(),
                self.rewards.reward_coins.val_seq()));
        }
        self.update_stable_system_index(now)?;
        let (allot_debt, allot_token, guarantee) = self.get_debt(account)?;
        let unpaid = self.internal_user_unpaid_stable(account, now)?;
        let debt = c_add(allot_debt, unpaid)?;
        if self.total_token <= allot_token {
            return Err(ContractError::NoLiquidation);
        }
        let plan = self.liquidation_plan(ratio, debt, allot_token)?;
        assert(plan == liq_plan(&s0, account@, now));
        self._offset(plan.sp_allot_coin, plan.sp_allot_token, current, now)?;
        self.liquidation_debt_allot(plan.stake_allot_coin, plan.stake_allot_token, plan.sys_reduce_token)?;
        self.total_token = c_sub(self.total_token, plan.reduce_pledge)?;
        let tg = c_sub(self.total_guarantee, guarantee)?;
        let c1 = c_add(self.total_coin, guarantee)?;
        let c2 = c_add(c1, unpaid)?;
        self.total_coin = c_sub(c2, plan.reduce_coin)?;
        self.fee.total_unpaid_stable_fee = c_sub(self.fee.total_unpaid_stable_fee, unpaid)?;
        self.default_account(account);
        self.total_guarantee = tg;
        self._vault_remove(account)?;
        let refund = self.internal_mint(caller, guarantee, attached_deposit, byte_cost)?;
        self.personal_liquidation_token(
            caller, account, plan.gas_compensation, plan.surplus_token, plan.liquidation_fee)?;
        let sr = self.internal_sys_ratio(now)?;
        if sr <= INIT_MIN_RATIO_LINE {
            self.internal_shutdown();
        }
        Ok(refund)
    }
}

} // verus!
