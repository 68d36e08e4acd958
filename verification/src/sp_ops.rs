//! The stability pool's entry points: providing and withdrawing stable
//! coin, claiming gains, and offsetting liquidated debt.
use vstd::prelude::*;
use crate::actions::{Callback, Transfer};
use crate::error::ContractError;
use crate::ledger::{can_transfer, can_withdraw, transferred, withdrawn};
use crate::math::{c_add, c_sub, fits};
use crate::sp::{
    advance_g, claim_ok, claimed, compounded_of, depositor_near_gain, epoch_after, g_rows, gs_after,
    is_dis_transfer, is_min_transfer, loss_per_unit, near_block_gain_spec, near_numerator, new_scale_g_spec,
    p_after, payable, per_unit_ok, put, scale_after, sum_entry, sum_product_ok, sum_rows, sums_after,
};
use crate::stablefee::secs;
use crate::state::{st_oin, OinStake, StablePool, ST_OIN};
use crate::types::{Depositor, Snapshots};

verus! {

/// The record of a depositor that moved to the current scale with a new
/// deposit after a claim at `now_s`; `g` is the current scale's G it sees.
pub open spec fn moved_depositor(sp: StablePool, account: Seq<char>, now_s: int, deposit: int, g: crate::u256::U256) -> Depositor {
    Depositor {
        deposit: deposit as u128,
        snapshot: Snapshots {
            s: sum_entry(sp, sp.current_epoch as int, sp.current_scale as int)->0,
            p: sp.p_system,
            g: g,
            scale: sp.current_scale,
            epoch: sp.current_epoch,
        },
        ..claimed(sp, account, now_s)
    }
}

/// Whether `caller` can provide `amount` at `now` nanoseconds, the pool's
/// account being `current`.
pub open spec fn provide_ok(st: OinStake, caller: Seq<char>, amount: int, current: Seq<char>, now: u64) -> bool {
    let sp = st.sp;
    let n = secs(now);
    &&& st.esm.is_provide_to_sp_live == 1
    &&& amount > 0
    &&& compounded_of(sp, caller) is Some
    &&& fits(compounded_of(sp, caller)->0 + amount)
    &&& claim_ok(sp, caller, n)
    &&& new_scale_g_spec(sp, n) is Some
    &&& can_transfer(st.token, caller, current, amount)
    &&& fits(sp.total_usdo_deposits + amount)
}

/// Whether `caller` can withdraw `amount` at `now` nanoseconds.
pub open spec fn withdraw_ok(st: OinStake, caller: Seq<char>, amount: int, now: u64) -> bool {
    let sp = st.sp;
    let n = secs(now);
    let c = compounded_of(sp, caller)->0;
    let g1 = new_scale_g_spec(sp, n)->0;
    let g2 = advance_g(sp, g1, n)->0;
    &&& sp.depositors.map().dom().contains(caller)
    &&& compounded_of(sp, caller) is Some
    &&& st.esm.is_withdraw_from_sp_live == 1
    &&& 0 < amount <= c
    &&& c <= sp.depositors.map()[caller].deposit
    &&& claim_ok(sp, caller, n)
    &&& new_scale_g_spec(sp, n) is Some
    &&& advance_g(sp, g1, n) is Some
    &&& g2.g_block_num >= g1.g_block_num
    &&& g2.g_system@ >= g1.g_system@
    &&& amount <= sp.total_usdo_deposits
}

/// Whether `debt` of the deposits can be offset against `coll` at `now`,
/// the pool's account being `current`.
pub open spec fn offset_ok(st: OinStake, debt: int, coll: int, current: Seq<char>, now: u64) -> bool {
    let sp = st.sp;
    let total = sp.total_usdo_deposits as int;
    let gain = (near_numerator(sp, coll) / total) as nat;
    let loss = loss_per_unit(sp, debt, total);
    (debt == 0 && coll == 0) || {
        &&& 0 < debt <= total
        &&& coll > 0
        &&& per_unit_ok(sp, coll, debt, total)
        &&& sum_product_ok(sp, gain, loss, secs(now))
        &&& can_withdraw(st.token, current, debt)
        &&& fits(sp.total_token_sp + coll)
    }
}

impl OinStake {
    /// Moves `amount` of `sender`'s stable coin to the pool's account
    /// `current` and adds it to the deposits.
    pub fn _send_usdo_to_stability_pool(&mut self, sender: &String, amount: u128, current: &String)
        -> (r: Result<(), ContractError>)
        requires
            old(self).wf(),
        ensures
            final(self).wf(),
            r is Ok <==> can_transfer(old(self).token, sender@, current@, amount as int)
                && fits(old(self).sp.total_usdo_deposits + amount),
            r is Ok ==> {
                &&& final(self).token.accounts.map() == transferred(old(self).token, sender@, current@, amount as int)
                &&& final(self).token.total_supply == old(self).token.total_supply
                &&& final(self).sp == (StablePool {
                    total_usdo_deposits: (old(self).sp.total_usdo_deposits + amount) as u128,
                    ..old(self).sp
                })
                &&& *final(self) == (OinStake { token: final(self).token, sp: final(self).sp, ..*old(self) })
            },
    {
        self.token.internal_transfer(sender, current, amount)?;
        self.sp.total_usdo_deposits = c_add(self.sp.total_usdo_deposits, amount)?;
        Ok(())
    }

    /// Burns the offset debt from the pool's account `current`, adds the
    /// collateral to the pool and takes the debt off the deposits.
    pub fn _move_offset_coll_and_debt(&mut self, coll: u128, debt: u128, current: &String)
        -> (r: Result<(), ContractError>)
        requires
            old(self).wf(),
        ensures
            final(self).wf(),
            final(self).token.account_storage_usage == old(self).token.account_storage_usage,
            r is Ok <==> can_withdraw(old(self).token, current@, debt as int)
                && fits(old(self).sp.total_token_sp + coll)
                && debt <= old(self).sp.total_usdo_deposits,
            r is Ok ==> {
                &&& final(self).token.accounts.map() == withdrawn(old(self).token, current@, debt as int)
                &&& final(self).token.total_supply == old(self).token.total_supply - debt
                &&& final(self).sp == (StablePool {
                    total_token_sp: (old(self).sp.total_token_sp + coll) as u128,
                    total_usdo_deposits: (old(self).sp.total_usdo_deposits - debt) as u128,
                    ..old(self).sp
                })
                &&& *final(self) == (OinStake { token: final(self).token, sp: final(self).sp, ..*old(self) })
            },
    {
        self.token.internal_withdraw(current, debt)?;
        self.sp.total_token_sp = c_add(self.sp.total_token_sp, coll)?;
        self.sp._decrease_usdo(debt)?;
        Ok(())
    }

    /// Offsets `debt` of liquidated debt against the deposits, which gain
    /// `coll` of collateral, at `now` nanoseconds; `current` is the pool's
    /// account, whose stable coin is burnt.
    pub fn _offset(&mut self, debt: u128, coll: u128, current: &String, now: u64) -> (r: Result<(), ContractError>)
        requires
            old(self).wf(),
        ensures
            final(self).wf(),
            final(self).token.account_storage_usage == old(self).token.account_storage_usage,
            (debt == 0 && coll == 0) ==> r is Ok && *final(self) == *old(self),
            !(debt == 0 && coll == 0) && debt == 0 ==> r == Err::<(), ContractError>(ContractError::OffsetDebtZero),
            debt > 0 && debt > old(self).sp.total_usdo_deposits
                ==> r == Err::<(), ContractError>(ContractError::OffsetDebtTooLarge),
            0 < debt <= old(self).sp.total_usdo_deposits && coll == 0
                ==> r == Err::<(), ContractError>(ContractError::OffsetCollateralZero),
            r is Ok <==> offset_ok(*old(self), debt as int, coll as int, current@, now),
            (r is Ok && !(debt == 0 && coll == 0)) ==> {
                let sp = old(self).sp;
                let total = sp.total_usdo_deposits as int;
                let num = near_numerator(sp, coll as int);
                let gain = (num / total) as nat;
                let loss = loss_per_unit(sp, debt as int, total);
                let n = secs(now);
                &&& sum_rows(final(self).sp) == sums_after(sp, gain, loss)
                &&& g_rows(final(self).sp) == gs_after(sp, loss, n)
                &&& final(self).sp.p_system == p_after(sp, loss)
                &&& final(self).sp.current_epoch == epoch_after(sp, loss)
                &&& final(self).sp.current_scale == scale_after(sp, loss)
                &&& final(self).sp.last_near_error_offset == num % total
                &&& final(self).sp.last_usdo_loss_error_offset
                    == if debt == total { 0 } else { loss * total - crate::sp::loss_numerator(sp, debt as int) }
                &&& final(self).sp.total_token_sp == sp.total_token_sp + coll
                &&& final(self).sp.total_usdo_deposits == sp.total_usdo_deposits - debt
                &&& final(self).token.accounts.map() == withdrawn(old(self).token, current@, debt as int)
                &&& final(self).token.total_supply == old(self).token.total_supply - debt
                &&& final(self).sp == (StablePool {
                    epoch_to_scale_to_sum: final(self).sp.epoch_to_scale_to_sum,
                    epoch_to_scale_to_g: final(self).sp.epoch_to_scale_to_g,
                    p_system: final(self).sp.p_system,
                    current_scale: final(self).sp.current_scale,
                    current_epoch: final(self).sp.current_epoch,
                    last_near_error_offset: final(self).sp.last_near_error_offset,
                    last_usdo_loss_error_offset: final(self).sp.last_usdo_loss_error_offset,
                    total_token_sp: final(self).sp.total_token_sp,
                    total_usdo_deposits: final(self).sp.total_usdo_deposits,
                    ..sp
                })
                &&& *final(self) == (OinStake { token: final(self).token, sp: final(self).sp, ..*old(self) })
            },
    {
        if debt == 0 && coll == 0 {
            return Ok(());
        }
        if debt == 0 {
            return Err(ContractError::OffsetDebtZero);
        }
        if debt > self.sp.total_usdo_deposits {
            return Err(ContractError::OffsetDebtTooLarge);
        }
        if coll == 0 {
            return Err(ContractError::OffsetCollateralZero);
        }
        let total = self.sp.total_usdo_deposits;
        let now_s = Self::to_nano(now);
        let (gain, loss) = self.sp._compute_rewards_per_unit_staked(coll, debt, total)?;
        self.sp._update_reward_sum_and_product(gain, loss, now_s)?;
        self._move_offset_coll_and_debt(coll, debt, current)?;
        Ok(())
    }

    /// Claims `caller`'s mining reward and collateral gain.
    pub fn claim_token(&mut self, caller: &String, now: u64) -> (r: Result<Vec<Transfer>, ContractError>)
        requires
            old(self).wf(),
        ensures
            final(self).wf(),
            old(self).esm.is_claim_token_live != 1 ==> r == Err::<Vec<Transfer>, ContractError>(ContractError::SystemPause),
            r is Ok <==> old(self).esm.is_claim_token_live == 1 && claim_ok(old(self).sp, caller@, secs(now)),
            r is Ok ==> {
                let sp = old(self).sp;
                let n = secs(now);
                let ng = depositor_near_gain(sp, caller@)->0;
                let bg = near_block_gain_spec(sp, caller@, n)->0;
                let paid = payable(sp.reward_sp as int, bg);
                let ts = (r->Ok_0)@;
                &&& final(self).sp.reward_sp == sp.reward_sp - paid
                &&& final(self).sp.total_token_sp == sp.total_token_sp - ng
                &&& final(self).sp.depositors.map() == sp.depositors.map().insert(caller@, claimed(sp, caller@, n))
                &&& ts.len() == (if paid > 0 { 1int } else { 0 }) + (if ng > 0 { 1int } else { 0 })
                &&& paid > 0 ==> is_min_transfer(ts[0], caller@, paid, ng)
                &&& ng > 0 ==> is_dis_transfer(ts[ts.len() - 1], caller@, ng)
                &&& final(self).sp == (StablePool {
                    reward_sp: final(self).sp.reward_sp,
                    total_token_sp: final(self).sp.total_token_sp,
                    depositors: final(self).sp.depositors,
                    ..sp
                })
                &&& *final(self) == (OinStake { sp: final(self).sp, ..*old(self) })
            },
    {
        if self.esm.is_claim_token_live != 1 {
            return Err(ContractError::SystemPause);
        }
        let now_s = Self::to_nano(now);
        self.sp._claim_token(caller, now_s)
    }

    /// Adds `amount` of `caller`'s stable coin to its deposit in the pool,
    /// after claiming its gains. `current` is the pool's account. Returns
    /// the transfers of the claim.
    pub fn provide_to_sp(&mut self, caller: &String, amount: u128, current: &String, now: u64)
        -> (r: Result<Vec<Transfer>, ContractError>)
        requires
            old(self).wf(),
        ensures
            final(self).wf(),
            old(self).esm.is_provide_to_sp_live != 1 ==> r == Err::<Vec<Transfer>, ContractError>(ContractError::SystemPause),
            old(self).esm.is_provide_to_sp_live == 1 && amount == 0
                ==> r == Err::<Vec<Transfer>, ContractError>(ContractError::ProvideZero),
            r is Ok <==> provide_ok(*old(self), caller@, amount as int, current@, now),
            r is Ok ==> {
                let sp = old(self).sp;
                let n = secs(now);
                let ng = depositor_near_gain(sp, caller@)->0;
                let bg = near_block_gain_spec(sp, caller@, n)->0;
                let paid = payable(sp.reward_sp as int, bg);
                let g1 = new_scale_g_spec(sp, n)->0;
                let ts = (r->Ok_0)@;
                &&& final(self).sp.reward_sp == sp.reward_sp - paid
                &&& final(self).sp.total_token_sp == sp.total_token_sp - ng
                &&& final(self).sp.total_usdo_deposits == sp.total_usdo_deposits + amount
                &&& g_rows(final(self).sp)
                    == put(g_rows(sp), sp.current_epoch as int, sp.current_scale as int, g1)
                &&& final(self).sp.depositors.map() == sp.depositors.map().insert(caller@,
                    moved_depositor(sp, caller@, n, compounded_of(sp, caller@)->0 + amount, g1.g_system))
                &&& ts.len() == (if paid > 0 { 1int } else { 0 }) + (if ng > 0 { 1int } else { 0 })
                &&& paid > 0 ==> is_min_transfer(ts[0], caller@, paid, ng)
                &&& ng > 0 ==> is_dis_transfer(ts[ts.len() - 1], caller@, ng)
                &&& final(self).token.accounts.map() == transferred(old(self).token, caller@, current@, amount as int)
                &&& final(self).token.total_supply == old(self).token.total_supply
                &&& final(self).sp == (StablePool {
                    reward_sp: final(self).sp.reward_sp,
                    total_token_sp: final(self).sp.total_token_sp,
                    total_usdo_deposits: final(self).sp.total_usdo_deposits,
                    epoch_to_scale_to_g: final(self).sp.epoch_to_scale_to_g,
                    depositors: final(self).sp.depositors,
                    ..sp
                })
                &&& *final(self) == (OinStake { token: final(self).token, sp: final(self).sp, ..*old(self) })
            },
    {
        if self.esm.is_provide_to_sp_live != 1 {
            return Err(ContractError::SystemPause);
        }
        if amount == 0 {
            return Err(ContractError::ProvideZero);
        }
        let now_s = Self::to_nano(now);
        let compounded = self.sp._get_compounded_usdo_deposit(caller)?;
        let new_deposit = c_add(compounded, amount)?;
        let ts = self.sp._claim_token(caller, now_s)?;
        self.sp._update_epoch_to_scale_to_g(now_s)?;
        self.sp._update_deposit_and_snapshots(caller, new_deposit)?;
        self._send_usdo_to_stability_pool(caller, amount, current)?;
        proof {
            assert(self.sp.depositors.map() =~= old(self).sp.depositors.map().insert(caller@,
                moved_depositor(old(self).sp, caller@, now_s as int, compounded + amount,
                    new_scale_g_spec(old(self).sp, now_s as int)->0.g_system)));
        }
        Ok(ts)
    }

    /// Withdraws `amount` of `caller`'s deposit, after claiming its gains.
    /// Returns the transfers of the claim and the transfer of the stable
    /// coin from the pool's account `current`.
    pub fn withdraw_from_sp(&mut self, caller: &String, amount: u128, current: &String, now: u64)
        -> (r: Result<(Vec<Transfer>, Transfer), ContractError>)
        requires
            old(self).wf(),
        ensures
            final(self).wf(),
            !old(self).sp.depositors.map().dom().contains(caller@)
                ==> r == Err::<(Vec<Transfer>, Transfer), ContractError>(ContractError::NotLegalGet),
            old(self).sp.depositors.map().dom().contains(caller@) && compounded_of(old(self).sp, caller@) is Some
                ==> {
                &&& old(self).esm.is_withdraw_from_sp_live != 1
                    ==> r == Err::<(Vec<Transfer>, Transfer), ContractError>(ContractError::SystemPause)
                &&& old(self).esm.is_withdraw_from_sp_live == 1 && amount == 0
                    ==> r == Err::<(Vec<Transfer>, Transfer), ContractError>(ContractError::WithdrawZero)
                &&& old(self).esm.is_withdraw_from_sp_live == 1 && amount > compounded_of(old(self).sp, caller@)->0
                    ==> r == Err::<(Vec<Transfer>, Transfer), ContractError>(ContractError::WithdrawTooLarge)
            },
            r is Ok <==> withdraw_ok(*old(self), caller@, amount as int, now),
            r is Ok ==> {
                let sp = old(self).sp;
                let n = secs(now);
                let e = sp.current_epoch as int;
                let s = sp.current_scale as int;
                let ng = depositor_near_gain(sp, caller@)->0;
                let bg = near_block_gain_spec(sp, caller@, n)->0;
                let paid = payable(sp.reward_sp as int, bg);
                let c = compounded_of(sp, caller@)->0;
                let g1 = new_scale_g_spec(sp, n)->0;
                let g2 = advance_g(sp, g1, n)->0;
                let d = claimed(sp, caller@, n);
                let ts = (r->Ok_0).0@;
                let t = (r->Ok_0).1;
                &&& final(self).sp.reward_sp == sp.reward_sp - paid
                &&& final(self).sp.total_token_sp == sp.total_token_sp - ng
                &&& final(self).sp.total_usdo_deposits == sp.total_usdo_deposits - amount
                &&& g_rows(final(self).sp) == put(put(g_rows(sp), e, s, g1), e, s, g2)
                &&& final(self).sp.depositors.map()
                    == sp.depositors.map().insert(caller@, moved_depositor(sp, caller@, n, c - amount, g1.g_system))
                &&& ts.len() == (if paid > 0 { 1int } else { 0 }) + (if ng > 0 { 1int } else { 0 })
                &&& paid > 0 ==> is_min_transfer(ts[0], caller@, paid, ng)
                &&& ng > 0 ==> is_dis_transfer(ts[ts.len() - 1], caller@, ng)
                &&& t.token_contract@ == current@
                &&& t.receiver_id@ == caller@
                &&& t.amount == amount
                &&& t.callback matches Callback::OnWithdrawUsdo {
                    receiver_id, amount: a, cha_g_bn, cha_g_system, target_scale, target_epoch,
                    before_deposits, before_snap,
                } && receiver_id@ == caller@ && a == amount
                    && cha_g_bn == g2.g_block_num - g1.g_block_num
                    && cha_g_system@ == g2.g_system@ - g1.g_system@
                    && target_scale == s && target_epoch == e
                    && before_deposits == d.deposit && before_snap == d.snapshot
                &&& final(self).sp == (StablePool {
                    reward_sp: final(self).sp.reward_sp,
                    total_token_sp: final(self).sp.total_token_sp,
                    total_usdo_deposits: final(self).sp.total_usdo_deposits,
                    epoch_to_scale_to_g: final(self).sp.epoch_to_scale_to_g,
                    depositors: final(self).sp.depositors,
                    ..sp
                })
                &&& *final(self) == (OinStake { sp: final(self).sp, ..*old(self) })
            },
    {
        let initial = match self.sp.depositors.get(caller) {
            Some(d) => d.deposit,
            None => return Err(ContractError::NotLegalGet),
        };
        let compounded = self.sp._get_compounded_usdo_deposit(caller)?;
        if self.esm.is_withdraw_from_sp_live != 1 {
            return Err(ContractError::SystemPause);
        }
        if amount == 0 {
            return Err(ContractError::WithdrawZero);
        }
        if amount > compounded {
            return Err(ContractError::WithdrawTooLarge);
        }
        let _usdo_loss = c_sub(initial, compounded)?;
        let new_deposit = compounded - amount;
        let now_s = Self::to_nano(now);
        let ts = self.sp._claim_token(caller, now_s)?;
        self.sp._update_epoch_to_scale_to_g(now_s)?;
        let d = match self.sp.depositors.get(caller) {
            Some(d) => d,
            None => return Err(ContractError::NotLegalGet),
        };
        let new_g = self.sp.get_new_scale_to_g(now_s)?;
        self.sp._update_deposit_and_snapshots(caller, new_deposit)?;
        let t = self.sp._send_usdo_to_depositor(caller, amount, new_g, d.deposit, d.snapshot, current)?;
        proof {
            assert(self.sp.depositors.map() =~= old(self).sp.depositors.map().insert(caller@,
                moved_depositor(old(self).sp, caller@, now_s as int, compounded - amount,
                    new_scale_g_spec(old(self).sp, now_s as int)->0.g_system)));
        }
        Ok((ts, t))
    }

    /// A whitelisted `caller` sets the stability pool's mining speed at
    /// `now`, after closing the current scale's G at the old speed.
    pub fn set_sp_reward_speed(&mut self, caller: &String, speed: u128, now: u64) -> (r: Result<(), ContractError>)
        requires
            old(self).wf(),
        ensures
            final(self).wf(),
            !old(self).whitelist.map().dom().contains(caller@) ==> r == Err::<(), ContractError>(ContractError::NotWhite),
            r is Ok <==> old(self).whitelist.map().dom().contains(caller@)
                && new_scale_g_spec(old(self).sp, secs(now)) is Some,
            r is Ok ==> {
                let sp = old(self).sp;
                &&& g_rows(final(self).sp) == put(g_rows(sp), sp.current_epoch as int, sp.current_scale as int,
                    new_scale_g_spec(sp, secs(now))->0)
                &&& final(self).sp == (StablePool {
                    epoch_to_scale_to_g: final(self).sp.epoch_to_scale_to_g,
                    reward_speed_sp: speed,
                    ..sp
                })
                &&& *final(self) == (OinStake { sp: final(self).sp, ..*old(self) })
            },
    {
        self.assert_white(caller)?;
        let now_s = Self::to_nano(now);
        self.sp._update_epoch_to_scale_to_g(now_s)?;
        self.sp.reward_speed_sp = speed;
        Ok(())
    }

    /// Sends `amount` of the mining rewards to the owner `caller`.
    pub fn withdraw_sp_reward(&mut self, caller: &String, amount: u128) -> (r: Result<Transfer, ContractError>)
        ensures
            caller@ != old(self).owner_id@ ==> r == Err::<Transfer, ContractError>(ContractError::NotAllowed),
            caller@ == old(self).owner_id@ && !(0 < amount <= old(self).sp.reward_sp)
                ==> r == Err::<Transfer, ContractError>(ContractError::SpRewardTooLarge),
            r is Ok <==> caller@ == old(self).owner_id@ && 0 < amount <= old(self).sp.reward_sp,
            r is Ok ==> {
                let t = r->Ok_0;
                &&& *final(self) == (OinStake {
                    sp: StablePool { reward_sp: (old(self).sp.reward_sp - amount) as u128, ..old(self).sp },
                    ..*old(self)
                })
                &&& t.token_contract@ == ST_OIN@
                &&& t.receiver_id@ == caller@
                &&& t.amount == amount
                &&& t.callback matches Callback::OnWithdrawSpReward { receiver_id, amount: a }
                    && receiver_id@ == caller@ && a == amount
            },
    {
        self.assert_owner(caller)?;
        if !(self.sp.reward_sp >= amount && amount > 0) {
            return Err(ContractError::SpRewardTooLarge);
        }
        self.sp.reward_sp = self.sp.reward_sp - amount;
        Ok(Transfer {
            token_contract: st_oin(),
            receiver_id: caller.clone(),
            amount,
            callback: Callback::OnWithdrawSpReward { receiver_id: caller.clone(), amount },
        })
    }
}

} // verus!
