//! Operations on a debt position: bringing it up to date, depositing and
//! withdrawing collateral, minting and burning stable coin.
use vstd::prelude::*;
use crate::actions::{Callback, Refund, Transfer};
use crate::allot::{allot_ok, allot_share, allotted};
use crate::debt::{available_spec, can_mint_spec, debt_spec, min_amount_spec, poked};
use crate::error::ContractError;
use crate::ledger::balance_of;
use crate::math::{c_add, c_sub, fits};
use crate::reward::{all_advance, advanced_coins, personal_fold};
use crate::state::st_near;
use crate::stablefee::{charge_ok, charged, secs, unpaid_at, unpaid_ok};
use crate::state::{OinStake, Rewards, StableFee, Vaults, ST_NEAR};
use crate::types::{Position, RewardCoin, UserReward};
use crate::vaults::{appended, list_kept, listed, names, swap_removed, vaults_wf};

verus! {

/// The reward coins once brought forward to `now`.
pub open spec fn pd_coins(s: &OinStake, now: u64) -> Seq<RewardCoin> {
    advanced_coins(s.rewards.reward_coins.val_seq(), secs(now), s.total_token as int)
}

/// `account`'s pledge in `pm`, if registered.
pub open spec fn pm_stake(pm: Map<Seq<char>, Position>, account: Seq<char>) -> Option<u128> {
    if pm.dom().contains(account) {
        Some(pm[account].token)
    } else {
        None
    }
}

/// The account rewards once `account`'s are brought up to date.
pub open spec fn pd_ar(s: &OinStake, pm: Map<Seq<char>, Position>, account: Seq<char>, now: u64)
    -> Option<Map<Seq<char>, UserReward>> {
    personal_fold(s.rewards.account_reward.map(), account, s.rewards.reward_coins.key_seq(),
        pd_coins(s, now), pm_stake(pm, account), s.rewards.reward_coins.key_seq().len())
}

/// The fee state once advanced to `now`.
pub open spec fn pd_fee(s: &OinStake, now: u64) -> StableFee {
    s.fee.advanced(secs(now), s.total_coin as int)
}

/// The position once its fee is charged.
pub open spec fn pd_pos1(s: &OinStake, pm: Map<Seq<char>, Position>, account: Seq<char>, now: u64) -> Position {
    charged(pd_fee(s, now).stable_index as int, pm[account])
}

/// The position once its fee is charged and its redistributed share added.
pub open spec fn pd_pos(s: &OinStake, pm: Map<Seq<char>, Position>, account: Seq<char>, now: u64) -> Position {
    let p1 = pd_pos1(s, pm, account, now);
    let (d, t) = allot_share(p1, s.allot).unwrap();
    allotted(p1, s.allot, d, t)
}

/// Bringing `account` up to date succeeds.
pub open spec fn pd_ok(s: &OinStake, pm: Map<Seq<char>, Position>, account: Seq<char>, now: u64) -> bool {
    &&& all_advance(s.rewards.reward_coins.val_seq(), secs(now), s.total_token as int)
    &&& pd_ar(s, pm, account, now) is Some
    &&& s.fee.advance_ok(secs(now), s.total_coin as int)
    &&& pm.dom().contains(account)
    &&& charge_ok(pd_fee(s, now).stable_index as int, pm[account])
    &&& allot_ok(pd_pos1(s, pm, account, now), s.allot)
}

/// Whether `sender` can deposit `amount` of collateral at `now`.
pub open spec fn deposit_ok(s: &OinStake, amount: u128, sender: Seq<char>, now: u64) -> bool {
    let pm = s.positions.map();
    let p = pm[sender];
    let first = p.guarantee == 0;
    let limit = s.params.guarantee_limit;
    let pm_g = if first { pm.insert(sender, Position { guarantee: limit, ..p }) } else { pm };
    s.esm.is_deposit_live == 1 && poked(s, now) && amount > 0
        && pm.dom().contains(sender)
        && (first ==> (min_amount_spec(s) is Some && amount >= min_amount_spec(s).unwrap()
            && fits(s.total_guarantee + limit)))
        && pd_ok(s, pm_g, sender, now)
        && fits(p.token + amount) && fits(s.total_token + amount)
}

/// Stable coin a position `p` may still mint at `now` under the fee state
/// `f`, as `internal_can_mint_amount` computes it.
pub open spec fn can_mint_pos(s: &OinStake, p: Position, f: StableFee, now: u64) -> Option<int> {
    if !poked(s, now) || debt_spec(p, s.allot) is None || !unpaid_ok(f, p, secs(now)) {
        None
    } else {
        let (d, t, g) = debt_spec(p, s.allot).unwrap();
        can_mint_spec(d, t, unpaid_at(f, p, secs(now)), s.params.liquidation_line as int, s.oracle.token_price as int)
    }
}

/// The ledger can take `amount` newly minted to `current`, registering it
/// with the attached deposit if needed.
pub open spec fn mint_to_ok(s: &OinStake, current: Seq<char>, amount: int, attached: int, byte_cost: int) -> bool {
    let tm = s.token.accounts.map();
    &&& (!tm.dom().contains(current) ==> s.token.account_storage_usage * byte_cost <= attached)
    &&& balance_of(s.token, current) + amount <= u128::MAX
    &&& s.token.total_supply + amount <= u128::MAX
}

/// Whether `caller` can mint `amount` at `now`.
pub open spec fn mint_ok(s: &OinStake, caller: Seq<char>, amount: u128, now: u64, current: Seq<char>, attached: u128,
    byte_cost: u128) -> bool {
    let pm = s.positions.map();
    let q = pd_pos(s, pm, caller, now);
    &&& s.esm.is_mint_coin_live == 1
    &&& s.total_coin + amount <= s.params.coin_upper_limit
    &&& fits(s.total_coin + amount)
    &&& pd_ok(s, pm, caller, now)
    &&& fits(q.coin + amount)
    &&& q.coin + amount >= s.params.min_mint_amount
    &&& can_mint_pos(s, q, pd_fee(s, now), now) is Some
    &&& can_mint_pos(s, q, pd_fee(s, now), now)->0 >= amount
    &&& mint_to_ok(s, current, amount as int, attached as int, byte_cost as int)
}

/// Whether `caller` can repay up to `amount` at `now`: the fee owed first,
/// transferred to the owner, then the coins, burnt.
pub open spec fn burn_ok(s: &OinStake, caller: Seq<char>, amount: u128, now: u64) -> bool {
    let pm = s.positions.map();
    let q = pd_pos(s, pm, caller, now);
    let unpaid = q.stable.unpaid_stable_fee as int;
    let paid = if q.coin + unpaid < amount { q.coin + unpaid } else { amount as int };
    let payback = if paid > unpaid { paid - unpaid } else { 0 };
    let bal = balance_of(s.token, caller);
    let tm = s.token.accounts.map();
    let owner = s.owner_id@;
    let f = pd_fee(s, now);
    &&& s.esm.is_burn_coin_live == 1
    &&& poked(s, now)
    &&& bal >= amount
    &&& pd_ok(s, pm, caller, now)
    &&& fits(q.coin + unpaid)
    &&& payback > 0 ==> {
        &&& (q.coin - payback == 0 || q.coin - payback >= s.params.min_mint_amount)
        &&& s.total_coin >= payback
        &&& s.token.total_supply >= payback
    }
    &&& unpaid > 0 ==> {
        &&& f.total_unpaid_stable_fee >= unpaid
        &&& fits(f.total_paid_stable_fee + unpaid)
        &&& caller != owner
        &&& tm.dom().contains(owner)
        &&& tm.dom().contains(caller)
        &&& bal - payback >= unpaid
        &&& s.token.total_supply - payback >= unpaid
        &&& tm[owner] + unpaid <= u128::MAX
    }
}

/// Stable coin balances after a repayment: `payback` burnt from `caller`,
/// then the unpaid fee `unpaid` moved from `caller` to `owner`.
pub open spec fn repaid_balances(
    tm: Map<Seq<char>, u128>,
    caller: Seq<char>,
    owner: Seq<char>,
    payback: int,
    unpaid: int,
) -> Map<Seq<char>, u128> {
    let m1 = if payback > 0 { tm.insert(caller, (tm[caller] - payback) as u128) } else { tm };
    if unpaid > 0 {
        m1.insert(caller, (m1[caller] - unpaid) as u128).insert(owner, (m1[owner] + unpaid) as u128)
    } else {
        m1
    }
}

/// What a deposit of `amount` by `sender` at `now` makes of `s`: the
/// pledge grows, a first deposit reserves the guarantee and lists the
/// account, and the fee and rewards are brought up to `now`.
pub open spec fn deposited(s: OinStake, t: OinStake, amount: u128, sender: Seq<char>, now: u64) -> bool {
    let pm = s.positions.map();
    let p = pm[sender];
    let first = p.guarantee == 0;
    let limit = s.params.guarantee_limit;
    let pm_g = if first { pm.insert(sender, Position { guarantee: limit, ..p }) } else { pm };
    &&& t.positions.map() == pm_g.insert(sender,
        Position { token: (p.token + amount) as u128, ..pd_pos(&s, pm_g, sender, now) })
    &&& t.total_token == s.total_token + amount
    &&& t.total_guarantee == s.total_guarantee + if first { limit } else { 0 }
    &&& t.fee == pd_fee(&s, now)
    &&& t.rewards.reward_coins.key_seq() == s.rewards.reward_coins.key_seq()
    &&& t.rewards.reward_coins.val_seq() == pd_coins(&s, now)
    &&& t.rewards.account_reward.map() == pd_ar(&s, pm_g, sender, now).unwrap()
    &&& first ==> appended(s.vaults, t.vaults, sender)
    &&& first && vaults_wf(s.vaults) && !listed(s.vaults, sender) ==> vaults_wf(t.vaults) && listed(t.vaults, sender)
    &&& list_kept(&s) && (first ==> limit > 0) ==> list_kept(&t)
    &&& !first ==> t.vaults == s.vaults
    &&& t == (OinStake {
        positions: t.positions,
        fee: t.fee,
        rewards: t.rewards,
        total_token: t.total_token,
        total_guarantee: t.total_guarantee,
        vaults: t.vaults,
        ..s
    })
}

/// What a withdrawal of `amount` takes: everything available when a
/// position free of debt would otherwise keep less than the minimum.
pub open spec fn withdraw_amount(s: &OinStake, caller: Seq<char>, amount: u128, now: u64) -> int {
    let v = crate::views::available_of(s, caller, now)->0;
    let (d, t, g) = debt_spec(s.positions.map()[caller], s.allot).unwrap();
    if d == g && v - amount < min_amount_spec(s)->0 { v } else { amount as int }
}

/// Whether `caller` can withdraw `amount` of collateral at `now`.
pub open spec fn withdraw_token_ok(s: &OinStake, caller: Seq<char>, amount: u128, now: u64) -> bool {
    let pm = s.positions.map();
    let v = crate::views::available_of(s, caller, now);
    let (d, t, g) = debt_spec(pm[caller], s.allot).unwrap();
    let amt = withdraw_amount(s, caller, amount, now);
    let q = pd_pos(s, pm, caller, now);
    let vm = s.vaults.account_to_index.map();
    &&& s.esm.is_withdraw_live == 1
    &&& v is Some
    &&& v->0 >= amount
    &&& d == g ==> min_amount_spec(s) is Some
    &&& pd_ok(s, pm, caller, now)
    &&& s.total_token >= amt
    &&& q.token >= amt
    &&& q.token == amt ==> {
        &&& vm.dom().contains(caller)
        &&& vm[caller] < s.vaults.unsorted_vaults@.len()
        &&& s.total_guarantee >= q.guarantee
    }
}

impl OinStake {
    /// Brings `account` up to date at `now`: its rewards, its stability fee
    /// and its share of redistributed debt and collateral.
    pub fn update_personal_data(&mut self, account: &String, now: u64) -> (r: Result<(), ContractError>)
        requires
            old(self).wf(),
        ensures
            final(self).wf(),
            r is Ok && crate::vaults::list_kept(old(self)) ==> crate::vaults::list_kept(final(self)),
            *final(self) == (OinStake {
                positions: final(self).positions,
                fee: final(self).fee,
                rewards: final(self).rewards,
                ..*old(self)
            }),
            ({
                let pm = old(self).positions.map();
                &&& r is Ok <==> pd_ok(old(self), pm, account@, now)
                &&& r is Ok ==> {
                    &&& final(self).positions.map() == pm.insert(account@, pd_pos(old(self), pm, account@, now))
                    &&& final(self).fee == pd_fee(old(self), now)
                    &&& final(self).rewards.reward_coins.key_seq() == old(self).rewards.reward_coins.key_seq()
                    &&& final(self).rewards.reward_coins.val_seq() == pd_coins(old(self), now)
                    &&& final(self).rewards.account_reward.map() == pd_ar(old(self), pm, account@, now).unwrap()
                }
            }),
    {
        self.update_personal_token(account, now)?;
        let ghost s1 = *self;
        match self.update_stable_fee(account, now) {
            Ok(()) => {},
            Err(e) => {
                return Err(e);
            },
        }
        let ghost s2 = *self;
        proof {
            assert(s2.positions.map()[account@] == pd_pos1(old(self), old(self).positions.map(), account@, now));
        }
        self.update_account_allot(account)
    }

    /// Credits `amount` of deposited collateral to `sender`. A first deposit
    /// must reach the minimum and reserves the guarantee.
    pub fn deposit_token(&mut self, amount: u128, sender: &String, now: u64) -> (r: Result<(), ContractError>)
        requires
            old(self).wf(),
        ensures
            final(self).wf(),
            ({
                let pm = old(self).positions.map();
                &&& old(self).esm.is_deposit_live != 1 ==> r == Err::<(), ContractError>(ContractError::SystemPause)
                &&& old(self).esm.is_deposit_live == 1 && poked(old(self), now) && amount == 0
                    ==> r == Err::<(), ContractError>(ContractError::DepositAmountZero)
                &&& old(self).esm.is_deposit_live == 1 && poked(old(self), now) && amount > 0 && !pm.dom().contains(sender@)
                    ==> r == Err::<(), ContractError>(ContractError::NotRegist)
                &&& r is Ok <==> deposit_ok(old(self), amount, sender@, now)
                &&& r is Ok ==> deposited(*old(self), *final(self), amount, sender@, now)
            }),
    {
        if self.esm.is_deposit_live != 1 {
            return Err(ContractError::SystemPause);
        }
        self.assert_is_poked(now)?;
        if amount == 0 {
            return Err(ContractError::DepositAmountZero);
        }
        let p = match self.positions.get(sender) {
            Some(p) => p,
            None => return Err(ContractError::NotRegist),
        };
        if p.guarantee == 0 {
            let min = self._min_amount_token()?;
            if amount < min {
                return Err(ContractError::DepositBelowMinimum);
            }
            let limit = self.params.guarantee_limit;
            let tg = c_add(self.total_guarantee, limit)?;
            let ghost pm0 = self.positions;
            let np = Position { guarantee: limit, ..p };
            self.positions.insert(sender.clone(), np);
            proof {
                crate::state::lemma_reserved_insert(pm0, self.positions, sender@, np);
            }
            self.total_guarantee = tg;
            self._vault_init(sender);
        }
        let ghost s1 = *self;
        self.update_personal_data(sender, now)?;
        let result = c_add(p.token, amount)?;
        let q = match self.positions.get(sender) {
            Some(q) => q,
            None => return Err(ContractError::NotRegistered),
        };
        let total_token = c_add(self.total_token, amount)?;
        let ghost pm0 = self.positions;
        let np = Position { token: result, ..q };
        self.positions.insert(sender.clone(), np);
        proof {
            crate::state::lemma_reserved_insert(pm0, self.positions, sender@, np);
        }
        self.total_token = total_token;
        proof {
            let pm = old(self).positions.map();
            let p0 = pm[sender@];
            let limit = old(self).params.guarantee_limit;
            let pm_g = if p0.guarantee == 0 { pm.insert(sender@, Position { guarantee: limit, ..p0 }) } else { pm };
            assert(self.positions.map() =~= pm_g.insert(sender@,
                Position { token: (p0.token + amount) as u128, ..pd_pos(old(self), pm_g, sender@, now) }));
            if list_kept(old(self)) && (p0.guarantee == 0 ==> limit > 0) {
                if p0.guarantee == 0 {
                    crate::vaults::lemma_appended_listed(old(self).vaults, self.vaults, sender@);
                }
                assert forall|a: Seq<char>| #[trigger] listed(self.vaults, a)
                    implies self.positions.map().dom().contains(a) && self.positions.map()[a].guarantee > 0 by {
                    if a != sender@ {
                        assert(listed(old(self).vaults, a));
                    }
                }
            }
        }
        Ok(())
    }
}


impl OinStake {
    /// Withdraws up to `amount` collateral for `caller`. A position free of
    /// debt that would keep less than the minimum withdraws everything.
    /// Emptying the pledge releases the guarantee. Returns the transfer.
    pub fn withdraw_token(&mut self, caller: &String, amount: u128, now: u64) -> (r: Result<Transfer, ContractError>)
        requires
            old(self).wf(),
        ensures
            final(self).wf(),
            old(self).esm.is_withdraw_live != 1 ==> r == Err::<Transfer, ContractError>(ContractError::SystemPause),
            old(self).esm.is_withdraw_live == 1 && crate::views::available_of(old(self), caller@, now) is Some
                && crate::views::available_of(old(self), caller@, now)->0 < amount
                ==> r == Err::<Transfer, ContractError>(ContractError::InsufficientAvailableToken),
            r is Ok <==> withdraw_token_ok(old(self), caller@, amount, now),
            r matches Ok(t) ==> t.amount == withdraw_amount(old(self), caller@, amount, now),
            r matches Ok(t) ==> {
                let pm = old(self).positions.map();
                let (d, tk, g) = debt_spec(pm[caller@], old(self).allot).unwrap();
                let q = pd_pos(old(self), pm, caller@, now);
                let emptied = q.token == t.amount;
                &&& old(self).esm.is_withdraw_live == 1
                &&& pd_ok(old(self), pm, caller@, now)
                &&& t.amount <= q.token
                &&& t.amount >= amount
                &&& t.amount > amount ==> d == g
                &&& t.receiver_id@ == caller@
                &&& t.token_contract@ == ST_NEAR@
                &&& t.callback matches Callback::AfterWithdrawToken { account_id, amount: a, guarantee }
                    && account_id@ == caller@ && a == t.amount && guarantee == g
                &&& final(self).total_token == old(self).total_token - t.amount
                &&& !emptied ==> final(self).positions.map() == pm.insert(caller@,
                        Position { token: (q.token - t.amount) as u128, ..q })
                    && final(self).total_guarantee == old(self).total_guarantee
                    && final(self).vaults == old(self).vaults
                &&& emptied ==> final(self).positions.map() == pm.insert(caller@,
                        Position { token: 0, guarantee: 0, ..q })
                    && final(self).total_guarantee == old(self).total_guarantee - q.guarantee
                    && swap_removed(old(self).vaults, final(self).vaults, caller@)
                &&& emptied && vaults_wf(old(self).vaults) ==> {
                    &&& vaults_wf(final(self).vaults)
                    &&& !listed(final(self).vaults, caller@)
                }
                &&& emptied && vaults_wf(old(self).vaults) && listed(old(self).vaults, caller@)
                    ==> names(final(self).vaults.unsorted_vaults@).to_set()
                        == names(old(self).vaults.unsorted_vaults@).to_set().remove(caller@)
                &&& list_kept(old(self)) ==> list_kept(final(self))
                &&& final(self).fee == pd_fee(old(self), now)
                &&& final(self).rewards.reward_coins.val_seq() == pd_coins(old(self), now)
                &&& final(self).rewards.account_reward.map() == pd_ar(old(self), pm, caller@, now).unwrap()
                &&& *final(self) == (OinStake {
                    positions: final(self).positions,
                    fee: final(self).fee,
                    rewards: final(self).rewards,
                    total_token: final(self).total_token,
                    total_guarantee: final(self).total_guarantee,
                    vaults: final(self).vaults,
                    ..*old(self)
                })
            },
    {
        if self.esm.is_withdraw_live != 1 {
            return Err(ContractError::SystemPause);
        }
        let mut amount = amount;
        let avaliable_token = self.internal_avaliable_token(caller, now)?;
        if avaliable_token < amount {
            return Err(ContractError::InsufficientAvailableToken);
        }
        let (debt, _tk, guarantee) = self.get_debt(caller)?;
        if debt == guarantee {
            let min = self._min_amount_token()?;
            if avaliable_token - amount < min {
                amount = avaliable_token;
            }
        }
        self.update_personal_data(caller, now)?;
        let q = match self.positions.get(caller) {
            Some(q) => q,
            None => return Err(ContractError::NotRegistered),
        };
        let total_token = c_sub(self.total_token, amount)?;
        let left = c_sub(q.token, amount)?;
        self.total_token = total_token;
        let ghost pm0 = self.positions;
        let np = Position { token: left, ..q };
        self.positions.insert(caller.clone(), np);
        proof {
            crate::state::lemma_reserved_insert(pm0, self.positions, caller@, np);
        }
        if left == 0 {
            self._vault_remove(caller)?;
            let tg = c_sub(self.total_guarantee, q.guarantee)?;
            self.total_guarantee = tg;
            let ghost pm0 = self.positions;
            let np = Position { token: 0, guarantee: 0, ..q };
            self.positions.insert(caller.clone(), np);
            proof {
                crate::state::lemma_reserved_insert(pm0, self.positions, caller@, np);
            }
        }
        Ok(Transfer {
            token_contract: st_near(),
            receiver_id: caller.clone(),
            amount,
            callback: Callback::AfterWithdrawToken { account_id: caller.clone(), amount, guarantee },
        })
    }

    /// Mints `amount` stable coin against `caller`'s pledge: minted to the
    /// contract's own account `current`, then transferred to `caller`.
    /// Returns the transfer and the refund of the attached deposit.
    pub fn mint_coin(
        &mut self,
        caller: &String,
        amount: u128,
        now: u64,
        current: &String,
        attached_deposit: u128,
        byte_cost: u128,
    ) -> (r: Result<(Transfer, u128), ContractError>)
        requires
            old(self).wf(),
        ensures
            final(self).wf(),
            r is Ok && crate::vaults::list_kept(old(self)) ==> crate::vaults::list_kept(final(self)),
            old(self).esm.is_mint_coin_live != 1 ==> r == Err::<(Transfer, u128), ContractError>(ContractError::SystemPause),
            old(self).esm.is_mint_coin_live == 1 && old(self).total_coin + amount <= u128::MAX
                && old(self).total_coin + amount > old(self).params.coin_upper_limit
                ==> r == Err::<(Transfer, u128), ContractError>(ContractError::ExceededCoinAmount),
            r is Ok <==> mint_ok(old(self), caller@, amount, now, current@, attached_deposit, byte_cost),
            ({
                let q = pd_pos(old(self), old(self).positions.map(), caller@, now);
                let pre = old(self).esm.is_mint_coin_live == 1 && fits(old(self).total_coin + amount)
                    && old(self).total_coin + amount <= old(self).params.coin_upper_limit
                    && pd_ok(old(self), old(self).positions.map(), caller@, now) && fits(q.coin + amount);
                &&& pre && q.coin + amount < old(self).params.min_mint_amount
                    ==> r == Err::<(Transfer, u128), ContractError>(ContractError::BelowMinimumMint)
                &&& pre && q.coin + amount >= old(self).params.min_mint_amount
                    && can_mint_pos(old(self), q, pd_fee(old(self), now), now) is Some
                    && can_mint_pos(old(self), q, pd_fee(old(self), now), now)->0 < amount
                    ==> r == Err::<(Transfer, u128), ContractError>(ContractError::InsufficientAmount)
            }),
            r matches Ok((t, refund)) ==> {
                let pm = old(self).positions.map();
                let q = pd_pos(old(self), pm, caller@, now);
                &&& old(self).esm.is_mint_coin_live == 1
                &&& old(self).total_coin + amount <= old(self).params.coin_upper_limit
                &&& pd_ok(old(self), pm, caller@, now)
                &&& q.coin + amount >= old(self).params.min_mint_amount
                &&& final(self).positions.map() == pm.insert(caller@, Position { coin: (q.coin + amount) as u128, ..q })
                &&& final(self).total_coin == old(self).total_coin + amount
                &&& balance_of(final(self).token, current@) == balance_of(old(self).token, current@) + amount
                &&& final(self).token.accounts.map() == crate::usdo::minted(
                    old(self).token.accounts.map(), current@, amount as int)
                &&& final(self).token.total_supply == old(self).token.total_supply + amount
                &&& final(self).token.account_storage_usage == old(self).token.account_storage_usage
                &&& refund == if old(self).token.accounts.map().dom().contains(current@) {
                        attached_deposit as int
                    } else {
                        attached_deposit - old(self).token.account_storage_usage * byte_cost
                    }
                &&& t.amount == amount
                &&& t.receiver_id@ == caller@
                &&& t.token_contract@ == current@
                &&& t.callback matches Callback::OnMintTransfer { holder, amount: a } && holder@ == caller@ && a == amount
                &&& *final(self) == (OinStake {
                    positions: final(self).positions,
                    fee: final(self).fee,
                    rewards: final(self).rewards,
                    total_coin: final(self).total_coin,
                    token: final(self).token,
                    ..*old(self)
                })
            },
    {
        if self.esm.is_mint_coin_live != 1 {
            return Err(ContractError::SystemPause);
        }
        let total = c_add(self.total_coin, amount)?;
        if total > self.params.coin_upper_limit {
            return Err(ContractError::ExceededCoinAmount);
        }
        self.update_personal_data(caller, now)?;
        let q = match self.positions.get(caller) {
            Some(q) => q,
            None => return Err(ContractError::NotRegistered),
        };
        let user_coin_total = c_add(q.coin, amount)?;
        if user_coin_total < self.params.min_mint_amount {
            return Err(ContractError::BelowMinimumMint);
        }
        let can_usdo = self.internal_can_mint_amount(caller, now)?;
        if can_usdo < amount {
            return Err(ContractError::InsufficientAmount);
        }
        let refund = self.token.storage_deposit(current, attached_deposit, byte_cost)?;
        let ghost before = self.token;
        self.token.internal_deposit(current, amount)?;
        proof {
            assert(balance_of(before, current@) == balance_of(old(self).token, current@));
        }
        self.total_coin = total;
        let ghost pm0 = self.positions;
        let np = Position { coin: user_coin_total, ..q };
        self.positions.insert(caller.clone(), np);
        proof {
            crate::state::lemma_reserved_insert(pm0, self.positions, caller@, np);
        }
        Ok((Transfer {
            token_contract: current.clone(),
            receiver_id: caller.clone(),
            amount,
            callback: Callback::OnMintTransfer { holder: caller.clone(), amount },
        }, refund))
    }

    /// Repays up to `amount` of `caller`'s debt from its stable coin
    /// balance: the unpaid stability fee first, transferred to the owner,
    /// then the minted coins, which are burnt.
    pub fn burn_coin(&mut self, caller: &String, amount: u128, now: u64) -> (r: Result<(), ContractError>)
        requires
            old(self).wf(),
        ensures
            final(self).wf(),
            r is Ok && crate::vaults::list_kept(old(self)) ==> crate::vaults::list_kept(final(self)),
            old(self).esm.is_burn_coin_live != 1 ==> r == Err::<(), ContractError>(ContractError::SystemPause),
            old(self).esm.is_burn_coin_live == 1 && poked(old(self), now) && balance_of(old(self).token, caller@) < amount
                ==> r == Err::<(), ContractError>(ContractError::LackOfBalance),
            r is Ok <==> burn_ok(old(self), caller@, amount, now),
            r is Ok ==> {
                let pm = old(self).positions.map();
                let q = pd_pos(old(self), pm, caller@, now);
                let unpaid = q.stable.unpaid_stable_fee;
                let paid = if q.coin + unpaid < amount { q.coin + unpaid } else { amount as int };
                let payback = if paid > unpaid { paid - unpaid } else { 0 };
                &&& old(self).esm.is_burn_coin_live == 1
                &&& poked(old(self), now)
                &&& balance_of(old(self).token, caller@) >= amount
                &&& pd_ok(old(self), pm, caller@, now)
                &&& (payback > 0 ==> (q.coin - payback == 0 || q.coin - payback >= old(self).params.min_mint_amount))
                &&& final(self).positions.map() == pm.insert(caller@, Position {
                        coin: (q.coin - payback) as u128,
                        stable: crate::types::UserStable { unpaid_stable_fee: 0, ..q.stable },
                        ..q
                    })
                &&& final(self).total_coin == old(self).total_coin - payback
                &&& final(self).fee.total_unpaid_stable_fee == pd_fee(old(self), now).total_unpaid_stable_fee - unpaid
                &&& final(self).fee.total_paid_stable_fee == old(self).fee.total_paid_stable_fee + unpaid
                &&& final(self).token.total_supply == old(self).token.total_supply - payback
                &&& final(self).token.accounts.map() == repaid_balances(
                    old(self).token.accounts.map(), caller@, old(self).owner_id@, payback, unpaid as int)
                &&& final(self).token.account_storage_usage == old(self).token.account_storage_usage
                &&& *final(self) == (OinStake {
                    positions: final(self).positions,
                    fee: final(self).fee,
                    rewards: final(self).rewards,
                    total_coin: final(self).total_coin,
                    token: final(self).token,
                    ..*old(self)
                })
            },
    {
        if self.esm.is_burn_coin_live != 1 {
            return Err(ContractError::SystemPause);
        }
        self.assert_is_poked(now)?;
        let ft_balance = self.token.ft_balance_of(caller);
        let mut amount = amount;
        if ft_balance < amount {
            return Err(ContractError::LackOfBalance);
        }
        self.update_personal_data(caller, now)?;
        let q = match self.positions.get(caller) {
            Some(q) => q,
            None => return Err(ContractError::NotRegistered),
        };
        let unpaid = q.stable.unpaid_stable_fee;
        let unpaid_usd = c_add(q.coin, unpaid)?;
        if unpaid_usd < amount {
            amount = unpaid_usd;
        }
        let mut coin = q.coin;
        if amount > unpaid {
            let payback = amount - unpaid;
            let user_coin = c_sub(q.coin, payback)?;
            if user_coin > 0 && user_coin < self.params.min_mint_amount {
                return Err(ContractError::ReturnAllCoins);
            }
            self.total_coin = c_sub(self.total_coin, payback)?;
            let ghost pm0 = self.positions;
            let np = Position { coin: user_coin, ..q };
            self.positions.insert(caller.clone(), np);
            proof {
                crate::state::lemma_reserved_insert(pm0, self.positions, caller@, np);
            }
            coin = user_coin;
            self.token.internal_withdraw(caller, payback)?;
        }
        if unpaid > 0 {
            let stable = crate::types::UserStable { unpaid_stable_fee: 0, ..q.stable };
            let ghost pm0 = self.positions;
            let np = Position { coin, stable, ..q };
            self.positions.insert(caller.clone(), np);
            proof {
                crate::state::lemma_reserved_insert(pm0, self.positions, caller@, np);
            }
            self.fee.total_unpaid_stable_fee = c_sub(self.fee.total_unpaid_stable_fee, unpaid)?;
            self.fee.total_paid_stable_fee = c_add(self.fee.total_paid_stable_fee, unpaid)?;
            let owner = self.owner_id.clone();
            self.token.internal_transfer(caller, &owner, unpaid)?;
        }
        Ok(())
    }
}

} // verus!
