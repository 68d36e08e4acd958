//! Redistribution of liquidated debt and collateral over all pledges.
//! Each liquidation raises a per-token debt and collateral figure; an
//! account's share is its pledge times the rise since its own figures.
use vstd::prelude::*;
use crate::consts::{INIT_NO_LIQUIDATION_FEE_RATE, INIT_STABLE_INDEX, ONE_TOKEN};
use crate::error::ContractError;
use crate::math::{c_add, c_sub, fits, mul3_div, mul3_div_spec, mul_div, mul_div_spec, narrow, w_add, w_div, w_mul, w_sub};
use crate::state::{reserved, Allot, OinStake};
use crate::types::{AccountAllot, Position, UserStable};
use crate::u256::U256;

verus! {

/// Debt and collateral assigned to a position since its last update.
pub open spec fn allot_share(p: Position, a: Allot) -> Option<(int, int)> {
    if a.sys_allot_debt < p.allot.account_allot_debt || a.sys_allot_token < p.allot.account_allot_token {
        None
    } else {
        match (
            mul_div_spec(p.token as int, a.sys_allot_debt - p.allot.account_allot_debt, ONE_TOKEN as int),
            mul_div_spec(p.token as int, a.sys_allot_token - p.allot.account_allot_token, ONE_TOKEN as int),
        ) {
            (Some(d), Some(t)) => Some((d, t)),
            _ => None,
        }
    }
}

/// The position with its share added and its figures brought up to date.
pub open spec fn allotted(p: Position, a: Allot, d: int, t: int) -> Position {
    Position {
        coin: (p.coin + d) as u128,
        token: (p.token + t) as u128,
        allot: AccountAllot { account_allot_debt: a.sys_allot_debt, account_allot_token: a.sys_allot_token },
        ..p
    }
}

/// Whether bringing a position up to date stays in range.
pub open spec fn allot_ok(p: Position, a: Allot) -> bool {
    match allot_share(p, a) {
        Some((d, t)) => fits(p.coin + d) && fits(p.token + t),
        None => false,
    }
}

/// Share of a position in the redistributions since its last update.
pub fn account_allot_of(p: Position, a: &Allot) -> (r: Result<(u128, u128), ContractError>)
    ensures
        match r {
            Ok((d, t)) => allot_share(p, *a) == Some((d as int, t as int)),
            Err(_) => allot_share(p, *a) is None,
        },
{
    let dd = c_sub(a.sys_allot_debt, p.allot.account_allot_debt)?;
    let dt = c_sub(a.sys_allot_token, p.allot.account_allot_token)?;
    let debt = mul_div(p.token, dd, ONE_TOKEN)?;
    let token = mul_div(p.token, dt, ONE_TOKEN)?;
    Ok((debt, token))
}

/// The per-token figures and offsets after spreading `debt` and
/// `stake_allot_token` over `token` pledged tokens.
pub open spec fn spread(a: Allot, debt: int, stake_allot_token: int, token: int) -> Option<Allot> {
    let one = ONE_TOKEN as int;
    let dd = debt + a.debt_offset;
    let dt = stake_allot_token + a.token_offset;
    if token == 0 || !fits(dd * one / token) || !fits(dt * one / token) {
        None
    } else {
        let inc_d = dd * one / token;
        let inc_t = dt * one / token;
        let off_d = dd - inc_d * token / one;
        let off_t = dt - inc_t * token / one;
        if !fits(off_d) || !fits(off_t) || !fits(a.sys_allot_debt + inc_d) || !fits(
            a.sys_allot_token + inc_t,
        ) {
            None
        } else {
            Some(
                Allot {
                    sys_allot_debt: (a.sys_allot_debt + inc_d) as u128,
                    sys_allot_token: (a.sys_allot_token + inc_t) as u128,
                    debt_offset: off_d as u128,
                    token_offset: off_t as u128,
                },
            )
        }
    }
}

/// `x * ONE_TOKEN / token`, then the part of `x` it leaves unassigned.
fn per_token(x: U256, token: u128) -> (r: Result<(u128, u128), ContractError>)
    requires
        x@ < crate::u256::b128() * 2,
    ensures
        match r {
            Ok((inc, off)) => token > 0 && inc == x@ * (ONE_TOKEN as int) / (token as int)
                && off == x@ - inc * token / (ONE_TOKEN as int),
            Err(_) => token == 0 || !fits(x@ * (ONE_TOKEN as int) / (token as int))
                || !fits(x@ - (x@ * (ONE_TOKEN as int) / (token as int)) * token / (ONE_TOKEN as int)),
        },
{
    proof {
        assert(x@ * ONE_TOKEN < crate::u256::b256()) by (nonlinear_arith)
            requires x@ < crate::u256::b128() * 2, crate::u256::b256() == crate::u256::b128() * crate::u256::b128();
    }
    let m = w_mul(x, U256::from_u128(ONE_TOKEN))?;
    let q = w_div(m, token)?;
    let inc = narrow(q)?;
    proof {
        assert(inc * token < crate::u256::b256()) by (nonlinear_arith)
            requires inc < crate::u256::b128(), token < crate::u256::b128(), crate::u256::b256() == crate::u256::b128() * crate::u256::b128();
        assert(inc * token / (ONE_TOKEN as int) <= x@) by (nonlinear_arith)
            requires inc == x@ * (ONE_TOKEN as int) / (token as int), token > 0, x@ >= 0;
    }
    let back = w_mul(U256::from_u128(inc), U256::from_u128(token))?;
    let back = w_div(back, ONE_TOKEN)?;
    let off = match x.checked_sub(back) {
        Some(v) => v,
        None => U256::zero(),
    };
    let off = narrow(off)?;
    Ok((inc, off))
}

/// Share of the pledge pool in a liquidation: the collateral that covers
/// `debt_pledge` at the reallocation ratio when the liquidated position was
/// at or above the fee line, otherwise as the stability pool's part allows.
pub open spec fn stake_allot_spec(
    debt_pledge: int,
    token: int,
    ratio: int,
    allot_ratio: int,
    price: int,
    is_stable_allot: bool,
    is_all_allot: bool,
) -> Option<int> {
    if ratio >= INIT_NO_LIQUIDATION_FEE_RATE {
        mul3_div_spec(debt_pledge, allot_ratio, INIT_STABLE_INDEX as int, price)
    } else if is_stable_allot && !is_all_allot {
        match mul3_div_spec(debt_pledge, allot_ratio, INIT_STABLE_INDEX as int, price) {
            Some(v) => Some(if v > token { token } else { v }),
            None => None,
        }
    } else {
        Some(token)
    }
}

impl OinStake {
    /// Debt and collateral redistributed to `account` since its last update.
    pub fn get_account_allot(&self, account: &String) -> (r: Result<(u128, u128), ContractError>)
        requires
            self.wf(),
        ensures
            ({
                let pm = self.positions.map();
                &&& !pm.dom().contains(account@) ==> r == Err::<(u128, u128), ContractError>(ContractError::NotRegistered)
                &&& pm.dom().contains(account@) ==> match r {
                    Ok((d, t)) => allot_share(pm[account@], self.allot) == Some((d as int, t as int)),
                    Err(_) => allot_share(pm[account@], self.allot) is None,
                }
            }),
    {
        match self.positions.get(account) {
            Some(p) => account_allot_of(p, &self.allot),
            None => Err(ContractError::NotRegistered),
        }
    }

    /// Adds `account`'s redistributed share to its position.
    pub fn update_account_allot(&mut self, account: &String) -> (r: Result<(), ContractError>)
        requires
            old(self).wf(),
        ensures
            final(self).wf(),
            r is Ok && crate::vaults::list_kept(old(self)) ==> crate::vaults::list_kept(final(self)),
            *final(self) == (OinStake { positions: final(self).positions, ..*old(self) }),
            ({
                let pm = old(self).positions.map();
                &&& r is Ok <==> pm.dom().contains(account@) && allot_ok(pm[account@], old(self).allot)
                &&& !pm.dom().contains(account@) ==> r == Err::<(), ContractError>(ContractError::NotRegistered)
                &&& r is Ok ==> {
                    let (d, t) = allot_share(pm[account@], old(self).allot).unwrap();
                    final(self).positions.map() == pm.insert(account@, allotted(pm[account@], old(self).allot, d, t))
                }
            }),
    {
        let p = match self.positions.get(account) {
            Some(p) => p,
            None => return Err(ContractError::NotRegistered),
        };
        let (d, t) = account_allot_of(p, &self.allot)?;
        let coin = c_add(p.coin, d)?;
        let token = c_add(p.token, t)?;
        let q = Position {
            coin,
            token,
            allot: AccountAllot {
                account_allot_debt: self.allot.sys_allot_debt,
                account_allot_token: self.allot.sys_allot_token,
            },
            ..p
        };
        let ghost pm0 = self.positions;
        let np = q;
        self.positions.insert(account.clone(), np);
        proof {
            crate::state::lemma_reserved_insert(pm0, self.positions, account@, np);
        }
        Ok(())
    }

    /// Spreads liquidated `debt` and `stake_allot_token` over the tokens
    /// that remain pledged once `sys_reduce_token` leaves.
    pub fn liquidation_debt_allot(&mut self, debt: u128, stake_allot_token: u128, sys_reduce_token: u128)
        -> (r: Result<(), ContractError>)
        ensures
            *final(self) == (OinStake { allot: final(self).allot, ..*old(self) }),
            debt == 0 && stake_allot_token == 0 && sys_reduce_token == 0 ==> r is Ok && final(self).allot == old(self).allot,
            !(debt == 0 && stake_allot_token == 0 && sys_reduce_token == 0) ==> {
                &&& r is Ok <==> old(self).total_token >= sys_reduce_token
                    && spread(old(self).allot, debt as int, stake_allot_token as int,
                        old(self).total_token - sys_reduce_token) is Some
                &&& r is Ok ==> final(self).allot == spread(old(self).allot, debt as int,
                        stake_allot_token as int, old(self).total_token - sys_reduce_token).unwrap()
            },
    {
        if debt == 0 && stake_allot_token == 0 && sys_reduce_token == 0 {
            return Ok(());
        }
        let token = c_sub(self.total_token, sys_reduce_token)?;
        let dd = w_add(U256::from_u128(debt), U256::from_u128(self.allot.debt_offset))?;
        let dt = w_add(U256::from_u128(stake_allot_token), U256::from_u128(self.allot.token_offset))?;
        let (inc_d, off_d) = per_token(dd, token)?;
        let (inc_t, off_t) = per_token(dt, token)?;
        let sys_d = c_add(self.allot.sys_allot_debt, inc_d)?;
        let sys_t = c_add(self.allot.sys_allot_token, inc_t)?;
        self.allot = Allot { sys_allot_debt: sys_d, sys_allot_token: sys_t, debt_offset: off_d, token_offset: off_t };
        Ok(())
    }

    /// Collateral the pledge pool or the stability pool takes for
    /// `debt_pledge` of liquidated debt out of `token` available, for a
    /// position at pledge rate `allot_ratio`.
    pub fn stable_stake_allot(
        &self,
        debt_pledge: u128,
        token: u128,
        allot_ratio: u128,
        is_stable_allot: bool,
        is_all_allot: bool,
    ) -> (r: Result<u128, ContractError>)
        ensures
            match r {
                Ok(v) => stake_allot_spec(debt_pledge as int, token as int, allot_ratio as int,
                    self.params.allot_ratio as int, self.oracle.token_price as int, is_stable_allot,
                    is_all_allot) == Some(v as int),
                Err(_) => stake_allot_spec(debt_pledge as int, token as int, allot_ratio as int,
                    self.params.allot_ratio as int, self.oracle.token_price as int, is_stable_allot,
                    is_all_allot) is None,
            },
    {
        if allot_ratio >= INIT_NO_LIQUIDATION_FEE_RATE {
            mul3_div(debt_pledge, self.params.allot_ratio, INIT_STABLE_INDEX, self.oracle.token_price)
        } else if is_stable_allot && !is_all_allot {
            let v = mul3_div(debt_pledge, self.params.allot_ratio, INIT_STABLE_INDEX, self.oracle.token_price)?;
            Ok(if v > token { token } else { v })
        } else {
            Ok(token)
        }
    }

    /// Clears the position of a liquidated account.
    pub fn default_account(&mut self, account: &String)
        requires
            old(self).wf(),
        ensures
            final(self).tables_wf(),
            *final(self) == (OinStake { positions: final(self).positions, ..*old(self) }),
            final(self).positions.map() == old(self).positions.map().insert(account@, zero_position()),
            reserved(final(self).positions) == reserved(old(self).positions) - if old(self).positions.map().dom().contains(
                account@) { old(self).positions.map()[account@].guarantee as int } else { 0 },
    {
        let np = Position {
            coin: 0,
            token: 0,
            guarantee: 0,
            allot: AccountAllot { account_allot_debt: 0, account_allot_token: 0 },
            stable: UserStable { unpaid_stable_fee: 0, index: 0 },
        };
        let ghost pm0 = self.positions;
        self.positions.insert(account.clone(), np);
        proof {
            crate::state::lemma_reserved_insert(pm0, self.positions, account@, np);
        }
    }
}

/// A position with nothing pledged or owed.
pub open spec fn zero_position() -> Position {
    Position {
        coin: 0,
        token: 0,
        guarantee: 0,
        allot: AccountAllot { account_allot_debt: 0, account_allot_token: 0 },
        stable: UserStable { unpaid_stable_fee: 0, index: 0 },
    }
}

} // verus!
