//! Debt positions: what a position owes and holds, the pledge rates of the
//! position and of the system, and what a position may still withdraw or
//! mint.
use vstd::prelude::*;
use crate::allot::{account_allot_of, allot_share};
use crate::consts::{INIT_STABLE_INDEX, ONE_COIN, ONE_TOKEN, STAKE_RATIO_BASE};
use crate::error::ContractError;
use crate::math::{c_add, c_mul, c_sub, fits, mul3_div, mul3_div_spec, narrow, w_add, w_div, w_mul, w_sub};
use crate::stablefee::{fee_gain, secs, unpaid_at, unpaid_ok};
use crate::state::{Allot, OinStake, StableFee};
use crate::types::Position;
use crate::u256::{b256, U256};

verus! {

/// Debt (coins, guarantee and redistributed debt), pledge (own and
/// redistributed collateral) and guarantee of a position.
pub open spec fn debt_spec(p: Position, a: Allot) -> Option<(int, int, int)> {
    match allot_share(p, a) {
        Some((d, t)) => if fits(p.coin + p.guarantee) && fits(p.coin + p.guarantee + d) && fits(p.token + t) {
            Some((p.coin + p.guarantee + d, p.token + t, p.guarantee as int))
        } else {
            None
        },
        None => None,
    }
}

/// The least collateral a first deposit must bring.
pub open spec fn min_amount_spec(s: &OinStake) -> Option<int> {
    mul3_div_spec(s.params.min_mint_amount + s.params.guarantee_limit, s.params.liquidation_line as int,
        INIT_STABLE_INDEX as int, s.oracle.token_price as int)
}

/// The oracle price is fresh at `now`.
pub open spec fn poked(s: &OinStake, now: u64) -> bool {
    s.oracle.token_price != 0 && now >= s.oracle.token_poke_time
        && now - s.oracle.token_poke_time < crate::consts::POKE_INTERVAL_TIME
}

/// Pledge rate of a system with these totals at `now`: collateral value
/// over coins, guarantees and stability fees owed.
pub open spec fn sys_ratio_parts(total_token: int, price: int, f: StableFee, total_coin: int, total_guarantee: int,
    now: u64) -> Option<int> {
    let tu = total_token * price;
    if tu == 0 {
        Some(0)
    } else {
        let cur = secs(now);
        let delta = cur - f.stable_block_number;
        let unpaid = f.total_unpaid_stable_fee + fee_gain(f.stable_fee_rate as int, delta, total_coin);
        let total = total_coin + total_guarantee + unpaid;
        if delta < 0 || !fits(f.stable_fee_rate * delta) || !fits(f.stable_fee_rate * delta * total_coin)
            || !fits(unpaid) || !fits(total_coin + total_guarantee) || !fits(total) || total == 0
            || !fits(tu / (STAKE_RATIO_BASE as int) / total) {
            None
        } else {
            Some(tu / (STAKE_RATIO_BASE as int) / total)
        }
    }
}

/// Pledge rate of the system at `now`.
pub open spec fn sys_ratio_spec(s: &OinStake, now: u64) -> Option<int> {
    sys_ratio_parts(s.total_token as int, s.oracle.token_price as int, s.fee, s.total_coin as int,
        s.total_guarantee as int, now)
}

/// Pledge rate of a position with debt `debt`, pledge `token` and unpaid fee
/// `unpaid`.
pub open spec fn user_ratio_spec(debt: int, token: int, unpaid: int, price: int) -> Option<int> {
    let total = debt + unpaid;
    if token == 0 {
        Some(0)
    } else if !fits(total) || total == 0 || !fits(token * price / total / (STAKE_RATIO_BASE as int)) {
        None
    } else {
        Some(token * price / total / (STAKE_RATIO_BASE as int))
    }
}

/// Pledge rate of `account` at `now`, as `internal_user_ratio` gives it.
pub open spec fn user_ratio_of(s: &OinStake, account: Seq<char>, now: u64) -> Option<int> {
    let pm = s.positions.map();
    if !poked(s, now) || !pm.dom().contains(account) || debt_spec(pm[account], s.allot) is None {
        None
    } else {
        let (d, t, g) = debt_spec(pm[account], s.allot).unwrap();
        if t == 0 {
            Some(0)
        } else if !unpaid_ok(s.fee, pm[account], secs(now)) {
            None
        } else {
            user_ratio_spec(d, t, unpaid_at(s.fee, pm[account], secs(now)), s.oracle.token_price as int)
        }
    }
}

/// Collateral a position may withdraw and stay above the liquidation line,
/// counting at least the minimum mint as debt.
pub open spec fn available_spec(debt: int, token: int, guarantee: int, unpaid: int, min_mint: int, line: int, price: int) -> Option<int> {
    if debt == guarantee {
        Some(token)
    } else if debt < guarantee {
        None
    } else {
        let user_coin = if debt - guarantee < min_mint { min_mint } else { debt - guarantee };
        let coin_usd = (user_coin + guarantee + unpaid) * line * ONE_TOKEN;
        let token_usd = token * price * ONE_COIN;
        if coin_usd >= b256() || token_usd >= b256() {
            None
        } else if token_usd <= coin_usd {
            Some(0)
        } else if price == 0 || !fits((token_usd - coin_usd) / price / (ONE_COIN as int)) {
            None
        } else {
            Some((token_usd - coin_usd) / price / (ONE_COIN as int))
        }
    }
}

/// Stable coin a position may still mint: its collateral value at the
/// liquidation line, less its debt and its unpaid fee, never below zero.
pub open spec fn can_mint_spec(debt: int, token: int, unpaid: int, line: int, price: int) -> Option<int> {
    if line == 0 {
        None
    } else {
        let max_coin = token * price / line / (INIT_STABLE_INDEX as int);
        let a = if max_coin >= debt { max_coin - debt } else { 0 };
        let b = if a >= unpaid { a - unpaid } else { 0 };
        if !fits(b) {
            None
        } else {
            Some(b)
        }
    }
}

impl OinStake {
    /// Whether `account` is registered.
    pub fn is_register(&self, account: &String) -> (r: bool)
        requires
            self.wf(),
        ensures
            r == self.positions.map().dom().contains(account@),
    {
        self.positions.contains(account)
    }

    /// Debt, pledge and guarantee of `account`.
    pub fn get_debt(&self, account: &String) -> (r: Result<(u128, u128, u128), ContractError>)
        requires
            self.wf(),
        ensures
            ({
                let pm = self.positions.map();
                &&& !pm.dom().contains(account@) ==> r == Err::<(u128, u128, u128), ContractError>(ContractError::NotRegistered)
                &&& pm.dom().contains(account@) ==> match r {
                    Ok((d, t, g)) => debt_spec(pm[account@], self.allot) == Some((d as int, t as int, g as int)),
                    Err(_) => debt_spec(pm[account@], self.allot) is None,
                }
            }),
    {
        let p = match self.positions.get(account) {
            Some(p) => p,
            None => return Err(ContractError::NotRegistered),
        };
        let (ad, at) = account_allot_of(p, &self.allot)?;
        let d1 = c_add(p.coin, p.guarantee)?;
        let debt = c_add(d1, ad)?;
        let token = c_add(p.token, at)?;
        Ok((debt, token, p.guarantee))
    }

    /// The least collateral a first deposit must bring.
    pub fn _min_amount_token(&self) -> (r: Result<u128, ContractError>)
        ensures
            match r {
                Ok(v) => min_amount_spec(self) == Some(v as int),
                Err(_) => min_amount_spec(self) is None,
            },
    {
        let sum = U256::from_u128(self.params.min_mint_amount).checked_add(U256::from_u128(self.params.guarantee_limit));
        let sum = match sum {
            Some(v) => v,
            None => return Err(ContractError::AddOverflow),
        };
        let a = match w_mul(sum, U256::from_u128(self.params.liquidation_line)) {
            Ok(a) => a,
            Err(e) => {
                proof {
                    let x = sum@ * self.params.liquidation_line;
                    assert(x * INIT_STABLE_INDEX >= x) by (nonlinear_arith)
                        requires x >= 0;
                }
                return Err(e);
            },
        };
        let b = w_mul(a, U256::from_u128(INIT_STABLE_INDEX))?;
        let q = w_div(b, self.oracle.token_price)?;
        narrow(q)
    }

    /// Pledge rate of the system at `now` (nanoseconds).
    pub fn internal_sys_ratio(&self, now: u64) -> (r: Result<u128, ContractError>)
        ensures
            r is Ok <==> poked(self, now) && sys_ratio_spec(self, now) is Some,
            r matches Ok(v) ==> sys_ratio_spec(self, now) == Some(v as int),
            !poked(self, now) ==> r is Err,
    {
        self.assert_is_poked(now)?;
        let tu = w_mul(U256::from_u128(self.total_token), U256::from_u128(self.oracle.token_price));
        let tu = match tu {
            Ok(v) => v,
            Err(e) => {
                proof {
                    assert(self.total_token * self.oracle.token_price < b256()) by (nonlinear_arith)
                        requires self.total_token < crate::u256::b128(), self.oracle.token_price < crate::u256::b128();
                }
                return Err(e);
            },
        };
        if tu.eq_value(&U256::zero()) {
            return Ok(0);
        }
        let cur = Self::to_nano(now);
        let delta = c_sub(cur as u128, self.fee.stable_block_number as u128)?;
        let step = c_mul(self.fee.stable_fee_rate, delta)?;
        let gain = c_mul(step, self.total_coin)? / crate::consts::BLOCK_PER_YEAR / INIT_STABLE_INDEX;
        let unpaid = c_add(self.fee.total_unpaid_stable_fee, gain)?;
        let t1 = c_add(self.total_coin, self.total_guarantee)?;
        let total = c_add(t1, unpaid)?;
        let q1 = w_div(tu, STAKE_RATIO_BASE)?;
        let q2 = w_div(q1, total)?;
        narrow(q2)
    }

    /// Pledge rate of `account` at `now`.
    pub fn internal_user_ratio(&self, account: &String, now: u64) -> (r: Result<u128, ContractError>)
        requires
            self.wf(),
        ensures
            ({
                let pm = self.positions.map();
                let ok = poked(self, now) && pm.dom().contains(account@)
                    && debt_spec(pm[account@], self.allot) is Some
                    && {
                        let (d, t, g) = debt_spec(pm[account@], self.allot).unwrap();
                        t == 0 || (unpaid_ok(self.fee, pm[account@], secs(now))
                            && user_ratio_spec(d, t, unpaid_at(self.fee, pm[account@], secs(now)),
                                self.oracle.token_price as int) is Some)
                    };
                &&& r is Ok <==> ok
                &&& r matches Ok(v) ==> {
                    let (d, t, g) = debt_spec(pm[account@], self.allot).unwrap();
                    if t == 0 {
                        v == 0
                    } else {
                        user_ratio_spec(d, t, unpaid_at(self.fee, pm[account@], secs(now)),
                            self.oracle.token_price as int) == Some(v as int)
                    }
                }
            }),
    {
        self.assert_is_poked(now)?;
        let (debt, token, _g) = self.get_debt(account)?;
        if token == 0 {
            return Ok(0);
        }
        let unpaid = self.internal_user_unpaid_stable(account, now)?;
        let total = c_add(debt, unpaid)?;
        proof {
            assert(token * self.oracle.token_price < b256()) by (nonlinear_arith)
                requires token < crate::u256::b128(), self.oracle.token_price < crate::u256::b128();
        }
        let tu = w_mul(U256::from_u128(token), U256::from_u128(self.oracle.token_price))?;
        let q1 = w_div(tu, total)?;
        let q2 = w_div(q1, STAKE_RATIO_BASE)?;
        narrow(q2)
    }

    /// Collateral `account` may withdraw at `now`.
    pub fn internal_avaliable_token(&self, account: &String, now: u64) -> (r: Result<u128, ContractError>)
        requires
            self.wf(),
        ensures
            ({
                let pm = self.positions.map();
                let ok = poked(self, now) && pm.dom().contains(account@)
                    && debt_spec(pm[account@], self.allot) is Some
                    && {
                        let (d, t, g) = debt_spec(pm[account@], self.allot).unwrap();
                        d == g || (d > g && unpaid_ok(self.fee, pm[account@], secs(now))
                            && available_spec(d, t, g, unpaid_at(self.fee, pm[account@], secs(now)),
                                self.params.min_mint_amount as int, self.params.liquidation_line as int,
                                self.oracle.token_price as int) is Some)
                    };
                &&& r is Ok <==> ok
                &&& r matches Ok(v) ==> {
                    let (d, t, g) = debt_spec(pm[account@], self.allot).unwrap();
                    if d == g {
                        v == t
                    } else {
                        available_spec(d, t, g, unpaid_at(self.fee, pm[account@], secs(now)),
                            self.params.min_mint_amount as int, self.params.liquidation_line as int,
                            self.oracle.token_price as int) == Some(v as int)
                    }
                }
            }),
    {
        self.assert_is_poked(now)?;
        let (debt, token, guarantee) = self.get_debt(account)?;
        if debt == guarantee {
            return Ok(token);
        }
        let mut user_coin = c_sub(debt, guarantee)?;
        if user_coin < self.params.min_mint_amount {
            user_coin = self.params.min_mint_amount;
        }
        let unpaid = self.internal_user_unpaid_stable(account, now)?;
        let s1 = w_add(U256::from_u128(user_coin), U256::from_u128(guarantee))?;
        let s2 = w_add(s1, U256::from_u128(unpaid))?;
        let c1 = w_mul(s2, U256::from_u128(self.params.liquidation_line))?;
        let coin_usd = w_mul(c1, U256::from_u128(ONE_TOKEN))?;
        proof {
            assert(token * self.oracle.token_price < b256()) by (nonlinear_arith)
                requires token < crate::u256::b128(), self.oracle.token_price < crate::u256::b128();
        }
        let t1 = w_mul(U256::from_u128(token), U256::from_u128(self.oracle.token_price))?;
        let token_usd = w_mul(t1, U256::from_u128(ONE_COIN))?;
        if token_usd.le(&coin_usd) {
            Ok(0)
        } else {
            let d = w_sub(token_usd, coin_usd)?;
            let q1 = w_div(d, self.oracle.token_price)?;
            let q2 = w_div(q1, ONE_COIN)?;
            narrow(q2)
        }
    }

    /// Stable coin `account` may still mint at `now`.
    pub fn internal_can_mint_amount(&self, account: &String, now: u64) -> (r: Result<u128, ContractError>)
        requires
            self.wf(),
        ensures
            ({
                let pm = self.positions.map();
                let ok = poked(self, now) && pm.dom().contains(account@)
                    && debt_spec(pm[account@], self.allot) is Some
                    && unpaid_ok(self.fee, pm[account@], secs(now))
                    && {
                        let (d, t, g) = debt_spec(pm[account@], self.allot).unwrap();
                        can_mint_spec(d, t, unpaid_at(self.fee, pm[account@], secs(now)),
                            self.params.liquidation_line as int, self.oracle.token_price as int) is Some
                    };
                &&& r is Ok <==> ok
                &&& r matches Ok(v) ==> {
                    let (d, t, g) = debt_spec(pm[account@], self.allot).unwrap();
                    can_mint_spec(d, t, unpaid_at(self.fee, pm[account@], secs(now)),
                        self.params.liquidation_line as int, self.oracle.token_price as int) == Some(v as int)
                }
            }),
    {
        self.assert_is_poked(now)?;
        let (debt, token, _g) = self.get_debt(account)?;
        let unpaid = self.internal_user_unpaid_stable(account, now)?;
        proof {
            assert(token * self.oracle.token_price < b256()) by (nonlinear_arith)
                requires token < crate::u256::b128(), self.oracle.token_price < crate::u256::b128();
        }
        let m = w_mul(U256::from_u128(token), U256::from_u128(self.oracle.token_price))?;
        let m = w_div(m, self.params.liquidation_line)?;
        let m = w_div(m, INIT_STABLE_INDEX)?;
        let a = match m.checked_sub(U256::from_u128(debt)) {
            Some(v) => v,
            None => U256::zero(),
        };
        let b = match a.checked_sub(U256::from_u128(unpaid)) {
            Some(v) => v,
            None => U256::zero(),
        };
        narrow(b)
    }
}

} // verus!
