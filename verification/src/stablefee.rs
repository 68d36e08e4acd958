//! The stability fee. A yearly rate accrues through a global index; each
//! position owes the index growth since its own index times its coins.
use vstd::prelude::*;
use crate::consts::{BLOCK_PER_YEAR, INIT_STABLE_INDEX, NANO_CONVERSION};
use crate::error::{arithmetic_error, ContractError};
use crate::math::{c_add, c_div, c_mul, c_sub, fits};
use crate::state::{OinStake, StableFee};
use crate::types::{Position, UserStable};

verus! {

/// Seconds of a nanosecond timestamp.
pub open spec fn secs(now: u64) -> int {
    (now / NANO_CONVERSION) as int
}

/// Growth of the fee index over `delta` seconds.
pub open spec fn index_gain(rate: int, delta: int) -> int {
    rate * delta / BLOCK_PER_YEAR as int
}

/// Fee accrued over `delta` seconds on `coin` coins.
pub open spec fn fee_gain(rate: int, delta: int, coin: int) -> int {
    rate * delta * coin / BLOCK_PER_YEAR as int / INIT_STABLE_INDEX as int
}

impl StableFee {
    /// Whether advancing the index to `cur` seconds stays in range.
    pub open spec fn advance_ok(&self, cur: int, total_coin: int) -> bool {
        let delta = cur - self.stable_block_number;
        &&& delta >= 0
        &&& (delta > 0 && total_coin > 0) ==> {
            &&& fits(self.stable_fee_rate * delta)
            &&& fits(self.stable_index + index_gain(self.stable_fee_rate as int, delta))
            &&& fits(self.stable_fee_rate * delta * total_coin)
            &&& fits(self.total_unpaid_stable_fee + fee_gain(self.stable_fee_rate as int, delta, total_coin))
        }
    }

    /// The fee state after advancing the index to `cur` seconds.
    pub open spec fn advanced(&self, cur: int, total_coin: int) -> StableFee {
        let delta = cur - self.stable_block_number;
        if delta > 0 && total_coin > 0 {
            StableFee {
                stable_index: (self.stable_index + index_gain(self.stable_fee_rate as int, delta)) as u128,
                total_unpaid_stable_fee: (self.total_unpaid_stable_fee + fee_gain(
                    self.stable_fee_rate as int,
                    delta,
                    total_coin,
                )) as u128,
                stable_block_number: cur as u64,
                ..*self
            }
        } else {
            StableFee { stable_block_number: cur as u64, ..*self }
        }
    }

    /// Advances the fee index to `now` (nanoseconds) for `total_coin` coins.
    pub fn update_system_index(&mut self, now: u64, total_coin: u128) -> (r: Result<(), ContractError>)
        ensures
            r is Ok <==> old(self).advance_ok(secs(now), total_coin as int),
            r is Ok ==> *final(self) == old(self).advanced(secs(now), total_coin as int),
            r is Err ==> arithmetic_error(r->Err_0),
    {
        let current_block_number = OinStake::to_nano(now);
        let delta_block = c_sub(current_block_number as u128, self.stable_block_number as u128)?;
        if delta_block > 0 && total_coin > 0 {
            let step = c_mul(self.stable_fee_rate, delta_block)?;
            let new_index = c_add(self.stable_index, step / BLOCK_PER_YEAR)?;
            let total = c_mul(step, total_coin)?;
            let new_unpaid = c_add(
                self.total_unpaid_stable_fee,
                total / BLOCK_PER_YEAR / INIT_STABLE_INDEX,
            )?;
            self.stable_index = new_index;
            self.total_unpaid_stable_fee = new_unpaid;
        }
        self.stable_block_number = current_block_number;
        Ok(())
    }
}

/// Fee a position owes for the index growth since its own index.
pub open spec fn position_fee(index: int, p: Position) -> int {
    (index - p.stable.index) * p.coin / INIT_STABLE_INDEX as int
}

/// Whether charging a position up to `index` stays in range.
pub open spec fn charge_ok(index: int, p: Position) -> bool {
    p.coin > 0 ==> {
        &&& index >= p.stable.index
        &&& fits((index - p.stable.index) * p.coin)
        &&& fits(p.stable.unpaid_stable_fee + position_fee(index, p))
    }
}

/// The position after charging its fee up to `index`.
pub open spec fn charged(index: int, p: Position) -> Position {
    Position {
        stable: UserStable {
            unpaid_stable_fee: if p.coin > 0 {
                (p.stable.unpaid_stable_fee + position_fee(index, p)) as u128
            } else {
                p.stable.unpaid_stable_fee
            },
            index: index as u128,
        },
        ..p
    }
}

/// Fee a position owes at `cur` seconds, including the growth the global
/// index has not recorded yet.
pub open spec fn unpaid_at(f: StableFee, p: Position, cur: int) -> int {
    p.stable.unpaid_stable_fee + position_fee(f.stable_index as int, p)
        + fee_gain(f.stable_fee_rate as int, cur - f.stable_block_number, p.coin as int)
}

/// Whether `unpaid_at` is computed in range.
pub open spec fn unpaid_ok(f: StableFee, p: Position, cur: int) -> bool {
    &&& f.stable_index >= p.stable.index
    &&& fits((f.stable_index - p.stable.index) * p.coin)
    &&& fits(p.stable.unpaid_stable_fee + position_fee(f.stable_index as int, p))
    &&& cur >= f.stable_block_number
    &&& fits(f.stable_fee_rate * (cur - f.stable_block_number))
    &&& fits(f.stable_fee_rate * (cur - f.stable_block_number) * p.coin)
    &&& fits(unpaid_at(f, p, cur))
}

/// Charges a position's fee up to `index`.
pub fn charge_position(index: u128, p: Position) -> (r: Result<Position, ContractError>)
    ensures
        r is Ok <==> charge_ok(index as int, p),
        r matches Ok(q) ==> q == charged(index as int, p),
        r is Err ==> arithmetic_error(r->Err_0),
{
    let mut p = p;
    if p.coin > 0 {
        let d = c_sub(index, p.stable.index)?;
        let m = c_mul(d, p.coin)?;
        p.stable.unpaid_stable_fee = c_add(p.stable.unpaid_stable_fee, m / INIT_STABLE_INDEX)?;
    }
    p.stable.index = index;
    Ok(p)
}

impl OinStake {
    /// Advances the global fee index to `now` (nanoseconds).
    pub fn update_stable_system_index(&mut self, now: u64) -> (r: Result<(), ContractError>)
        ensures
            r is Ok <==> old(self).fee.advance_ok(secs(now), old(self).total_coin as int),
            r is Ok ==> final(self).fee == old(self).fee.advanced(secs(now), old(self).total_coin as int),
            r is Err ==> arithmetic_error(r->Err_0),
            *final(self) == (OinStake { fee: final(self).fee, ..*old(self) }),
    {
        let total_coin = self.total_coin;
        self.fee.update_system_index(now, total_coin)
    }

    /// Advances the global index, then charges `account`'s fee up to it.
    pub fn update_stable_fee(&mut self, account: &String, now: u64) -> (r: Result<(), ContractError>)
        requires
            old(self).wf(),
        ensures
            final(self).wf(),
            r is Ok && crate::vaults::list_kept(old(self)) ==> crate::vaults::list_kept(final(self)),
            *final(self) == (OinStake { fee: final(self).fee, positions: final(self).positions, ..*old(self) }),
            ({
                let f = old(self).fee.advanced(secs(now), old(self).total_coin as int);
                let pm = old(self).positions.map();
                &&& r is Ok <==> {
                    &&& old(self).fee.advance_ok(secs(now), old(self).total_coin as int)
                    &&& pm.dom().contains(account@)
                    &&& charge_ok(f.stable_index as int, pm[account@])
                }
                &&& r is Ok ==> {
                    &&& final(self).fee == f
                    &&& final(self).positions.map() == pm.insert(
                        account@,
                        charged(f.stable_index as int, pm[account@]),
                    )
                }
                &&& (old(self).fee.advance_ok(secs(now), old(self).total_coin as int)
                    && !pm.dom().contains(account@))
                    ==> r == Err::<(), ContractError>(ContractError::NotRegister)
            }),
    {
        self.update_stable_system_index(now)?;
        match self.positions.get(account) {
            Some(p) => {
                let q = charge_position(self.fee.stable_index, p)?;
                let ghost pm0 = self.positions;
                let np = q;
                self.positions.insert(account.clone(), np);
                proof {
                    crate::state::lemma_reserved_insert(pm0, self.positions, account@, np);
                }
                Ok(())
            },
            None => Err(ContractError::NotRegister),
        }
    }

    /// Stability fee `account` owes at `now` (nanoseconds).
    pub fn internal_user_unpaid_stable(&self, account: &String, now: u64) -> (r: Result<u128, ContractError>)
        requires
            self.wf(),
        ensures
            ({
                let pm = self.positions.map();
                &&& r is Ok <==> pm.dom().contains(account@) && unpaid_ok(self.fee, pm[account@], secs(now))
                &&& r matches Ok(v) ==> v == unpaid_at(self.fee, pm[account@], secs(now))
                &&& !pm.dom().contains(account@) ==> r == Err::<u128, ContractError>(ContractError::NotRegistered)
            }),
    {
        let p = match self.positions.get(account) {
            Some(p) => p,
            None => return Err(ContractError::NotRegistered),
        };
        let cur = Self::to_nano(now);
        let d = c_sub(self.fee.stable_index, p.stable.index)?;
        let part1 = c_mul(d, p.coin)? / INIT_STABLE_INDEX;
        let acc = c_add(p.stable.unpaid_stable_fee, part1)?;
        let delta = c_sub(cur as u128, self.fee.stable_block_number as u128)?;
        let step = c_mul(self.fee.stable_fee_rate, delta)?;
        let part2 = c_mul(step, p.coin)? / BLOCK_PER_YEAR / INIT_STABLE_INDEX;
        c_add(acc, part2)
    }
}

} // verus!
