//! The stability pool's bookkeeping. Deposits absorb liquidated debt and
//! share the liquidated collateral through the sum S, and a stream of
//! mining rewards through the sum G. A deposit shrinks with the running
//! product P; P is rescaled by `SCALE_FACTOR` when it gets small (a new
//! scale) and restarts when the pool is emptied (a new epoch). S and G are
//! kept per epoch and per scale.
use vstd::prelude::*;
use crate::consts::{DECIMAL_PRECISION, SCALE_FACTOR};
use crate::error::{arithmetic_error, ContractError};
use crate::math::{fits, c_add, c_mul, c_sub, narrow, w_add, w_div, w_mul};
use crate::state::StablePool;
use crate::actions::{Callback, Transfer};
use crate::state::{st_near, st_oin, ST_NEAR, ST_OIN};
use crate::types::{Depositor, Snapshots, SystemG};
use crate::u256::{b256, lemma_canonical, u256_of, wide_mul, U256};

verus! {

/// The table of sums S, epoch by epoch, scale by scale.
pub open spec fn sum_rows(sp: StablePool) -> Seq<Seq<U256>> {
    sp.epoch_to_scale_to_sum@.map_values(|r: Vec<U256>| r@)
}

/// The table of sums G, epoch by epoch, scale by scale.
pub open spec fn g_rows(sp: StablePool) -> Seq<Seq<SystemG>> {
    sp.epoch_to_scale_to_g@.map_values(|r: Vec<SystemG>| r@)
}

/// The entry at (`epoch`, `scale`) of a table, if there is one.
pub open spec fn entry<T>(t: Seq<Seq<T>>, epoch: int, scale: int) -> Option<T> {
    if 0 <= epoch < t.len() && 0 <= scale < t[epoch].len() {
        Some(t[epoch][scale])
    } else {
        None
    }
}

/// A table can take an entry at (`epoch`, `scale`): the row exists and the
/// scale is one of its entries or the next one.
pub open spec fn can_put<T>(t: Seq<Seq<T>>, epoch: int, scale: int) -> bool {
    0 <= epoch < t.len() && 0 <= scale <= t[epoch].len()
}

/// The table with `v` at (`epoch`, `scale`).
pub open spec fn put<T>(t: Seq<Seq<T>>, epoch: int, scale: int, v: T) -> Seq<Seq<T>> {
    t.update(epoch, if scale < t[epoch].len() { t[epoch].update(scale, v) } else { t[epoch].push(v) })
}

/// The sum S at (`epoch`, `scale`).
pub open spec fn sum_entry(sp: StablePool, epoch: int, scale: int) -> Option<U256> {
    entry(sum_rows(sp), epoch, scale)
}

/// The sum G at (`epoch`, `scale`).
pub open spec fn g_entry(sp: StablePool, epoch: int, scale: int) -> Option<SystemG> {
    entry(g_rows(sp), epoch, scale)
}

/// The sum S of the current epoch and scale is recorded.
pub open spec fn current_sum_kept(sp: StablePool) -> bool {
    sum_entry(sp, sp.current_epoch as int, sp.current_scale as int) is Some
}

/// Floor of `n / d` when `d` is positive and the quotient fits in `u128`.
pub open spec fn div_fit(n: int, d: int) -> Option<int> {
    if d <= 0 || !fits(n / d) {
        None
    } else {
        Some(n / d)
    }
}

/// What a deposit of `d` made at `snap` is worth now.
pub open spec fn compounded_spec(sp: StablePool, d: int, snap: Snapshots) -> Option<int> {
    if snap.epoch < sp.current_epoch {
        Some(0)
    } else if snap.scale == sp.current_scale {
        div_fit(d * sp.p_system, snap.p as int)
    } else if snap.scale + 1 == sp.current_scale {
        if snap.p == 0 {
            None
        } else {
            div_fit(d * sp.p_system / snap.p as int, SCALE_FACTOR as int)
        }
    } else {
        Some(0)
    }
}

/// G of the current scale advanced to `now_s` seconds, as a number; the
/// growth is computed on 256 bits.
pub open spec fn current_g_spec(sp: StablePool, now_s: int) -> Option<nat> {
    match g_entry(sp, sp.current_epoch as int, sp.current_scale as int) {
        None => None,
        Some(g) => if sp.total_usdo_deposits == 0 {
            Some(g.g_system@)
        } else {
            let delta = now_s - g.g_block_num;
            let grown = delta * sp.reward_speed_sp * sp.p_system;
            if delta < 0 || grown >= b256() {
                None
            } else {
                let v = g.g_system@ + grown / sp.total_usdo_deposits as int;
                if v >= b256() { None } else { Some(v as nat) }
            }
        },
    }
}

/// The G record `g` advanced to `now_s` seconds; the elapsed reward is
/// first computed on 128 bits. A record never advanced restarts from zero
/// at `now_s`.
pub open spec fn advance_g(sp: StablePool, g: SystemG, now_s: int) -> Option<SystemG> {
    if g.g_block_num == 0 {
        Some(SystemG { g_block_num: now_s as u64, g_system: u256_of(0) })
    } else if sp.total_usdo_deposits == 0 {
        Some(SystemG { g_block_num: now_s as u64, g_system: g.g_system })
    } else {
        let delta = now_s - g.g_block_num;
        let grown = delta * sp.reward_speed_sp * sp.p_system;
        if delta < 0 || !fits(delta * sp.reward_speed_sp) || grown >= b256() {
            None
        } else {
            let v = g.g_system@ + grown / sp.total_usdo_deposits as int;
            if v >= b256() {
                None
            } else {
                Some(SystemG { g_block_num: now_s as u64, g_system: u256_of(v as nat) })
            }
        }
    }
}

/// The current scale's G record advanced to `now_s` seconds.
pub open spec fn new_scale_g_spec(sp: StablePool, now_s: int) -> Option<SystemG> {
    match g_entry(sp, sp.current_epoch as int, sp.current_scale as int) {
        None => None,
        Some(g) => advance_g(sp, g, now_s),
    }
}

impl StablePool {
    /// The sum S at (`epoch`, `scale`).
    pub fn sum_at(&self, epoch: u128, scale: u64) -> (r: Result<U256, ContractError>)
        ensures
            match r {
                Ok(v) => sum_entry(*self, epoch as int, scale as int) == Some(v),
                Err(e) => sum_entry(*self, epoch as int, scale as int) is None
                    && e == ContractError::NotLegalGet,
            },
    {
        if epoch >= self.epoch_to_scale_to_sum.len() as u128 {
            return Err(ContractError::NotLegalGet);
        }
        let row = &self.epoch_to_scale_to_sum[epoch as usize];
        if scale as u128 >= row.len() as u128 {
            return Err(ContractError::NotLegalGet);
        }
        Ok(row[scale as usize])
    }

    /// The G record at (`epoch`, `scale`).
    pub fn g_at(&self, epoch: u128, scale: u64) -> (r: Result<SystemG, ContractError>)
        ensures
            match r {
                Ok(v) => g_entry(*self, epoch as int, scale as int) == Some(v),
                Err(e) => g_entry(*self, epoch as int, scale as int) is None
                    && e == ContractError::NotLegalGet,
            },
    {
        if epoch >= self.epoch_to_scale_to_g.len() as u128 {
            return Err(ContractError::NotLegalGet);
        }
        let row = &self.epoch_to_scale_to_g[epoch as usize];
        if scale as u128 >= row.len() as u128 {
            return Err(ContractError::NotLegalGet);
        }
        Ok(row[scale as usize])
    }

    /// Records `v` as the sum S at (`epoch`, `scale`).
    pub fn put_sum(&mut self, epoch: u128, scale: u64, v: U256) -> (r: Result<(), ContractError>)
        ensures
            current_sum_kept(*old(self)) ==> current_sum_kept(*final(self)),
            r is Ok <==> can_put(sum_rows(*old(self)), epoch as int, scale as int),
            r is Ok ==> sum_rows(*final(self)) == put(sum_rows(*old(self)), epoch as int, scale as int, v),
            r is Err ==> r == Err::<(), ContractError>(ContractError::NotLegalGet) && *final(self) == *old(self),
            *final(self) == (StablePool { epoch_to_scale_to_sum: final(self).epoch_to_scale_to_sum, ..*old(self) }),
    {
        if epoch >= self.epoch_to_scale_to_sum.len() as u128 {
            return Err(ContractError::NotLegalGet);
        }
        let e = epoch as usize;
        let len = self.epoch_to_scale_to_sum[e].len();
        if scale as u128 > len as u128 {
            return Err(ContractError::NotLegalGet);
        }
        let ghost t0 = sum_rows(*self);
        if (scale as u128) < len as u128 {
            self.epoch_to_scale_to_sum[e].set(scale as usize, v);
        } else {
            self.epoch_to_scale_to_sum[e].push(v);
        }
        proof {
            assert(sum_rows(*self) =~= put(t0, epoch as int, scale as int, v));
        }
        Ok(())
    }

    /// Records `v` as the G record at (`epoch`, `scale`).
    pub fn put_g(&mut self, epoch: u128, scale: u64, v: SystemG) -> (r: Result<(), ContractError>)
        ensures
            current_sum_kept(*old(self)) ==> current_sum_kept(*final(self)),
            r is Ok <==> can_put(g_rows(*old(self)), epoch as int, scale as int),
            r is Ok ==> g_rows(*final(self)) == put(g_rows(*old(self)), epoch as int, scale as int, v),
            r is Err ==> r == Err::<(), ContractError>(ContractError::NotLegalGet) && *final(self) == *old(self),
            *final(self) == (StablePool { epoch_to_scale_to_g: final(self).epoch_to_scale_to_g, ..*old(self) }),
    {
        if epoch >= self.epoch_to_scale_to_g.len() as u128 {
            return Err(ContractError::NotLegalGet);
        }
        let e = epoch as usize;
        let len = self.epoch_to_scale_to_g[e].len();
        if scale as u128 > len as u128 {
            return Err(ContractError::NotLegalGet);
        }
        let ghost t0 = g_rows(*self);
        if (scale as u128) < len as u128 {
            self.epoch_to_scale_to_g[e].set(scale as usize, v);
        } else {
            self.epoch_to_scale_to_g[e].push(v);
        }
        proof {
            assert(g_rows(*self) =~= put(t0, epoch as int, scale as int, v));
        }
        Ok(())
    }

    /// What a deposit of `initial_deposit` made at `snap` is worth now.
    pub fn _get_compounded_stake_from_snapshots(&self, initial_deposit: u128, snap: Snapshots)
        -> (r: Result<u128, ContractError>)
        ensures
            match r {
                Ok(v) => compounded_spec(*self, initial_deposit as int, snap) == Some(v as int),
                Err(_) => compounded_spec(*self, initial_deposit as int, snap) is None,
            },
    {
        if snap.epoch < self.current_epoch {
            return Ok(0);
        }
        if snap.scale == self.current_scale || snap.scale as u128 + 1 == self.current_scale as u128 {
            let dp = w_mul(U256::from_u128(initial_deposit), U256::from_u128(self.p_system));
            let dp = match dp {
                Ok(v) => v,
                Err(e) => {
                    proof {
                        assert(initial_deposit * self.p_system < b256()) by (nonlinear_arith)
                            requires initial_deposit < crate::u256::b128(), self.p_system < crate::u256::b128();
                    }
                    return Err(e);
                },
            };
            let q = w_div(dp, snap.p)?;
            if snap.scale == self.current_scale {
                narrow(q)
            } else {
                let q2 = w_div(q, SCALE_FACTOR)?;
                narrow(q2)
            }
        } else {
            Ok(0)
        }
    }

    /// G of the current scale advanced to `now_s` seconds.
    pub fn _get_current_g_til_last_gbn(&self, now_s: u64) -> (r: Result<U256, ContractError>)
        ensures
            match r {
                Ok(v) => current_g_spec(*self, now_s as int) == Some(v@),
                Err(_) => current_g_spec(*self, now_s as int) is None,
            },
    {
        let g = self.g_at(self.current_epoch, self.current_scale)?;
        if self.total_usdo_deposits == 0 {
            return Ok(g.g_system);
        }
        let delta = match now_s.checked_sub(g.g_block_num) {
            Some(d) => d,
            None => return Err(ContractError::SubOverflow),
        };
        let a = w_mul(U256::from_u128(delta as u128), U256::from_u128(self.reward_speed_sp));
        let a = match a {
            Ok(v) => v,
            Err(e) => {
                proof {
                    assert(delta * self.reward_speed_sp < b256()) by (nonlinear_arith)
                        requires delta < crate::u256::b128(), self.reward_speed_sp < crate::u256::b128();
                }
                return Err(e);
            },
        };
        let b = w_mul(a, U256::from_u128(self.p_system))?;
        let c = w_div(b, self.total_usdo_deposits)?;
        w_add(g.g_system, c)
    }

    /// The current scale's G record advanced to `now_s` seconds.
    pub fn get_new_scale_to_g(&self, now_s: u64) -> (r: Result<SystemG, ContractError>)
        ensures
            match r {
                Ok(v) => new_scale_g_spec(*self, now_s as int) == Some(v),
                Err(_) => new_scale_g_spec(*self, now_s as int) is None,
            },
    {
        let g = self.g_at(self.current_epoch, self.current_scale)?;
        if g.g_block_num == 0 {
            let z = U256::zero();
            proof { lemma_canonical(z); }
            return Ok(SystemG { g_block_num: now_s, g_system: z });
        }
        if self.total_usdo_deposits == 0 {
            return Ok(SystemG { g_block_num: now_s, g_system: g.g_system });
        }
        let delta = match now_s.checked_sub(g.g_block_num) {
            Some(d) => d,
            None => return Err(ContractError::SubOverflow),
        };
        let a = c_mul(delta as u128, self.reward_speed_sp)?;
        let b = w_mul(U256::from_u128(a), U256::from_u128(self.p_system));
        let b = match b {
            Ok(v) => v,
            Err(e) => {
                proof {
                    assert(a * self.p_system < b256()) by (nonlinear_arith)
                        requires a < crate::u256::b128(), self.p_system < crate::u256::b128();
                }
                return Err(e);
            },
        };
        let c = w_div(b, self.total_usdo_deposits)?;
        let v = w_add(g.g_system, c)?;
        proof { lemma_canonical(v); }
        Ok(SystemG { g_block_num: now_s, g_system: v })
    }

    /// Stores the current scale's G record advanced to `now_s` seconds.
    pub fn _update_epoch_to_scale_to_g(&mut self, now_s: u64) -> (r: Result<(), ContractError>)
        ensures
            current_sum_kept(*old(self)) ==> current_sum_kept(*final(self)),
            ({
                let e = old(self).current_epoch as int;
                let s = old(self).current_scale as int;
                &&& r is Ok <==> new_scale_g_spec(*old(self), now_s as int) is Some
                &&& r is Ok ==> g_rows(*final(self))
                    == put(g_rows(*old(self)), e, s, new_scale_g_spec(*old(self), now_s as int)->0)
                &&& r is Err ==> *final(self) == *old(self)
            }),
            *final(self) == (StablePool { epoch_to_scale_to_g: final(self).epoch_to_scale_to_g, ..*old(self) }),
    {
        let g = self.get_new_scale_to_g(now_s)?;
        let e = self.current_epoch;
        let s = self.current_scale;
        let r = self.put_g(e, s, g);
        r
    }
}

/// The table with `row` as the row of `epoch`, replacing it or appending it.
pub open spec fn put_row<T>(t: Seq<Seq<T>>, epoch: int, row: Seq<T>) -> Seq<Seq<T>> {
    if epoch < t.len() { t.update(epoch, row) } else { t.push(row) }
}

/// Collateral numerator of an offset: `coll` scaled up, plus the remainder
/// carried from the last offset.
pub open spec fn near_numerator(sp: StablePool, coll: int) -> int {
    coll * DECIMAL_PRECISION + sp.last_near_error_offset
}

/// Debt numerator of an offset of `debt`, less the carried remainder.
pub open spec fn loss_numerator(sp: StablePool, debt: int) -> int {
    debt * DECIMAL_PRECISION - sp.last_usdo_loss_error_offset
}

/// Whether an offset of `debt` against `coll` over `total` deposits can be
/// computed.
pub open spec fn per_unit_ok(sp: StablePool, coll: int, debt: int, total: int) -> bool {
    &&& total > 0
    &&& debt != total ==> {
        &&& loss_numerator(sp, debt) >= 0
        &&& fits(loss_numerator(sp, debt) / total + 1)
    }
}

/// Loss per unit deposited, scaled by `DECIMAL_PRECISION`; rounded up.
pub open spec fn loss_per_unit(sp: StablePool, debt: int, total: int) -> int {
    if debt == total { DECIMAL_PRECISION as int } else { loss_numerator(sp, debt) / total + 1 }
}

/// Floor division facts used by the offset arithmetic.
proof fn lemma_div_facts(n: int, t: int)
    requires
        n >= 0,
        t > 0,
    ensures
        0 <= n / t <= n,
        (n / t) * t <= n,
        n - (n / t) * t == n % t,
        0 <= n % t < t,
        (n / t + 1) * t > n,
        (n / t + 1) * t - n <= t,
{
    vstd::arithmetic::div_mod::lemma_fundamental_div_mod(n, t);
    vstd::arithmetic::div_mod::lemma_mod_bound(n, t);
    vstd::arithmetic::div_mod::lemma_div_is_ordered_by_denominator(n, 1, t);
    assert((n / t) * t == t * (n / t)) by (nonlinear_arith);
    assert((n / t + 1) * t == t * (n / t) + t) by (nonlinear_arith);
}

impl StablePool {
    /// Replaces or appends the sums row of `epoch`.
    fn put_sum_row(&mut self, epoch: u128, row: Vec<U256>) -> (r: Result<(), ContractError>)
        ensures
            current_sum_kept(*old(self)) && epoch != old(self).current_epoch ==> current_sum_kept(*final(self)),
            r is Err ==> *final(self) == *old(self),
            r is Ok <==> epoch <= sum_rows(*old(self)).len(),
            r is Ok ==> sum_rows(*final(self)) == put_row(sum_rows(*old(self)), epoch as int, row@),
            r is Err ==> r == Err::<(), ContractError>(ContractError::NotLegalGet),
            *final(self) == (StablePool { epoch_to_scale_to_sum: final(self).epoch_to_scale_to_sum, ..*old(self) }),
    {
        let len = self.epoch_to_scale_to_sum.len();
        if epoch > len as u128 {
            return Err(ContractError::NotLegalGet);
        }
        let ghost t0 = sum_rows(*self);
        if epoch < len as u128 {
            self.epoch_to_scale_to_sum.set(epoch as usize, row);
        } else {
            self.epoch_to_scale_to_sum.push(row);
        }
        proof {
            assert(sum_rows(*self) =~= put_row(t0, epoch as int, row@));
        }
        Ok(())
    }

    /// Replaces or appends the G row of `epoch`.
    fn put_g_row(&mut self, epoch: u128, row: Vec<SystemG>) -> (r: Result<(), ContractError>)
        ensures
            current_sum_kept(*old(self)) ==> current_sum_kept(*final(self)),
            r is Ok <==> epoch <= g_rows(*old(self)).len(),
            r is Ok ==> g_rows(*final(self)) == put_row(g_rows(*old(self)), epoch as int, row@),
            r is Err ==> r == Err::<(), ContractError>(ContractError::NotLegalGet),
            *final(self) == (StablePool { epoch_to_scale_to_g: final(self).epoch_to_scale_to_g, ..*old(self) }),
    {
        let len = self.epoch_to_scale_to_g.len();
        if epoch > len as u128 {
            return Err(ContractError::NotLegalGet);
        }
        let ghost t0 = g_rows(*self);
        if epoch < len as u128 {
            self.epoch_to_scale_to_g.set(epoch as usize, row);
        } else {
            self.epoch_to_scale_to_g.push(row);
        }
        proof {
            assert(g_rows(*self) =~= put_row(t0, epoch as int, row@));
        }
        Ok(())
    }

    /// Collateral gain and debt loss per unit deposited when `debt` of
    /// `total` deposits is offset against `coll`. Both remainders are
    /// carried to the next offset.
    pub fn _compute_rewards_per_unit_staked(&mut self, coll: u128, debt: u128, total: u128)
        -> (r: Result<(U256, u128), ContractError>)
        ensures
            current_sum_kept(*old(self)) ==> current_sum_kept(*final(self)),
            final(self).depositors == old(self).depositors,
            r is Ok <==> per_unit_ok(*old(self), coll as int, debt as int, total as int),
            r is Err ==> arithmetic_error(r->Err_0),
            r is Ok ==> {
                let num = near_numerator(*old(self), coll as int);
                let loss = loss_per_unit(*old(self), debt as int, total as int);
                &&& (r->Ok_0).0@ == num / total as int
                &&& (r->Ok_0).1 == loss
                &&& final(self).last_near_error_offset == num % total as int
                &&& final(self).last_usdo_loss_error_offset
                    == if debt == total { 0 } else { loss * total - loss_numerator(*old(self), debt as int) }
                &&& *final(self) == (StablePool {
                    last_near_error_offset: final(self).last_near_error_offset,
                    last_usdo_loss_error_offset: final(self).last_usdo_loss_error_offset,
                    ..*old(self)
                })
            },
    {
        let ghost s0 = *self;
        let cd = wide_mul(coll, DECIMAL_PRECISION);
        let near_num = match w_add(cd, U256::from_u128(self.last_near_error_offset)) {
            Ok(v) => v,
            Err(e) => {
                proof {
                    assert(coll * DECIMAL_PRECISION + self.last_near_error_offset < b256()) by (nonlinear_arith)
                        requires coll < crate::u256::b128(), self.last_near_error_offset < crate::u256::b128(),
                            DECIMAL_PRECISION < crate::u256::b128();
                }
                return Err(e);
            },
        };
        let loss: u128;
        if debt == total {
            self.last_usdo_loss_error_offset = 0;
            loss = DECIMAL_PRECISION;
        } else {
            let dd = wide_mul(debt, DECIMAL_PRECISION);
            let num = match dd.checked_sub(U256::from_u128(self.last_usdo_loss_error_offset)) {
                Some(v) => v,
                None => return Err(ContractError::SubOverflow),
            };
            let q = w_div(num, total)?;
            let q1 = match w_add(q, U256::from_u128(1)) {
                Ok(v) => v,
                Err(e) => {
                    proof {
                        lemma_div_facts(num@ as int, total as int);
                        assert(debt * DECIMAL_PRECISION < b256() - 1) by (nonlinear_arith)
                            requires debt < crate::u256::b128(), DECIMAL_PRECISION < crate::u256::b128();
                    }
                    return Err(e);
                },
            };
            loss = narrow(q1)?;
            let lt = wide_mul(loss, total);
            let off = match lt.checked_sub(num) {
                Some(v) => v,
                None => {
                    proof { lemma_div_facts(num@ as int, total as int); }
                    return Err(ContractError::Overflow);
                },
            };
            proof { lemma_div_facts(num@ as int, total as int); }
            self.last_usdo_loss_error_offset = narrow(off)?;
        }
        let gain = w_div(near_num, total)?;
        let back = match w_mul(gain, U256::from_u128(total)) {
            Ok(v) => v,
            Err(e) => {
                proof {
                    lemma_div_facts(near_num@ as int, total as int);
                    crate::u256::lemma_view_bound(near_num);
                }
                return Err(e);
            },
        };
        let rest = match near_num.checked_sub(back) {
            Some(v) => v,
            None => {
                proof { lemma_div_facts(near_num@ as int, total as int); }
                return Err(ContractError::Overflow);
            },
        };
        proof { lemma_div_facts(near_num@ as int, total as int); }
        self.last_near_error_offset = narrow(rest)?;
        Ok((gain, loss))
    }
}

/// The current scale's sum S after adding `gain` per unit at product P.
pub open spec fn new_sum_spec(sp: StablePool, gain: nat) -> Option<nat> {
    match sum_entry(sp, sp.current_epoch as int, sp.current_scale as int) {
        None => None,
        Some(cur) => if gain * sp.p_system >= b256() {
            None
        } else {
            let v = cur@ + gain * sp.p_system / DECIMAL_PRECISION as int;
            if v >= b256() { None } else { Some(v as nat) }
        },
    }
}

/// A product `p` shrunk by `factor` falls below `SCALE_FACTOR` and must be
/// rescaled.
pub open spec fn rescales(p: int, factor: int) -> bool {
    factor != 0 && p * factor / (DECIMAL_PRECISION as int) < SCALE_FACTOR
}

/// Whether S and P can take an offset of `gain` collateral and `loss` debt
/// per unit at `now_s` seconds.
pub open spec fn sum_product_ok(sp: StablePool, gain: nat, loss: int, now_s: int) -> bool {
    let e = sp.current_epoch as int;
    let s = sp.current_scale as int;
    let factor = DECIMAL_PRECISION - loss;
    &&& loss <= DECIMAL_PRECISION
    &&& new_sum_spec(sp, gain) is Some
    &&& factor == 0 ==> {
        &&& new_scale_g_spec(sp, now_s) is Some
        &&& fits(e + 1)
        &&& e + 1 <= sum_rows(sp).len()
        &&& e + 1 <= g_rows(sp).len()
    }
    &&& rescales(sp.p_system as int, factor) ==> {
        &&& new_scale_g_spec(sp, now_s) is Some
        &&& s + 1 <= u64::MAX
        &&& can_put(g_rows(sp), e, s + 1)
        &&& can_put(sum_rows(sp), e, s + 1)
    }
}

/// The sums S after an offset of `gain` and `loss` per unit.
pub open spec fn sums_after(sp: StablePool, gain: nat, loss: int) -> Seq<Seq<U256>> {
    let e = sp.current_epoch as int;
    let s = sp.current_scale as int;
    let factor = DECIMAL_PRECISION - loss;
    let t1 = put(sum_rows(sp), e, s, u256_of(new_sum_spec(sp, gain)->0));
    if factor == 0 {
        put_row(t1, e + 1, seq![u256_of(0)])
    } else if rescales(sp.p_system as int, factor) {
        put(t1, e, s + 1, u256_of(0))
    } else {
        t1
    }
}

/// The G records after an offset with `loss` per unit at `now_s` seconds.
pub open spec fn gs_after(sp: StablePool, loss: int, now_s: int) -> Seq<Seq<SystemG>> {
    let e = sp.current_epoch as int;
    let s = sp.current_scale as int;
    let factor = DECIMAL_PRECISION - loss;
    let g1 = put(g_rows(sp), e, s, new_scale_g_spec(sp, now_s)->0);
    if factor == 0 {
        put_row(g1, e + 1, seq![SystemG { g_block_num: 0, g_system: u256_of(0) }])
    } else if rescales(sp.p_system as int, factor) {
        put(g1, e, s + 1, SystemG { g_block_num: now_s as u64, g_system: u256_of(0) })
    } else {
        g_rows(sp)
    }
}

/// The product P after an offset with `loss` per unit.
pub open spec fn p_after(sp: StablePool, loss: int) -> int {
    let p = sp.p_system as int;
    let factor = DECIMAL_PRECISION - loss;
    if factor == 0 {
        DECIMAL_PRECISION as int
    } else if rescales(p, factor) {
        p * factor * SCALE_FACTOR / DECIMAL_PRECISION as int
    } else {
        p * factor / DECIMAL_PRECISION as int
    }
}

/// The epoch after an offset with `loss` per unit.
pub open spec fn epoch_after(sp: StablePool, loss: int) -> int {
    if loss == DECIMAL_PRECISION { sp.current_epoch + 1 } else { sp.current_epoch as int }
}

/// The scale after an offset with `loss` per unit.
pub open spec fn scale_after(sp: StablePool, loss: int) -> int {
    let factor = DECIMAL_PRECISION - loss;
    if factor == 0 {
        0
    } else if rescales(sp.p_system as int, factor) {
        sp.current_scale + 1
    } else {
        sp.current_scale as int
    }
}

impl StablePool {
    /// Adds the collateral gain `gain` per unit to S and applies the loss
    /// `loss` per unit to P. An emptied pool starts a new epoch; a product
    /// that gets below `SCALE_FACTOR` is rescaled into a new scale. Both
    /// first close the current scale's G at `now_s` seconds.
    pub fn _update_reward_sum_and_product(&mut self, gain: U256, loss: u128, now_s: u64)
        -> (r: Result<(), ContractError>)
        ensures
            current_sum_kept(*old(self)) ==> current_sum_kept(*final(self)),
            final(self).depositors == old(self).depositors,
            r is Ok <==> sum_product_ok(*old(self), gain@, loss as int, now_s as int),
            r is Ok ==> {
                &&& sum_rows(*final(self)) == sums_after(*old(self), gain@, loss as int)
                &&& g_rows(*final(self)) == gs_after(*old(self), loss as int, now_s as int)
                &&& final(self).p_system == p_after(*old(self), loss as int)
                &&& final(self).current_epoch == epoch_after(*old(self), loss as int)
                &&& final(self).current_scale == scale_after(*old(self), loss as int)
                &&& *final(self) == (StablePool {
                    epoch_to_scale_to_sum: final(self).epoch_to_scale_to_sum,
                    epoch_to_scale_to_g: final(self).epoch_to_scale_to_g,
                    p_system: final(self).p_system,
                    current_scale: final(self).current_scale,
                    current_epoch: final(self).current_epoch,
                    ..*old(self)
                })
            },
    {
        if loss > DECIMAL_PRECISION {
            return Err(ContractError::LossAboveOne);
        }
        let ghost s0 = *self;
        let current_p = self.p_system;
        let factor = DECIMAL_PRECISION - loss;
        let e = self.current_epoch;
        let s = self.current_scale;
        let cur = self.sum_at(e, s)?;
        let m = match gain.checked_mul(U256::from_u128(current_p)) {
            Some(v) => v,
            None => return Err(ContractError::MulOverflow),
        };
        let m = w_div(m, DECIMAL_PRECISION)?;
        let new_s = w_add(cur, m)?;
        proof { lemma_canonical(new_s); }
        self.put_sum(e, s, new_s)?;
        let ghost s1 = *self;
        assert(new_scale_g_spec(s1, now_s as int) == new_scale_g_spec(s0, now_s as int));
        let pf = wide_mul(current_p, factor);
        let small = w_div(pf, DECIMAL_PRECISION)?;
        let new_p: u128;
        if factor == 0 {
            self._update_epoch_to_scale_to_g(now_s)?;
            let next = match e.checked_add(1) {
                Some(n) => n,
                None => return Err(ContractError::AddOverflow),
            };
            self.current_epoch = next;
            self.current_scale = 0;
            let z = U256::zero();
            proof { lemma_canonical(z); }
            let mut grow: Vec<SystemG> = Vec::new();
            grow.push(SystemG { g_system: z, g_block_num: 0 });
            self.put_g_row(next, grow)?;
            let mut srow: Vec<U256> = Vec::new();
            srow.push(z);
            self.put_sum_row(next, srow)?;
            proof {
                assert(grow@ =~= seq![SystemG { g_block_num: 0, g_system: u256_of(0) }]);
                assert(srow@ =~= seq![u256_of(0)]);
            }
            new_p = DECIMAL_PRECISION;
        } else if small.hi == 0 && small.lo < SCALE_FACTOR {
            let pfs = match w_mul(pf, U256::from_u128(SCALE_FACTOR)) {
                Ok(v) => v,
                Err(err) => {
                    proof {
                        assert(current_p * factor * SCALE_FACTOR < b256()) by (nonlinear_arith)
                            requires current_p < crate::u256::b128(), factor <= DECIMAL_PRECISION;
                    }
                    return Err(err);
                },
            };
            let q = w_div(pfs, DECIMAL_PRECISION)?;
            new_p = narrow(q)?;
            self._update_epoch_to_scale_to_g(now_s)?;
            let next = match s.checked_add(1) {
                Some(n) => n,
                None => return Err(ContractError::AddOverflow),
            };
            self.current_scale = next;
            let z = U256::zero();
            proof { lemma_canonical(z); }
            self.put_g(e, next, SystemG { g_system: z, g_block_num: now_s })?;
            self.put_sum(e, next, z)?;
        } else {
            proof {
                assert(current_p * factor <= current_p * DECIMAL_PRECISION) by (nonlinear_arith)
                    requires factor <= DECIMAL_PRECISION;
                vstd::arithmetic::div_mod::lemma_div_is_ordered(
                    current_p * factor, current_p * DECIMAL_PRECISION, DECIMAL_PRECISION as int);
                vstd::arithmetic::div_mod::lemma_div_by_multiple(current_p as int, DECIMAL_PRECISION as int);
            }
            let q = narrow(small)?;
            new_p = q;
        }
        self.p_system = new_p;
        Ok(())
    }
}

/// `snap` moved to the current product, epoch, scale and sum S.
pub open spec fn with_s_p(sp: StablePool, snap: Snapshots) -> Option<Snapshots> {
    match sum_entry(sp, sp.current_epoch as int, sp.current_scale as int) {
        None => None,
        Some(v) => Some(Snapshots {
            p: sp.p_system,
            epoch: sp.current_epoch,
            s: v,
            scale: sp.current_scale,
            ..snap
        }),
    }
}

/// `snap` moved to the current scale's sum G.
pub open spec fn with_g(sp: StablePool, snap: Snapshots) -> Option<Snapshots> {
    match g_entry(sp, sp.current_epoch as int, sp.current_scale as int) {
        None => None,
        Some(g) => Some(Snapshots { g: g.g_system, ..snap }),
    }
}

/// Both snapshots updates, G first.
pub open spec fn refreshed(sp: StablePool, snap: Snapshots) -> Option<Snapshots> {
    match with_g(sp, snap) {
        None => None,
        Some(s1) => with_s_p(sp, s1),
    }
}

/// The current worth of `account`'s deposit; 0 for an unknown account.
pub open spec fn compounded_of(sp: StablePool, account: Seq<char>) -> Option<int> {
    if sp.depositors.map().dom().contains(account) {
        let d = sp.depositors.map()[account];
        compounded_spec(sp, d.deposit as int, d.snapshot)
    } else {
        Some(0)
    }
}

/// Collateral earned since `snap` by a deposit of `d`: the growth of S in
/// the snapshot's scale plus the next scale's S scaled down.
pub open spec fn near_gain_spec(sp: StablePool, d: int, snap: Snapshots) -> Option<int> {
    match sum_entry(sp, snap.epoch as int, snap.scale as int) {
        None => None,
        Some(cur) => {
            let first = cur@ - snap.s@;
            if first < 0 || snap.scale + 1 > u64::MAX {
                None
            } else {
                let second: int = match sum_entry(sp, snap.epoch as int, snap.scale + 1) {
                    Some(n) => (n@ as int) / (SCALE_FACTOR as int),
                    None => 0,
                };
                let both = first + second;
                if both >= b256() || d * both >= b256() {
                    None
                } else {
                    div_fit(d * both, snap.p as int)
                }
            }
        },
    }
}

/// Collateral `account` may claim: its earned gain plus what is left
/// unpaid; 0 for an empty deposit.
pub open spec fn depositor_near_gain(sp: StablePool, account: Seq<char>) -> Option<int> {
    if !sp.depositors.map().dom().contains(account) {
        None
    } else {
        let d = sp.depositors.map()[account];
        if d.deposit == 0 {
            Some(0)
        } else {
            match near_gain_spec(sp, d.deposit as int, d.snapshot) {
                None => None,
                Some(g) => if fits(g + d.dis_reward) { Some(g + d.dis_reward) } else { None },
            }
        }
    }
}

/// The step `x * y / z` on 256 bits.
pub open spec fn mul_div_256(x: int, y: int, z: int) -> Option<int> {
    if x * y >= b256() || z <= 0 { None } else { Some(x * y / z) }
}

/// Mining reward a depositor `d` earned in `scale` of its snapshot's
/// epoch: G of that scale (advanced to `now_s` when it is the current
/// scale) less G at the snapshot, times the deposit, over the snapshot's P.
pub open spec fn scale_block_gain_spec(sp: StablePool, d: Depositor, scale: int, now_s: int) -> Option<int> {
    let snap = d.snapshot;
    let dt = d.deposit as int;
    let pt = snap.p as int;
    match g_entry(sp, snap.epoch as int, scale) {
        None => None,
        Some(g) => match mul_div_256(g.g_system@ as int, dt, pt) {
            None => None,
            Some(second) => if scale > sp.current_scale || scale < snap.scale {
                None
            } else {
                let third: Option<int> = if scale == snap.scale { mul_div_256(snap.g@ as int, dt, pt) } else { Some(0) };
                let delta = now_s - g.g_block_num;
                let a = delta * sp.reward_speed_sp;
                let first: Option<int> = if scale == sp.current_scale {
                    if delta < 0 || !fits(a) || a * dt >= b256() {
                        None
                    } else {
                        match mul_div_256(a * dt, sp.p_system as int, sp.total_usdo_deposits as int) {
                            None => None,
                            Some(x) => if pt == 0 { None } else { Some(x / pt) },
                        }
                    }
                } else {
                    Some(0)
                };
                match (first, third) {
                    (Some(f), Some(t)) => {
                        let res = f + second - t;
                        if f + second >= b256() || res < 0 || !fits(res) { None } else { Some(res) }
                    },
                    _ => None,
                }
            },
        },
    }
}

/// Mining reward `account` may claim at `now_s` seconds, unpaid reward
/// included.
pub open spec fn near_block_gain_spec(sp: StablePool, account: Seq<char>, now_s: int) -> Option<int> {
    if !sp.depositors.map().dom().contains(account) {
        None
    } else {
        let d = sp.depositors.map()[account];
        let snap = d.snapshot;
        let dt = d.deposit as int;
        let pt = snap.p as int;
        if sp.total_usdo_deposits == 0 && snap.epoch == sp.current_epoch {
            Some(d.min_reward as int)
        } else if snap.epoch < sp.current_epoch {
            match g_entry(sp, snap.epoch as int, snap.scale as int) {
                None => None,
                Some(g1) => {
                    let grow = g1.g_system@ - snap.g@;
                    if grow < 0 || snap.scale + 1 > u64::MAX {
                        None
                    } else {
                        match mul_div_256(grow, dt, pt) {
                            None => None,
                            Some(first) => {
                                let second: Option<int> = match g_entry(sp, snap.epoch as int, snap.scale + 1) {
                                    None => Some(0),
                                    Some(g2) => match mul_div_256(g2.g_system@ as int, dt, pt) {
                                        None => None,
                                        Some(x) => Some(x / SCALE_FACTOR as int),
                                    },
                                };
                                match second {
                                    None => None,
                                    Some(sec) => if !fits(first) || !fits(sec) || !fits(first + sec)
                                        || !fits(first + sec + d.min_reward) {
                                        None
                                    } else {
                                        Some(first + sec + d.min_reward)
                                    },
                                }
                            },
                        }
                    }
                },
            }
        } else {
            match scale_block_gain_spec(sp, d, snap.scale as int, now_s) {
                None => None,
                Some(one) => {
                    let two: Option<int> = if snap.scale < sp.current_scale {
                        match scale_block_gain_spec(sp, d, snap.scale + 1, now_s) {
                            None => None,
                            Some(x) => Some(x / SCALE_FACTOR as int),
                        }
                    } else {
                        Some(0)
                    };
                    match two {
                        None => None,
                        Some(t) => if !fits(one + t) || !fits(one + t + d.min_reward) {
                            None
                        } else {
                            Some(one + t + d.min_reward)
                        },
                    }
                },
            }
        }
    }
}

impl StablePool {
    /// `snap` moved to the current product, epoch, scale and sum S.
    pub fn _updated_depositor_s_p(&self, snap: Snapshots) -> (r: Result<Snapshots, ContractError>)
        ensures
            match r {
                Ok(v) => with_s_p(*self, snap) == Some(v),
                Err(e) => with_s_p(*self, snap) is None && e == ContractError::NotLegalGet,
            },
    {
        let s = self.sum_at(self.current_epoch, self.current_scale)?;
        Ok(Snapshots { p: self.p_system, epoch: self.current_epoch, s, scale: self.current_scale, ..snap })
    }

    /// `snap` moved to the current scale's sum G.
    pub fn _update_depositor_g_p(&self, snap: Snapshots) -> (r: Result<Snapshots, ContractError>)
        ensures
            match r {
                Ok(v) => with_g(*self, snap) == Some(v),
                Err(e) => with_g(*self, snap) is None && e == ContractError::NotLegalGet,
            },
    {
        let g = self.g_at(self.current_epoch, self.current_scale)?;
        Ok(Snapshots { g: g.g_system, ..snap })
    }

    /// Sets `account`'s deposit to `amount` and moves its snapshot to the
    /// current sums and product.
    pub fn _update_deposit_and_snapshots(&mut self, account: &String, amount: u128) -> (r: Result<(), ContractError>)
        requires
            old(self).depositors.wf(),
        ensures
            current_sum_kept(*old(self)) ==> current_sum_kept(*final(self)),
            final(self).depositors.wf(),
            ({
                let dm = old(self).depositors.map();
                &&& r is Ok <==> dm.dom().contains(account@) && refreshed(*old(self), dm[account@].snapshot) is Some
                &&& r is Err ==> r == Err::<(), ContractError>(ContractError::NotLegalGet)
                &&& r is Ok ==> final(self).depositors.map() == dm.insert(account@, Depositor {
                    deposit: amount,
                    snapshot: refreshed(*old(self), dm[account@].snapshot)->0,
                    ..dm[account@]
                })
            }),
            *final(self) == (StablePool { depositors: final(self).depositors, ..*old(self) }),
    {
        let d = match self.depositors.get(account) {
            Some(d) => d,
            None => return Err(ContractError::NotLegalGet),
        };
        let s1 = self._update_depositor_g_p(d.snapshot)?;
        let s2 = self._updated_depositor_s_p(s1)?;
        self.depositors.insert(account.clone(), Depositor { deposit: amount, snapshot: s2, ..d });
        Ok(())
    }

    /// The current worth of `account`'s deposit; 0 for an unknown account.
    pub fn _get_compounded_usdo_deposit(&self, account: &String) -> (r: Result<u128, ContractError>)
        requires
            self.depositors.wf(),
        ensures
            match r {
                Ok(v) => compounded_of(*self, account@) == Some(v as int),
                Err(_) => compounded_of(*self, account@) is None,
            },
    {
        match self.depositors.get(account) {
            Some(d) => self._get_compounded_stake_from_snapshots(d.deposit, d.snapshot),
            None => Ok(0),
        }
    }

    /// Collateral earned since `snap` by a deposit of `initial_deposit`.
    pub fn _get_near_gain_from_snapshots(&self, initial_deposit: u128, snap: Snapshots) -> (r: Result<u128, ContractError>)
        ensures
            match r {
                Ok(v) => near_gain_spec(*self, initial_deposit as int, snap) == Some(v as int),
                Err(_) => near_gain_spec(*self, initial_deposit as int, snap) is None,
            },
    {
        let cur = self.sum_at(snap.epoch, snap.scale)?;
        let first = match cur.checked_sub(snap.s) {
            Some(v) => v,
            None => return Err(ContractError::SubOverflow),
        };
        let next_scale = match snap.scale.checked_add(1) {
            Some(n) => n,
            None => return Err(ContractError::AddOverflow),
        };
        let second = match self.sum_at(snap.epoch, next_scale) {
            Ok(n) => w_div(n, SCALE_FACTOR)?,
            Err(_) => U256::zero(),
        };
        let both = w_add(first, second)?;
        let prod = w_mul(U256::from_u128(initial_deposit), both)?;
        let q = w_div(prod, snap.p)?;
        narrow(q)
    }

    /// Collateral `account` may claim.
    pub fn get_depositor_near_gain(&self, account: &String) -> (r: Result<u128, ContractError>)
        requires
            self.depositors.wf(),
        ensures
            match r {
                Ok(v) => depositor_near_gain(*self, account@) == Some(v as int),
                Err(_) => depositor_near_gain(*self, account@) is None,
            },
            !self.depositors.map().dom().contains(account@)
                ==> r == Err::<u128, ContractError>(ContractError::NotRegister),
    {
        let d = match self.depositors.get(account) {
            Some(d) => d,
            None => return Err(ContractError::NotRegister),
        };
        if d.deposit == 0 {
            return Ok(0);
        }
        let g = self._get_near_gain_from_snapshots(d.deposit, d.snapshot)?;
        match g.checked_add(d.dis_reward) {
            Some(v) => Ok(v),
            None => Err(ContractError::AddOverflow),
        }
    }
}

/// `account`'s record after a claim refreshed it at `now_s` seconds: its
/// deposit compounded, its snapshot moved to the current sums and to G
/// advanced to `now_s`.
pub open spec fn claim_refreshed(sp: StablePool, account: Seq<char>, now_s: int) -> Option<Depositor> {
    if !sp.depositors.map().dom().contains(account) {
        None
    } else {
        let d = sp.depositors.map()[account];
        match (current_g_spec(sp, now_s), compounded_of(sp, account)) {
            (Some(g), Some(c)) => match with_s_p(sp, Snapshots { g: u256_of(g), ..d.snapshot }) {
                None => None,
                Some(snap) => Some(Depositor { deposit: c as u128, snapshot: snap, ..d }),
            },
            _ => None,
        }
    }
}

/// Part of a mining reward `gain` the pool's reward balance `pool` pays.
pub open spec fn payable(pool: int, gain: int) -> int {
    if pool > gain { gain } else { pool }
}

/// Whether `account` can claim at `now_s` seconds.
pub open spec fn claim_ok(sp: StablePool, account: Seq<char>, now_s: int) -> bool {
    &&& depositor_near_gain(sp, account) is Some
    &&& near_block_gain_spec(sp, account, now_s) is Some
    &&& claim_refreshed(sp, account, now_s) is Some
    &&& depositor_near_gain(sp, account)->0 <= sp.total_token_sp
}

/// `account`'s record after a claim at `now_s` seconds: the unpaid mining
/// reward is what the pool could not pay, the collateral gain is paid.
pub open spec fn claimed(sp: StablePool, account: Seq<char>, now_s: int) -> Depositor {
    let d = claim_refreshed(sp, account, now_s)->0;
    let ng = depositor_near_gain(sp, account)->0;
    let bg = near_block_gain_spec(sp, account, now_s)->0;
    Depositor {
        min_reward: (bg - payable(sp.reward_sp as int, bg)) as u128,
        dis_reward: if ng > 0 { 0 } else { d.dis_reward },
        ..d
    }
}

/// A transfer of `amount` of `token` to `receiver` settled by the callback
/// for claimed mining rewards.
pub open spec fn is_min_transfer(t: Transfer, receiver: Seq<char>, amount: int, near_gain: int) -> bool {
    &&& t.token_contract@ == ST_OIN@
    &&& t.receiver_id@ == receiver
    &&& t.amount == amount
    &&& t.callback matches Callback::OnClaimMinReward { claimer, token_to_claim, depositor_near_gain }
        && claimer@ == receiver && token_to_claim == amount && depositor_near_gain == near_gain
}

/// A transfer of collateral gain `amount` to `receiver`.
pub open spec fn is_dis_transfer(t: Transfer, receiver: Seq<char>, amount: int) -> bool {
    &&& t.token_contract@ == ST_NEAR@
    &&& t.receiver_id@ == receiver
    &&& t.amount == amount
    &&& t.callback matches Callback::OnClaimDisReward { claimer, amount: a } && claimer@ == receiver && a == amount
}

impl StablePool {
    /// Mining reward `account`'s deposit earned in `scale` of its snapshot's
    /// epoch, up to `now_s` seconds.
    pub fn _get_scale_block_gain(&self, account: &String, scale: u64, now_s: u64) -> (r: Result<u128, ContractError>)
        requires
            self.depositors.wf(),
        ensures
            match r {
                Ok(v) => self.depositors.map().dom().contains(account@)
                    && scale_block_gain_spec(*self, self.depositors.map()[account@], scale as int, now_s as int) == Some(v as int),
                Err(_) => !self.depositors.map().dom().contains(account@)
                    || scale_block_gain_spec(*self, self.depositors.map()[account@], scale as int, now_s as int) is None,
            },
    {
        let d = match self.depositors.get(account) {
            Some(d) => d,
            None => return Err(ContractError::NotLegalGet),
        };
        let snap = d.snapshot;
        let g = self.g_at(snap.epoch, scale)?;
        let dt = U256::from_u128(d.deposit);
        let second = w_div(w_mul(g.g_system, dt)?, snap.p)?;
        if scale > self.current_scale || scale < snap.scale {
            return Err(ContractError::Overflow);
        }
        let third = if scale == snap.scale {
            w_div(w_mul(snap.g, dt)?, snap.p)?
        } else {
            U256::zero()
        };
        let first = if scale == self.current_scale {
            let delta = match (now_s as u128).checked_sub(g.g_block_num as u128) {
                Some(v) => v,
                None => return Err(ContractError::SubOverflow),
            };
            let a = c_mul(delta, self.reward_speed_sp)?;
            let x = w_mul(U256::from_u128(a), dt)?;
            let x = w_mul(x, U256::from_u128(self.p_system))?;
            let x = w_div(x, self.total_usdo_deposits)?;
            w_div(x, snap.p)?
        } else {
            U256::zero()
        };
        let sum = w_add(first, second)?;
        let res = match sum.checked_sub(third) {
            Some(v) => v,
            None => return Err(ContractError::SubOverflow),
        };
        narrow(res)
    }

    /// Mining reward `account` may claim at `now_s` seconds.
    pub fn _get_near_block_gain_from_snapshots(&self, account: &String, now_s: u64) -> (r: Result<u128, ContractError>)
        requires
            self.depositors.wf(),
        ensures
            match r {
                Ok(v) => near_block_gain_spec(*self, account@, now_s as int) == Some(v as int),
                Err(_) => near_block_gain_spec(*self, account@, now_s as int) is None,
            },
    {
        let d = match self.depositors.get(account) {
            Some(d) => d,
            None => return Err(ContractError::NotLegalGet),
        };
        let snap = d.snapshot;
        let dt = U256::from_u128(d.deposit);
        if self.total_usdo_deposits == 0 && snap.epoch == self.current_epoch {
            return Ok(d.min_reward);
        }
        if snap.epoch < self.current_epoch {
            let g1 = self.g_at(snap.epoch, snap.scale)?;
            let grow = match g1.g_system.checked_sub(snap.g) {
                Some(v) => v,
                None => return Err(ContractError::SubOverflow),
            };
            let next = match snap.scale.checked_add(1) {
                Some(n) => n,
                None => return Err(ContractError::AddOverflow),
            };
            let first = narrow(w_div(w_mul(grow, dt)?, snap.p)?)?;
            let second = match self.g_at(snap.epoch, next) {
                Ok(g2) => {
                    let x = w_div(w_mul(g2.g_system, dt)?, snap.p)?;
                    narrow(w_div(x, SCALE_FACTOR)?)?
                },
                Err(_) => 0,
            };
            let t = c_add(first, second)?;
            return c_add(t, d.min_reward);
        }
        let one = self._get_scale_block_gain(account, snap.scale, now_s)?;
        let two = if snap.scale < self.current_scale {
            self._get_scale_block_gain(account, snap.scale + 1, now_s)? / SCALE_FACTOR
        } else {
            0
        };
        let t = c_add(one, two)?;
        c_add(t, d.min_reward)
    }

    /// Refreshes `account`'s record for a claim at `now_s` seconds.
    pub fn _claim_update_depositor_g_s_p(&mut self, account: &String, now_s: u64) -> (r: Result<(), ContractError>)
        requires
            old(self).depositors.wf(),
        ensures
            current_sum_kept(*old(self)) ==> current_sum_kept(*final(self)),
            final(self).depositors.wf(),
            r is Ok <==> claim_refreshed(*old(self), account@, now_s as int) is Some,
            r is Ok ==> final(self).depositors.map()
                == old(self).depositors.map().insert(account@, claim_refreshed(*old(self), account@, now_s as int)->0),
            *final(self) == (StablePool { depositors: final(self).depositors, ..*old(self) }),
    {
        let d = match self.depositors.get(account) {
            Some(d) => d,
            None => return Err(ContractError::NotLegalGet),
        };
        let g = self._get_current_g_til_last_gbn(now_s)?;
        proof { lemma_canonical(g); }
        let snap = self._updated_depositor_s_p(Snapshots { g, ..d.snapshot })?;
        let deposit = self._get_compounded_usdo_deposit(account)?;
        self.depositors.insert(account.clone(), Depositor { deposit, snapshot: snap, ..d });
        Ok(())
    }

    /// Pays `claimer` as much of its mining reward `block_gain` as the
    /// reward balance holds; the rest stays unpaid on its record. Returns
    /// the amount paid and its transfer, if any.
    pub fn _claim_min_reward(&mut self, claimer: &String, block_gain: u128, near_gain: u128)
        -> (r: Result<(u128, Option<Transfer>), ContractError>)
        requires
            old(self).depositors.wf(),
        ensures
            current_sum_kept(*old(self)) ==> current_sum_kept(*final(self)),
            final(self).depositors.wf(),
            r is Ok <==> old(self).depositors.map().dom().contains(claimer@),
            r is Err ==> r == Err::<(u128, Option<Transfer>), ContractError>(ContractError::NotLegalGet),
            r is Ok ==> {
                let paid = payable(old(self).reward_sp as int, block_gain as int);
                let d = old(self).depositors.map()[claimer@];
                &&& (r->Ok_0).0 == paid
                &&& final(self).reward_sp == old(self).reward_sp - paid
                &&& final(self).depositors.map() == old(self).depositors.map().insert(
                    claimer@, Depositor { min_reward: (block_gain - paid) as u128, ..d })
                &&& match (r->Ok_0).1 {
                    Some(t) => paid > 0 && is_min_transfer(t, claimer@, paid, near_gain as int),
                    None => paid == 0,
                }
                &&& *final(self) == (StablePool {
                    reward_sp: final(self).reward_sp,
                    depositors: final(self).depositors,
                    ..*old(self)
                })
            },
    {
        let d = match self.depositors.get(claimer) {
            Some(d) => d,
            None => return Err(ContractError::NotLegalGet),
        };
        let (paid, unclaimed) = if self.reward_sp > block_gain {
            (block_gain, 0)
        } else {
            (self.reward_sp, block_gain - self.reward_sp)
        };
        self.reward_sp = self.reward_sp - paid;
        self.depositors.insert(claimer.clone(), Depositor { min_reward: unclaimed, ..d });
        if paid > 0 {
            Ok((paid, Some(Transfer {
                token_contract: st_oin(),
                receiver_id: claimer.clone(),
                amount: paid,
                callback: Callback::OnClaimMinReward {
                    claimer: claimer.clone(),
                    token_to_claim: paid,
                    depositor_near_gain: near_gain,
                },
            })))
        } else {
            Ok((paid, None))
        }
    }

    /// Pays `claimer` its collateral gain `near_gain` out of the pool's
    /// collateral and clears its unpaid gain.
    pub fn _claim_dis_reward(&mut self, claimer: &String, near_gain: u128)
        -> (r: Result<Option<Transfer>, ContractError>)
        requires
            old(self).depositors.wf(),
        ensures
            current_sum_kept(*old(self)) ==> current_sum_kept(*final(self)),
            final(self).depositors.wf(),
            near_gain == 0 ==> r == Ok::<Option<Transfer>, ContractError>(None) && *final(self) == *old(self),
            near_gain > 0 ==> {
                &&& r is Ok <==> near_gain <= old(self).total_token_sp
                    && old(self).depositors.map().dom().contains(claimer@)
                &&& r is Ok ==> {
                    &&& r->Ok_0 matches Some(t) && is_dis_transfer(t, claimer@, near_gain as int)
                    &&& final(self).total_token_sp == old(self).total_token_sp - near_gain
                    &&& final(self).depositors.map() == old(self).depositors.map().insert(
                        claimer@, Depositor { dis_reward: 0, ..old(self).depositors.map()[claimer@] })
                    &&& *final(self) == (StablePool {
                        total_token_sp: final(self).total_token_sp,
                        depositors: final(self).depositors,
                        ..*old(self)
                    })
                }
            },
    {
        if near_gain == 0 {
            return Ok(None);
        }
        let d = match self.depositors.get(claimer) {
            Some(d) => d,
            None => return Err(ContractError::NotLegalGet),
        };
        self.total_token_sp = c_sub(self.total_token_sp, near_gain)?;
        self.depositors.insert(claimer.clone(), Depositor { dis_reward: 0, ..d });
        Ok(Some(Transfer {
            token_contract: st_near(),
            receiver_id: claimer.clone(),
            amount: near_gain,
            callback: Callback::OnClaimDisReward { claimer: claimer.clone(), amount: near_gain },
        }))
    }

    /// Claims `claimer`'s mining reward and collateral gain at `now_s`
    /// seconds. Returns the transfers to make: the mining reward first.
    pub fn _claim_token(&mut self, claimer: &String, now_s: u64) -> (r: Result<Vec<Transfer>, ContractError>)
        requires
            old(self).depositors.wf(),
        ensures
            current_sum_kept(*old(self)) ==> current_sum_kept(*final(self)),
            final(self).depositors.wf(),
            r is Ok <==> claim_ok(*old(self), claimer@, now_s as int),
            r is Ok ==> {
                let ng = depositor_near_gain(*old(self), claimer@)->0;
                let bg = near_block_gain_spec(*old(self), claimer@, now_s as int)->0;
                let paid = payable(old(self).reward_sp as int, bg);
                let ts = (r->Ok_0)@;
                &&& final(self).reward_sp == old(self).reward_sp - paid
                &&& final(self).total_token_sp == old(self).total_token_sp - ng
                &&& final(self).depositors.map()
                    == old(self).depositors.map().insert(claimer@, claimed(*old(self), claimer@, now_s as int))
                &&& ts.len() == (if paid > 0 { 1int } else { 0 }) + (if ng > 0 { 1int } else { 0 })
                &&& paid > 0 ==> is_min_transfer(ts[0], claimer@, paid, ng)
                &&& ng > 0 ==> is_dis_transfer(ts[ts.len() - 1], claimer@, ng)
                &&& *final(self) == (StablePool {
                    reward_sp: final(self).reward_sp,
                    total_token_sp: final(self).total_token_sp,
                    depositors: final(self).depositors,
                    ..*old(self)
                })
            },
    {
        let near_gain = self.get_depositor_near_gain(claimer)?;
        let block_gain = self._get_near_block_gain_from_snapshots(claimer, now_s)?;
        self._claim_update_depositor_g_s_p(claimer, now_s)?;
        let ghost s1 = *self;
        if near_gain > self.total_token_sp {
            return Err(ContractError::SubOverflow);
        }
        let (_, t1) = self._claim_min_reward(claimer, block_gain, near_gain)?;
        let t2 = self._claim_dis_reward(claimer, near_gain)?;
        let mut ts: Vec<Transfer> = Vec::new();
        match t1 {
            Some(t) => ts.push(t),
            None => {},
        }
        match t2 {
            Some(t) => ts.push(t),
            None => {},
        }
        proof {
            assert(self.depositors.map() =~= old(self).depositors.map().insert(
                claimer@, claimed(*old(self), claimer@, now_s as int)));
        }
        Ok(ts)
    }
}

/// A copy of a row of G records.
fn copy_row(v: &Vec<SystemG>) -> (r: Vec<SystemG>)
    ensures
        r@ == v@,
{
    let mut r: Vec<SystemG> = Vec::new();
    let mut i: usize = 0;
    while i < v.len()
        invariant
            i <= v.len(),
            r@ == v@.subrange(0, i as int),
        decreases v.len() - i,
    {
        r.push(v[i]);
        i = i + 1;
        proof { assert(r@ =~= v@.subrange(0, i as int)); }
    }
    proof { assert(v@.subrange(0, v.len() as int) =~= v@); }
    r
}

impl StablePool {
    /// Takes `amount` out of the deposits for `receiver`, records `new_g` as
    /// the current scale's G and returns the transfer of `amount` stable
    /// coin from `current`, the contract itself. The callback carries what
    /// is needed to undo the withdrawal if the transfer fails.
    pub fn _send_usdo_to_depositor(
        &mut self,
        receiver: &String,
        amount: u128,
        new_g: SystemG,
        before_deposits: u128,
        before_snap: Snapshots,
        current: &String,
    ) -> (r: Result<Transfer, ContractError>)
        ensures
            current_sum_kept(*old(self)) ==> current_sum_kept(*final(self)),
            final(self).depositors == old(self).depositors,
            ({
                let e = old(self).current_epoch as int;
                let s = old(self).current_scale as int;
                let og = g_entry(*old(self), e, s);
                &&& r is Ok <==> {
                    &&& og is Some
                    &&& new_g.g_block_num >= og->0.g_block_num
                    &&& new_g.g_system@ >= og->0.g_system@
                    &&& amount <= old(self).total_usdo_deposits
                }
                &&& r is Ok ==> {
                    let t = r->Ok_0;
                    &&& g_rows(*final(self)) == put(g_rows(*old(self)), e, s, new_g)
                    &&& final(self).total_usdo_deposits == old(self).total_usdo_deposits - amount
                    &&& t.token_contract@ == current@
                    &&& t.receiver_id@ == receiver@
                    &&& t.amount == amount
                    &&& t.callback matches Callback::OnWithdrawUsdo {
                        receiver_id, amount: a, cha_g_bn, cha_g_system, target_scale, target_epoch,
                        before_deposits: bd, before_snap: bs,
                    } && receiver_id@ == receiver@ && a == amount
                        && cha_g_bn == new_g.g_block_num - og->0.g_block_num
                        && cha_g_system@ == new_g.g_system@ - og->0.g_system@
                        && target_scale == s && target_epoch == e && bd == before_deposits && bs == before_snap
                    &&& *final(self) == (StablePool {
                        epoch_to_scale_to_g: final(self).epoch_to_scale_to_g,
                        total_usdo_deposits: final(self).total_usdo_deposits,
                        ..*old(self)
                    })
                }
            }),
    {
        let e = self.current_epoch;
        let s = self.current_scale;
        let og = self.g_at(e, s)?;
        let cha_g_bn = match new_g.g_block_num.checked_sub(og.g_block_num) {
            Some(v) => v,
            None => return Err(ContractError::SubOverflow),
        };
        let cha_g_system = match new_g.g_system.checked_sub(og.g_system) {
            Some(v) => v,
            None => return Err(ContractError::SubOverflow),
        };
        if amount > self.total_usdo_deposits {
            return Err(ContractError::SubOverflow);
        }
        self.put_g(e, s, new_g)?;
        self.total_usdo_deposits = self.total_usdo_deposits - amount;
        Ok(Transfer {
            token_contract: current.clone(),
            receiver_id: receiver.clone(),
            amount,
            callback: Callback::OnWithdrawUsdo {
                receiver_id: receiver.clone(),
                amount,
                cha_g_bn,
                cha_g_system,
                target_scale: s,
                target_epoch: e,
                before_deposits,
                before_snap,
            },
        })
    }

    /// Takes `amount` off the deposits.
    pub fn _decrease_usdo(&mut self, amount: u128) -> (r: Result<(), ContractError>)
        ensures
            current_sum_kept(*old(self)) ==> current_sum_kept(*final(self)),
            r is Ok <==> amount <= old(self).total_usdo_deposits,
            r is Ok ==> *final(self) == (StablePool {
                total_usdo_deposits: (old(self).total_usdo_deposits - amount) as u128,
                ..*old(self)
            }),
            r is Err ==> r == Err::<(), ContractError>(ContractError::SubOverflow) && *final(self) == *old(self),
    {
        self.total_usdo_deposits = c_sub(self.total_usdo_deposits, amount)?;
        Ok(())
    }

    /// Adds `amount` to the mining rewards to hand out.
    pub fn inject_sp_reward(&mut self, amount: u128) -> (r: Result<(), ContractError>)
        ensures
            current_sum_kept(*old(self)) ==> current_sum_kept(*final(self)),
            r is Ok <==> fits(old(self).reward_sp + amount),
            r is Ok ==> *final(self) == (StablePool { reward_sp: (old(self).reward_sp + amount) as u128, ..*old(self) }),
            r is Err ==> r == Err::<(), ContractError>(ContractError::AddOverflow) && *final(self) == *old(self),
    {
        self.reward_sp = c_add(self.reward_sp, amount)?;
        Ok(())
    }

    /// Outcome of a withdrawal's transfer. On failure the withdrawal is
    /// undone: the G record it advanced at (`target_epoch`,
    /// `target_scale`) goes back by the recorded changes, that row is also
    /// stored as the current epoch's row, the amount returns to the
    /// deposits and the receiver's record gets back its deposit and
    /// snapshot.
    ///
    /// The current epoch gets its own copy of the row: when `target_epoch`
    /// is an older epoch, later G updates of the current epoch leave the
    /// older epoch's row as it is, and the two rows are not kept equal.
    pub fn on_withdraw_usdo(
        &mut self,
        receiver: &String,
        amount: u128,
        cha_g_bn: u64,
        cha_g_system: U256,
        target_scale: u64,
        target_epoch: u128,
        before_deposits: u128,
        before_snap: Snapshots,
        succeeded: bool,
    ) -> (r: Result<(), ContractError>)
        requires
            old(self).depositors.wf(),
        ensures
            current_sum_kept(*old(self)) ==> current_sum_kept(*final(self)),
            final(self).depositors.wf(),
            succeeded ==> r is Ok && *final(self) == *old(self),
            !succeeded ==> ({
                let og = g_entry(*old(self), target_epoch as int, target_scale as int);
                let row = g_rows(*old(self))[target_epoch as int];
                let ng = SystemG {
                    g_block_num: (og->0.g_block_num - cha_g_bn) as u64,
                    g_system: u256_of((og->0.g_system@ - cha_g_system@) as nat),
                };
                let dm = old(self).depositors.map();
                &&& r is Ok <==> {
                    &&& og is Some
                    &&& og->0.g_block_num >= cha_g_bn
                    &&& og->0.g_system@ >= cha_g_system@
                    &&& old(self).current_epoch <= g_rows(*old(self)).len()
                    &&& fits(old(self).total_usdo_deposits + amount)
                    &&& dm.dom().contains(receiver@)
                }
                &&& r is Ok ==> {
                    &&& g_rows(*final(self)) == put_row(
                        put(g_rows(*old(self)), target_epoch as int, target_scale as int, ng),
                        old(self).current_epoch as int,
                        row.update(target_scale as int, ng))
                    &&& final(self).total_usdo_deposits == old(self).total_usdo_deposits + amount
                    &&& final(self).depositors.map() == dm.insert(receiver@, Depositor {
                        deposit: before_deposits,
                        snapshot: before_snap,
                        ..dm[receiver@]
                    })
                    &&& *final(self) == (StablePool {
                        epoch_to_scale_to_g: final(self).epoch_to_scale_to_g,
                        total_usdo_deposits: final(self).total_usdo_deposits,
                        depositors: final(self).depositors,
                        ..*old(self)
                    })
                }
            }),
    {
        if succeeded {
            return Ok(());
        }
        let og = self.g_at(target_epoch, target_scale)?;
        let bn = match og.g_block_num.checked_sub(cha_g_bn) {
            Some(v) => v,
            None => return Err(ContractError::SubOverflow),
        };
        let gs = match og.g_system.checked_sub(cha_g_system) {
            Some(v) => v,
            None => return Err(ContractError::SubOverflow),
        };
        if self.current_epoch > self.epoch_to_scale_to_g.len() as u128 {
            return Err(ContractError::NotLegalGet);
        }
        let total = c_add(self.total_usdo_deposits, amount)?;
        let d = match self.depositors.get(receiver) {
            Some(d) => d,
            None => return Err(ContractError::NotLegalGet),
        };
        proof { lemma_canonical(gs); }
        let ng = SystemG { g_block_num: bn, g_system: gs };
        self.put_g(target_epoch, target_scale, ng)?;
        assert(g_rows(*self).len() == self.epoch_to_scale_to_g@.len());
        assert(g_rows(*self)[target_epoch as int] == self.epoch_to_scale_to_g@[target_epoch as int]@);
        let row = copy_row(&self.epoch_to_scale_to_g[target_epoch as usize]);
        proof {
            assert(row@ =~= g_rows(*old(self))[target_epoch as int].update(target_scale as int, ng));
        }
        let e = self.current_epoch;
        self.put_g_row(e, row)?;
        self.total_usdo_deposits = total;
        self.depositors.insert(receiver.clone(), Depositor {
            deposit: before_deposits,
            snapshot: before_snap,
            ..d
        });
        Ok(())
    }

    /// Outcome of a collateral-gain transfer. On failure the gain is
    /// unpaid again and back in the pool.
    pub fn on_claim_dis_reward(&mut self, claimer: &String, amount: u128, succeeded: bool) -> (r: Result<(), ContractError>)
        requires
            old(self).depositors.wf(),
        ensures
            current_sum_kept(*old(self)) ==> current_sum_kept(*final(self)),
            final(self).depositors.wf(),
            succeeded ==> r is Ok && *final(self) == *old(self),
            !succeeded ==> ({
                let dm = old(self).depositors.map();
                &&& r is Ok <==> {
                    &&& dm.dom().contains(claimer@)
                    &&& fits(dm[claimer@].dis_reward + amount)
                    &&& (amount > 0 ==> fits(old(self).total_token_sp + amount))
                }
                &&& (r is Ok && amount == 0) ==> *final(self) == *old(self)
                &&& (r is Ok && amount > 0) ==> *final(self) == (StablePool {
                    total_token_sp: (old(self).total_token_sp + amount) as u128,
                    depositors: final(self).depositors,
                    ..*old(self)
                }) && final(self).depositors.map() == dm.insert(claimer@, Depositor {
                    dis_reward: (dm[claimer@].dis_reward + amount) as u128,
                    ..dm[claimer@]
                })
            }),
    {
        if succeeded {
            return Ok(());
        }
        let d = match self.depositors.get(claimer) {
            Some(d) => d,
            None => return Err(ContractError::NotLegalGet),
        };
        let unclaimed = c_add(d.dis_reward, amount)?;
        if amount > 0 {
            self.total_token_sp = c_add(self.total_token_sp, amount)?;
            self.depositors.insert(claimer.clone(), Depositor { dis_reward: unclaimed, ..d });
        }
        Ok(())
    }

    /// Outcome of a mining-reward transfer. On failure the reward is
    /// unpaid again and back in the reward balance; the collateral gain of
    /// the same claim is also credited back as unpaid.
    pub fn on_claim_min_reward(
        &mut self,
        claimer: &String,
        token_to_claim: u128,
        depositor_near_gain: u128,
        succeeded: bool,
    ) -> (r: Result<(), ContractError>)
        requires
            old(self).depositors.wf(),
        ensures
            current_sum_kept(*old(self)) ==> current_sum_kept(*final(self)),
            final(self).depositors.wf(),
            succeeded ==> r is Ok && *final(self) == *old(self),
            !succeeded ==> ({
                let dm = old(self).depositors.map();
                &&& r is Ok <==> {
                    &&& dm.dom().contains(claimer@)
                    &&& fits(dm[claimer@].min_reward + token_to_claim)
                    &&& fits(dm[claimer@].dis_reward + depositor_near_gain)
                    &&& fits(old(self).reward_sp + token_to_claim)
                    &&& fits(old(self).total_token_sp + depositor_near_gain)
                }
                &&& r is Ok ==> {
                    &&& final(self).depositors.map() == dm.insert(claimer@, Depositor {
                        min_reward: (dm[claimer@].min_reward + token_to_claim) as u128,
                        dis_reward: (dm[claimer@].dis_reward + depositor_near_gain) as u128,
                        ..dm[claimer@]
                    })
                    &&& *final(self) == (StablePool {
                        reward_sp: (old(self).reward_sp + token_to_claim) as u128,
                        total_token_sp: (old(self).total_token_sp + depositor_near_gain) as u128,
                        depositors: final(self).depositors,
                        ..*old(self)
                    })
                }
            }),
    {
        if succeeded {
            return Ok(());
        }
        let d = match self.depositors.get(claimer) {
            Some(d) => d,
            None => return Err(ContractError::NotLegalGet),
        };
        let min_reward = c_add(d.min_reward, token_to_claim)?;
        let reward_sp = c_add(self.reward_sp, token_to_claim)?;
        let dis_reward = c_add(d.dis_reward, depositor_near_gain)?;
        let total_token_sp = c_add(self.total_token_sp, depositor_near_gain)?;
        self.depositors.insert(claimer.clone(), Depositor { min_reward, dis_reward, ..d });
        self.reward_sp = reward_sp;
        self.total_token_sp = total_token_sp;
        Ok(())
    }

    /// Outcome of a transfer of mining rewards to the owner. On failure the
    /// amount is back in the reward balance.
    pub fn on_withdraw_sp_reward(&mut self, amount: u128, succeeded: bool) -> (r: Result<(), ContractError>)
        ensures
            current_sum_kept(*old(self)) ==> current_sum_kept(*final(self)),
            succeeded ==> r is Ok && *final(self) == *old(self),
            !succeeded ==> {
                &&& r is Ok <==> fits(old(self).reward_sp + amount)
                &&& r is Ok ==> *final(self) == (StablePool { reward_sp: (old(self).reward_sp + amount) as u128, ..*old(self) })
            },
    {
        if succeeded {
            return Ok(());
        }
        self.reward_sp = c_add(self.reward_sp, amount)?;
        Ok(())
    }
}

} // verus!
