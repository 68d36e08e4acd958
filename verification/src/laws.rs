//! Properties of the library as a whole, stated over the specifications
//! its operations are proved against.
use vstd::prelude::*;
use crate::consts::{
    DECIMAL_PRECISION, INIT_NO_LIQUIDATION_FEE_RATE, INIT_STABLE_INDEX, ONE_COIN, ONE_TOKEN, SCALE_FACTOR,
    STAKE_RATIO_BASE,
};
use crate::allot::allot_share;
use crate::debt::{available_spec, debt_spec};
use crate::reward::saved_spec;
use crate::state::Allot;
use crate::types::UserReward;
use crate::esm::esm_all;
use crate::ledger::{can_transfer, transferred, TokenLedger};
use crate::liquidation::plan_spec;
use crate::sp::{can_put, compounded_spec, entry, p_after, payable, put, put_row};
use crate::state::{OinStake, StableFee, StablePool};
use crate::msig::{conf_keys, confirm_ok, num_enough_spec, req};
use crate::types::{Depositor, Position, RewardCoin, Snapshots, SystemG};
use crate::u256::{lemma_canonical, u256_of};
use crate::usdo::minted;
use crate::pool_ops::after_poke;
use crate::state::Vaults;
use crate::vaults::{appended, lemma_appended, lemma_swap_removed, listed, names, swap_removed, vaults_wf};

verus! {

/// A liquidation hands out exactly the liquidated collateral: the gas
/// compensation, the fee, the stability pool's and the pledges' shares and
/// the surplus add up to it; and the stability pool and the pledges
/// together take over exactly the debt.
pub proof fn law_liquidation_splits_exactly(s: &OinStake, ratio: int, debt: int, allot_token: int)
    requires
        0 <= debt <= u128::MAX,
        0 <= allot_token <= u128::MAX,
        plan_spec(s, ratio, debt, allot_token) is Some,
    ensures
        ({
            let p = plan_spec(s, ratio, debt, allot_token)->0;
            &&& p.gas_compensation + p.liquidation_fee + p.sp_allot_token + p.stake_allot_token + p.surplus_token
                == allot_token
            &&& p.sp_allot_coin + p.stake_allot_coin == debt
            &&& p.reduce_pledge + p.stake_allot_token == allot_token
        }),
{
    let g1 = debt * s.params.gas_compensation_ratio;
    let f1 = debt * s.params.liquidation_fee_ratio;
    assert(g1 >= 0 && g1 * crate::consts::STAKE_RATIO_BASE >= 0) by (nonlinear_arith)
        requires g1 == debt * s.params.gas_compensation_ratio, debt >= 0;
    assert(f1 >= 0 && f1 * crate::consts::STAKE_RATIO_BASE >= 0) by (nonlinear_arith)
        requires f1 == debt * s.params.liquidation_fee_ratio, debt >= 0;
    if s.oracle.token_price > 0 {
        vstd::arithmetic::div_mod::lemma_div_pos_is_pos(g1 * crate::consts::STAKE_RATIO_BASE, s.oracle.token_price as int);
        vstd::arithmetic::div_mod::lemma_div_pos_is_pos(f1 * crate::consts::STAKE_RATIO_BASE, s.oracle.token_price as int);
    }
}

/// Moving stable coin between two accounts changes neither their combined
/// balance nor any other account's.
pub proof fn law_transfer_conserves(l: TokenLedger, from: Seq<char>, to: Seq<char>, amount: int)
    requires
        can_transfer(l, from, to, amount),
    ensures
        ({
            let m = l.accounts.map();
            let m2 = transferred(l, from, to, amount);
            &&& m2[from] + m2[to] == m[from] + m[to]
            &&& m2.dom() == m.dom()
            &&& forall|k: Seq<char>| k != from && k != to && m.dom().contains(k) ==> #[trigger] m2[k] == m[k]
        }),
{
}

/// Minting an amount to an account and burning the same amount from it
/// gives back the balances, except that an account that was not
/// registered stays registered with nothing.
pub proof fn law_mint_burn_inverse(m: Map<Seq<char>, u128>, id: Seq<char>, amount: int)
    requires
        0 <= amount,
        (if m.dom().contains(id) { m[id] as int } else { 0 }) + amount <= u128::MAX,
    ensures
        ({
            let m1 = minted(m, id, amount);
            &&& m1.dom().contains(id)
            &&& amount <= m1[id]
            &&& m1.insert(id, (m1[id] - amount) as u128) == if m.dom().contains(id) { m } else { m.insert(id, 0) }
        }),
{
    let m1 = minted(m, id, amount);
    if m.dom().contains(id) {
        assert(m1.insert(id, (m1[id] - amount) as u128) =~= m);
    } else {
        assert(m1.insert(id, (m1[id] - amount) as u128) =~= m.insert(id, 0));
    }
}

/// A collateral withdrawal whose transfer fails is undone: the position
/// gets back its collateral and, where the withdrawal emptied it, its
/// guarantee, and the totals get back what they lost. `q` is the position
/// the withdrawal started from.
pub proof fn law_failed_withdrawal_undone(pm: Map<Seq<char>, Position>, id: Seq<char>, q: Position, amount: int,
    total_token: int, total_guarantee: int)
    requires
        0 < amount <= q.token,
        amount <= total_token,
        q.guarantee <= total_guarantee,
        total_token <= u128::MAX,
        total_guarantee <= u128::MAX,
    ensures
        ({
            let g = q.guarantee;
            let emptied = q.token == amount;
            let pm1 = if emptied {
                pm.insert(id, Position { token: 0, guarantee: 0, ..q })
            } else {
                pm.insert(id, Position { token: (q.token - amount) as u128, ..q })
            };
            let tt1 = total_token - amount;
            let tg1 = if emptied { total_guarantee - g } else { total_guarantee };
            let p = pm1[id];
            let released = p.guarantee == 0;
            let pm2 = pm1.insert(id, Position {
                token: (p.token + amount) as u128,
                guarantee: if released { g } else { p.guarantee },
                ..p
            });
            let tt2 = tt1 + amount;
            let tg2 = tg1 + if released { g } else { 0 };
            &&& pm2 == pm.insert(id, q)
            &&& tt2 == total_token
            &&& tg2 == total_guarantee
        }),
{
    let g = q.guarantee;
    let emptied = q.token == amount;
    let pm1 = if emptied {
        pm.insert(id, Position { token: 0, guarantee: 0, ..q })
    } else {
        pm.insert(id, Position { token: (q.token - amount) as u128, ..q })
    };
    let p = pm1[id];
    let released = p.guarantee == 0;
    let pm2 = pm1.insert(id, Position {
        token: (p.token + amount) as u128,
        guarantee: if released { g } else { p.guarantee },
        ..p
    });
    assert(pm2 =~= pm.insert(id, q));
}

/// A mint whose transfer fails is undone: the position's debt, the total
/// debt, the contract's own balance and the supply are what they were.
pub proof fn law_failed_mint_undone(pm: Map<Seq<char>, Position>, id: Seq<char>, q: Position, amount: int,
    total_coin: int, balances: Map<Seq<char>, u128>, current: Seq<char>, supply: int)
    requires
        0 <= amount,
        q.coin + amount <= u128::MAX,
        balances.dom().contains(current),
        balances[current] + amount <= u128::MAX,
    ensures
        ({
            let pm1 = pm.insert(id, Position { coin: (q.coin + amount) as u128, ..q });
            let b1 = minted(balances, current, amount);
            let p = pm1[id];
            let pm2 = pm1.insert(id, Position { coin: (p.coin - amount) as u128, ..p });
            let b2 = b1.insert(current, (b1[current] - amount) as u128);
            &&& pm2 == pm.insert(id, q)
            &&& b2 == balances
            &&& (total_coin + amount) - amount == total_coin
            &&& (supply + amount) - amount == supply
        }),
{
    let pm1 = pm.insert(id, Position { coin: (q.coin + amount) as u128, ..q });
    let b1 = minted(balances, current, amount);
    let p = pm1[id];
    assert(pm1.insert(id, Position { coin: (p.coin - amount) as u128, ..p }) =~= pm.insert(id, q));
    assert(b1.insert(current, (b1[current] - amount) as u128) =~= balances);
}

/// Whitelisting an account and removing it again leaves the whitelist as
/// it was.
pub proof fn law_whitelist_add_remove(m: Map<Seq<char>, ()>, account: Seq<char>)
    requires
        !m.dom().contains(account),
    ensures
        m.insert(account, ()).remove(account) == m,
{
    assert(m.insert(account, ()).remove(account) =~= m);
}

/// The emergency shutdown closes every operation, and opening after it
/// opens every one of them.
pub proof fn law_shutdown_closes_all()
    ensures
        ({
            let e = esm_all(0);
            &&& e.is_deposit_live != 1 && e.is_withdraw_live != 1 && e.is_mint_coin_live != 1
            &&& e.is_burn_coin_live != 1 && e.is_claim_reward_live != 1 && e.is_liquidate_live != 1
            &&& e.is_provide_to_sp_live != 1 && e.is_withdraw_from_sp_live != 1 && e.is_claim_token_live != 1
        }),
        ({
            let e = esm_all(1);
            &&& e.is_deposit_live == 1 && e.is_withdraw_live == 1 && e.is_mint_coin_live == 1
            &&& e.is_burn_coin_live == 1 && e.is_claim_reward_live == 1 && e.is_liquidate_live == 1
            &&& e.is_provide_to_sp_live == 1 && e.is_withdraw_from_sp_live == 1 && e.is_claim_token_live == 1
        }),
{
}

/// The stability fee only accrues: advancing the clock never lowers the
/// fee index nor the unpaid fees, and records the new time.
pub proof fn law_fee_index_monotone(f: StableFee, cur: int, total_coin: int)
    requires
        f.advance_ok(cur, total_coin),
        total_coin >= 0,
        cur <= u64::MAX,
    ensures
        f.advanced(cur, total_coin).stable_index >= f.stable_index,
        f.advanced(cur, total_coin).total_unpaid_stable_fee >= f.total_unpaid_stable_fee,
        f.advanced(cur, total_coin).stable_block_number == cur,
{
    let delta = cur - f.stable_block_number;
    if delta > 0 && total_coin > 0 {
        assert(f.stable_fee_rate * delta >= 0) by (nonlinear_arith)
            requires delta > 0;
        assert(f.stable_fee_rate * delta * total_coin >= 0) by (nonlinear_arith)
            requires delta > 0, total_coin > 0;
    }
}

/// The stability pool's product P never exceeds one: an offset keeps it
/// at most `DECIMAL_PRECISION`.
pub proof fn law_product_at_most_one(sp: StablePool, loss: int)
    requires
        sp.p_system <= DECIMAL_PRECISION,
        0 <= loss <= DECIMAL_PRECISION,
    ensures
        0 <= p_after(sp, loss) <= DECIMAL_PRECISION,
{
    let p = sp.p_system as int;
    let factor = DECIMAL_PRECISION - loss;
    if factor != 0 {
        assert(p * factor <= p * DECIMAL_PRECISION) by (nonlinear_arith)
            requires 0 <= factor <= DECIMAL_PRECISION, p >= 0;
        assert(p * factor >= 0) by (nonlinear_arith)
            requires factor >= 0, p >= 0;
        vstd::arithmetic::div_mod::lemma_div_is_ordered(p * factor, p * DECIMAL_PRECISION, DECIMAL_PRECISION as int);
        vstd::arithmetic::div_mod::lemma_div_by_multiple(p, DECIMAL_PRECISION as int);
        if p * factor / (DECIMAL_PRECISION as int) < SCALE_FACTOR {
            let q = p * factor / (DECIMAL_PRECISION as int);
            vstd::arithmetic::div_mod::lemma_fundamental_div_mod(p * factor, DECIMAL_PRECISION as int);
            vstd::arithmetic::div_mod::lemma_mod_bound(p * factor, DECIMAL_PRECISION as int);
            assert(p * factor < (q + 1) * DECIMAL_PRECISION) by (nonlinear_arith)
                requires p * factor == DECIMAL_PRECISION * q + (p * factor) % (DECIMAL_PRECISION as int),
                    (p * factor) % (DECIMAL_PRECISION as int) < DECIMAL_PRECISION;
            assert(p * factor * SCALE_FACTOR < (q + 1) * DECIMAL_PRECISION * SCALE_FACTOR) by (nonlinear_arith)
                requires p * factor < (q + 1) * DECIMAL_PRECISION;
            assert((q + 1) * SCALE_FACTOR <= SCALE_FACTOR * SCALE_FACTOR) by (nonlinear_arith)
                requires q + 1 <= SCALE_FACTOR;
            assert(p * factor * SCALE_FACTOR <= DECIMAL_PRECISION * DECIMAL_PRECISION) by (nonlinear_arith)
                requires p * factor * SCALE_FACTOR < (q + 1) * DECIMAL_PRECISION * SCALE_FACTOR,
                    (q + 1) * SCALE_FACTOR <= SCALE_FACTOR * SCALE_FACTOR,
                    SCALE_FACTOR * SCALE_FACTOR == DECIMAL_PRECISION;
            vstd::arithmetic::div_mod::lemma_div_is_ordered(p * factor * SCALE_FACTOR,
                DECIMAL_PRECISION * DECIMAL_PRECISION, DECIMAL_PRECISION as int);
            vstd::arithmetic::div_mod::lemma_div_by_multiple(DECIMAL_PRECISION as int, DECIMAL_PRECISION as int);
            assert(p * factor * SCALE_FACTOR >= 0) by (nonlinear_arith)
                requires p * factor >= 0;
            vstd::arithmetic::div_mod::lemma_div_pos_is_pos(p * factor * SCALE_FACTOR, DECIMAL_PRECISION as int);
        }
    }
}

/// A deposit in the stability pool never grows: while the product has
/// not risen above the snapshot's, what a deposit is worth is at most its
/// amount.
pub proof fn law_deposit_never_grows(sp: StablePool, d: int, snap: Snapshots)
    requires
        d >= 0,
        snap.p > 0,
        sp.p_system <= snap.p,
        compounded_spec(sp, d, snap) is Some,
    ensures
        0 <= compounded_spec(sp, d, snap)->0 <= d,
{
    let p = snap.p as int;
    let big = sp.p_system as int;
    assert(d * big <= d * p) by (nonlinear_arith)
        requires d >= 0, big <= p;
    assert(d * big >= 0) by (nonlinear_arith)
        requires d >= 0, big >= 0;
    vstd::arithmetic::div_mod::lemma_div_is_ordered(d * big, d * p, p);
    vstd::arithmetic::div_mod::lemma_div_by_multiple(d, p);
    vstd::arithmetic::div_mod::lemma_div_pos_is_pos(d * big, p);
    if snap.scale + 1 == sp.current_scale && snap.epoch >= sp.current_epoch && snap.scale != sp.current_scale {
        let q = d * big / p;
        vstd::arithmetic::div_mod::lemma_div_is_ordered_by_denominator(q, 1, SCALE_FACTOR as int);
        vstd::arithmetic::div_mod::lemma_div_pos_is_pos(q, SCALE_FACTOR as int);
    }
}

/// A claim never pays more mining reward than the pool holds, and what it
/// does not pay stays owed: paid and still owed add up to the reward
/// earned.
pub proof fn law_claim_pays_within_pool(pool: int, gain: int)
    requires
        pool >= 0,
        gain >= 0,
    ensures
        0 <= payable(pool, gain) <= pool,
        payable(pool, gain) <= gain,
        payable(pool, gain) + (gain - payable(pool, gain)) == gain,
{
}

/// Listing an account for liquidation and unlisting it again leaves the
/// list as it was.
pub proof fn law_vault_init_remove(v: Seq<Seq<char>>, id: Seq<char>)
    ensures
        ({
            let w = v.push(id);
            w.update(v.len() as int, w.last()).drop_last() == v
        }),
{
    let w = v.push(id);
    assert(w.update(v.len() as int, w.last()).drop_last() =~= v);
}

/// A withdrawal from the stability pool whose transfer fails is undone:
/// the pool's deposits, the depositor's record and the G table are what
/// the gains claim and the G update that come first left them. `d` is the
/// depositor's record after the claim, `moved` the one the withdrawal
/// wrote, `g1` the G record the update wrote at (`e`, `s`) and `g2` the one
/// the withdrawal advanced it to.
pub proof fn law_failed_sp_withdrawal_undone(
    dm: Map<Seq<char>, Depositor>,
    caller: Seq<char>,
    d: Depositor,
    moved: Depositor,
    total: int,
    amount: int,
    rows: Seq<Seq<SystemG>>,
    e: int,
    s: int,
    g1: SystemG,
    g2: SystemG,
)
    requires
        moved.min_reward == d.min_reward,
        moved.dis_reward == d.dis_reward,
        can_put(rows, e, s),
        g2.g_block_num >= g1.g_block_num,
        g2.g_system@ >= g1.g_system@,
    ensures
        ({
            let dm1 = dm.insert(caller, moved);
            dm1.insert(caller, Depositor { deposit: d.deposit, snapshot: d.snapshot, ..dm1[caller] })
                == dm.insert(caller, d)
        }),
        (total - amount) + amount == total,
        ({
            let rows1 = put(put(rows, e, s, g1), e, s, g2);
            let og = entry(rows1, e, s);
            let back = SystemG {
                g_block_num: (og->0.g_block_num - (g2.g_block_num - g1.g_block_num)) as u64,
                g_system: u256_of((og->0.g_system@ - (g2.g_system@ - g1.g_system@)) as nat),
            };
            &&& og == Some(g2)
            &&& put_row(put(rows1, e, s, back), e, rows1[e].update(s, back)) == put(rows, e, s, g1)
        }),
{
    let dm1 = dm.insert(caller, moved);
    assert(dm1.insert(caller, Depositor { deposit: d.deposit, snapshot: d.snapshot, ..dm1[caller] })
        =~= dm.insert(caller, d));
    let rows1 = put(put(rows, e, s, g1), e, s, g2);
    lemma_canonical(g1.g_system);
    let back = SystemG {
        g_block_num: (g2.g_block_num - (g2.g_block_num - g1.g_block_num)) as u64,
        g_system: u256_of((g2.g_system@ - (g2.g_system@ - g1.g_system@)) as nat),
    };
    assert(back == g1);
    assert(rows1[e].update(s, g1) =~= put(rows, e, s, g1)[e]);
    assert(put_row(put(rows1, e, s, g1), e, rows1[e].update(s, g1)) =~= put(rows, e, s, g1));
}

/// A payout from a reward coin's pool whose transfer fails is credited
/// back: the pool holds what it held before the payout (an owner's
/// extraction or an account's claim).
pub proof fn law_failed_payout_refills_pool(cm: Map<Seq<char>, RewardCoin>, key: Seq<char>, amount: int)
    requires
        cm.dom().contains(key),
        0 <= amount <= cm[key].total_reward,
    ensures
        ({
            let c = cm[key];
            let cm1 = cm.insert(key, RewardCoin { total_reward: (c.total_reward - amount) as u128, ..c });
            let c1 = cm1[key];
            cm1.insert(key, RewardCoin { total_reward: (c1.total_reward + amount) as u128, ..c1 }) == cm
        }),
{
    let c = cm[key];
    let cm1 = cm.insert(key, RewardCoin { total_reward: (c.total_reward - amount) as u128, ..c });
    let c1 = cm1[key];
    assert(cm1.insert(key, RewardCoin { total_reward: (c1.total_reward + amount) as u128, ..c1 }) =~= cm);
}

/// Collecting the liquidation fees and failing to transfer them leaves the
/// contract as it was.
pub proof fn law_failed_fee_collection_undone(s: OinStake)
    requires
        s.total_liquidation_fee > 0,
    ensures
        ({
            let t = OinStake { total_liquidation_fee: 0, ..s };
            OinStake { total_liquidation_fee: (t.total_liquidation_fee + s.total_liquidation_fee) as u128, ..t } == s
        }),
{
}

/// A key confirms a request once: once its confirmation is recorded, a
/// second confirmation with it is refused.
pub proof fn law_confirm_once(before: &OinStake, after: &OinStake, id: u32, pk: Seq<u8>)
    requires
        conf_keys(after, id) == conf_keys(before, id).push(pk),
    ensures
        !confirm_ok(after, id, pk),
{
    assert(conf_keys(after, id)[conf_keys(before, id).len() as int] == pk);
}

/// Adding an account to the whitelist grows it by one, and removing the
/// same account again gives back the whitelist and its size.
pub proof fn law_white_add_remove(s0: OinStake, s1: OinStake, s2: OinStake, account: Seq<char>)
    requires
        s0.wf(),
        s1.wf(),
        s2.wf(),
        !s0.whitelist.map().dom().contains(account),
        s1.whitelist.map() == s0.whitelist.map().insert(account, ()),
        s2.whitelist.map() == s1.whitelist.map().remove(account),
    ensures
        s1.whitelist.map().dom().contains(account),
        s1.whitelist.len_spec() == s0.whitelist.len_spec() + 1,
        !s2.whitelist.map().dom().contains(account),
        s2.whitelist.map() == s0.whitelist.map(),
        s2.whitelist.len_spec() == s0.whitelist.len_spec(),
{
    s0.whitelist.lemma_len();
    s1.whitelist.lemma_len();
    s2.whitelist.lemma_len();
    assert(s2.whitelist.map() =~= s0.whitelist.map());
}

/// A price update is what the price query then gives back, stamped with
/// the time of the update; the oracle account stays.
pub proof fn law_poke_then_peek(s: OinStake, token_price: u128, now: u64)
    ensures
        after_poke(s, token_price, now).oracle.token_price == token_price,
        after_poke(s, token_price, now).oracle.token_poke_time == now,
        after_poke(s, token_price, now).oracle.oracle == s.oracle.oracle,
{
}

/// An account that leaves an orderly vault list (a withdrawal that empties
/// its pledge) and is appended again (the failed transfer undone) is back
/// on the list, which holds the same accounts as before and stays orderly.
pub proof fn law_failed_withdrawal_relists(v0: Vaults, v1: Vaults, v2: Vaults, id: Seq<char>)
    requires
        vaults_wf(v0),
        listed(v0, id),
        swap_removed(v0, v1, id),
        appended(v1, v2, id),
        v0.unsorted_vaults@.len() <= usize::MAX,
    ensures
        vaults_wf(v2),
        listed(v2, id),
        names(v2.unsorted_vaults@).to_set() == names(v0.unsorted_vaults@).to_set(),
{
    let n0 = names(v0.unsorted_vaults@);
    let k = choose|k: int| 0 <= k < n0.len() && n0[k] == id;
    assert(n0.len() > 0);
    assert(v0.account_to_index.map().dom().contains(n0[k]));
    lemma_swap_removed(v0, v1, id);
    assert(names(v1.unsorted_vaults@).len() == v1.unsorted_vaults@.len());
    assert(names(v0.unsorted_vaults@).len() == v0.unsorted_vaults@.len());
    assert(names(v1.unsorted_vaults@).len() == n0.len() - 1);
    lemma_appended(v1, v2, id);
    let s0 = names(v0.unsorted_vaults@).to_set();
    assert(s0.contains(id));
    assert(s0.remove(id).insert(id) =~= s0);
}

/// How a liquidation shares a position's debt and collateral: the gas
/// compensation and the fee are the debt's worth at their ratios; a pool
/// that takes part of the debt takes the collateral that part is worth at
/// the reallocation ratio (below the fee line capped by what is left), and
/// only its part; the pledges take the rest of the debt.
pub proof fn law_plan_shares(s: &OinStake, ratio: int, debt: int, allot_token: int)
    requires
        plan_spec(s, ratio, debt, allot_token) is Some,
        0 <= debt <= u128::MAX,
        0 <= allot_token <= u128::MAX,
    ensures
        ({
            let p = plan_spec(s, ratio, debt, allot_token)->0;
            let price = s.oracle.token_price as int;
            let ar = s.params.allot_ratio as int;
            let k = INIT_STABLE_INDEX as int;
            let t = s.sp.total_usdo_deposits as int;
            let above = ratio >= INIT_NO_LIQUIDATION_FEE_RATE;
            &&& p.gas_compensation == debt * (s.params.gas_compensation_ratio as int) * (STAKE_RATIO_BASE as int) / price
            &&& p.liquidation_fee == if above {
                    debt * (s.params.liquidation_fee_ratio as int) * (STAKE_RATIO_BASE as int) / price
                } else {
                    0
                }
            &&& p.token == allot_token - p.gas_compensation - p.liquidation_fee
            &&& p.surplus_token == p.token - p.sp_allot_token - p.stake_allot_token
            &&& p.reduce_coin == p.sp_allot_coin
            &&& p.reduce_pledge == allot_token - p.stake_allot_token
            &&& p.sys_reduce_token == if t >= debt && t > 0 { 0 } else { allot_token }
            &&& t == 0 ==> {
                &&& p.sp_allot_coin == 0 && p.sp_allot_token == 0
                &&& p.stake_allot_coin == debt
                &&& p.stake_allot_token == if above { debt * ar * k / price } else { p.token as int }
            }
            &&& 0 < t < debt ==> {
                &&& p.sp_allot_coin == t
                &&& p.stake_allot_coin == debt - t
                &&& p.sp_allot_token == if above {
                        t * ar * k / price
                    } else if t * ar * k / price > p.token {
                        p.token as int
                    } else {
                        t * ar * k / price
                    }
                &&& p.stake_allot_token == if above {
                        (debt - t) * ar * k / price
                    } else {
                        p.token - p.sp_allot_token
                    }
            }
            &&& t >= debt && t > 0 ==> {
                &&& p.sp_allot_coin == debt
                &&& p.sp_allot_token == if above { debt * ar * k / price } else { p.token as int }
                &&& p.stake_allot_coin == 0 && p.stake_allot_token == 0
            }
        }),
{
}

/// A position's share of the redistributed debt and collateral is its
/// pledge times the growth of the per-token figures since its own
/// snapshot; a position whose snapshot is the current figures gets nothing.
pub proof fn law_allot_share(p: Position, a: Allot)
    requires
        allot_share(p, a) is Some,
    ensures
        ({
            let (d, t) = allot_share(p, a)->0;
            &&& d == p.token * (a.sys_allot_debt - p.allot.account_allot_debt) / (ONE_TOKEN as int)
            &&& t == p.token * (a.sys_allot_token - p.allot.account_allot_token) / (ONE_TOKEN as int)
            &&& p.allot.account_allot_debt == a.sys_allot_debt ==> d == 0
            &&& p.allot.account_allot_token == a.sys_allot_token ==> t == 0
        }),
{
    let x = p.token as int;
    assert(x * 0 == 0);
    assert(0int / (ONE_TOKEN as int) == 0);
}

/// A position's debt is its minted coins, its guarantee and its share of
/// the redistributed debt; its collateral is its pledge and its share of the
/// redistributed collateral.
pub proof fn law_debt_of(p: Position, a: Allot)
    requires
        debt_spec(p, a) is Some,
    ensures
        ({
            let (d, t, g) = debt_spec(p, a)->0;
            &&& d == p.coin + p.guarantee + p.token * (a.sys_allot_debt - p.allot.account_allot_debt) / (ONE_TOKEN as int)
            &&& t == p.token + p.token * (a.sys_allot_token - p.allot.account_allot_token) / (ONE_TOKEN as int)
            &&& g == p.guarantee
        }),
{
}

/// The reward an account has in a coin is what it had plus what its stake
/// earned as the coin's index grew since its own index: it never loses
/// what it had, and a higher index never gives less.
pub proof fn law_saved_reward(ur: UserReward, c: RewardCoin, c2: RewardCoin, stake: int)
    requires
        saved_spec(ur, c, stake) is Some,
        0 <= stake,
    ensures
        saved_spec(ur, c, stake)->0
            == ur.reward + (c.index - ur.index) * stake / (c.double_scale as int),
        saved_spec(ur, c, stake)->0 >= ur.reward,
        c.index == ur.index ==> saved_spec(ur, c, stake)->0 == ur.reward,
        saved_spec(ur, c2, stake) is Some && c2.double_scale == c.double_scale && c.index <= c2.index
            ==> saved_spec(ur, c, stake)->0 <= saved_spec(ur, c2, stake)->0,
{
    let ds = c.double_scale as int;
    assert(ds > 0);
    assert((c.index - ur.index) * stake >= 0) by (nonlinear_arith)
        requires c.index >= ur.index, stake >= 0;
    vstd::arithmetic::div_mod::lemma_div_pos_is_pos((c.index - ur.index) * stake, ds);
    if c.index == ur.index {
        assert((c.index - ur.index) * stake == 0) by (nonlinear_arith) requires c.index == ur.index;
        assert(0int / ds == 0);
    }
    if saved_spec(ur, c2, stake) is Some && c2.double_scale == c.double_scale && c.index <= c2.index {
        assert((c.index - ur.index) * stake <= (c2.index - ur.index) * stake) by (nonlinear_arith)
            requires c.index <= c2.index, stake >= 0;
        vstd::arithmetic::div_mod::lemma_div_is_ordered((c.index - ur.index) * stake, (c2.index - ur.index) * stake, ds);
    }
}

/// What a position with debt may withdraw keeps it at or above the
/// liquidation line (its coins counted at least at the minimum mint), and
/// one more unit would take it below.
pub proof fn law_available_keeps_line(debt: int, token: int, guarantee: int, unpaid: int, min_mint: int,
    line: int, price: int)
    requires
        available_spec(debt, token, guarantee, unpaid, min_mint, line, price) is Some,
        debt > guarantee,
        0 <= token,
        0 <= guarantee,
        0 <= unpaid,
        0 <= line,
        0 < price,
    ensures
        ({
            let v = available_spec(debt, token, guarantee, unpaid, min_mint, line, price)->0;
            let user_coin = if debt - guarantee < min_mint { min_mint } else { debt - guarantee };
            let coin_usd = (user_coin + guarantee + unpaid) * line * (ONE_TOKEN as int);
            &&& 0 <= v <= token
            &&& v > 0 ==> (token - v) * price * (ONE_COIN as int) >= coin_usd
            &&& v < token ==> (token - (v + 1)) * price * (ONE_COIN as int) < coin_usd
        }),
{
    let v = available_spec(debt, token, guarantee, unpaid, min_mint, line, price)->0;
    let user_coin = if debt - guarantee < min_mint { min_mint } else { debt - guarantee };
    let cu = (user_coin + guarantee + unpaid) * line * (ONE_TOKEN as int);
    let oc = ONE_COIN as int;
    let tu = token * price * oc;
    assert(user_coin + guarantee + unpaid >= 0);
    assert(cu >= 0) by (nonlinear_arith)
        requires
            cu == (user_coin + guarantee + unpaid) * line * (ONE_TOKEN as int),
            user_coin + guarantee + unpaid >= 0,
            line >= 0;
    assert(price * oc > 0) by (nonlinear_arith) requires price > 0, oc == 100_000_000;
    assert((token - v) * price * oc == tu - v * (price * oc)) by (nonlinear_arith)
        requires tu == token * price * oc;
    assert((token - (v + 1)) * price * oc == tu - (v + 1) * (price * oc)) by (nonlinear_arith)
        requires tu == token * price * oc;
    if tu <= cu {
        assert(v == 0);
        assert(tu >= 0) by (nonlinear_arith) requires tu == token * price * oc, token >= 0, price > 0, oc > 0;
        assert((token - (v + 1)) * price * oc < cu) by (nonlinear_arith)
            requires
                (token - (v + 1)) * price * oc == tu - (v + 1) * (price * oc),
                v == 0,
                price * oc > 0,
                tu <= cu;
    } else {
        let x = tu - cu;
        let q1 = x / price;
        assert(v == q1 / oc);
        vstd::arithmetic::div_mod::lemma_fundamental_div_mod(x, price);
        vstd::arithmetic::div_mod::lemma_fundamental_div_mod(q1, oc);
        vstd::arithmetic::div_mod::lemma_mod_bound(x, price);
        vstd::arithmetic::div_mod::lemma_mod_bound(q1, oc);
        vstd::arithmetic::div_mod::lemma_div_pos_is_pos(x, price);
        vstd::arithmetic::div_mod::lemma_div_pos_is_pos(q1, oc);
        assert(v * (price * oc) <= x && x < (v + 1) * (price * oc)) by (nonlinear_arith)
            requires
                x == price * q1 + x % price,
                0 <= x % price < price,
                q1 == oc * v + q1 % oc,
                0 <= q1 % oc < oc,
                price > 0,
                oc > 0,
                v >= 0;
        assert(v <= token) by (nonlinear_arith)
            requires
                v * (price * oc) <= tu,
                tu == token * price * oc,
                price * oc > 0;
    }
}

/// A request has enough confirmations exactly when its confirmations, in
/// hundredths, reach its ratio times the number of administrators it is
/// counted against (the current ones until the vote passed); reaching the
/// ratio exactly is enough.
pub proof fn law_num_enough(s: &OinStake, id: u32)
    requires
        num_enough_spec(s, id) is Some,
    ensures
        ({
            let r = req(s, id);
            let members: int = if r.confirmed_timestamp == 0 {
                s.multisig.mul_white_list.len_spec() as int
            } else {
                r.mul_white_num as int
            };
            num_enough_spec(s, id)->0 <==> conf_keys(s, id).len() * 100 >= r.num_confirm_ratio * members
        }),
{
}

} // verus!
