use oinstake::error::ContractError;
use oinstake::ledger::TokenLedger;
use oinstake::msig_types::MultiSigRequest;
use oinstake::register::FtOnTransferArgs;
use oinstake::state::{OinStake, ST_NEAR};

const T0: u64 = 1_000_000_000_000;
const BYTE: u128 = 10_000_000_000_000_000_000;
const ONE: u128 = 1_000_000_000_000_000_000_000_000;
const DP: u128 = 1_000_000_000_000_000_000_000_000;

fn s(x: &str) -> String {
    x.to_string()
}

fn fresh() -> OinStake {
    OinStake::new(s("owner.near"), s("oin.near"), T0, 1000, 125)
}

#[test]
fn liquidation_plan_adds_up() {
    let mut st = fresh();
    st.poke(&s("owner.near"), 900_000_000, T0).unwrap();
    for (ratio, debt, t, pool) in [
        (150_000_000u128, 12_000_000_000u128, 20 * ONE, 0u128),
        (105_000_000, 12_000_000_000, 20 * ONE, 5_000_000_000),
        (150_000_000, 12_000_000_000, 20 * ONE, 30_000_000_000),
    ] {
        st.sp.total_usdo_deposits = pool;
        let p = st.liquidation_plan(ratio, debt, t).unwrap();
        assert_eq!(p.gas_compensation + p.liquidation_fee + p.sp_allot_token + p.stake_allot_token + p.surplus_token, t);
        assert_eq!(p.sp_allot_coin + p.stake_allot_coin, debt);
        assert_eq!(p.reduce_pledge + p.stake_allot_token, t);
    }
}

#[test]
fn transfer_conserves_balances() {
    let mut l = TokenLedger::new(0);
    l.internal_register_account(&s("a")).unwrap();
    l.internal_register_account(&s("b")).unwrap();
    l.internal_register_account(&s("c")).unwrap();
    l.internal_deposit(&s("a"), 90).unwrap();
    l.internal_deposit(&s("c"), 7).unwrap();
    l.internal_transfer(&s("a"), &s("b"), 33).unwrap();
    assert_eq!(l.ft_balance_of(&s("a")) + l.ft_balance_of(&s("b")), 90);
    assert_eq!(l.ft_balance_of(&s("c")), 7);
}

#[test]
fn mint_then_burn_restores() {
    let mut st = fresh();
    st.register_usdo(&s("a.near"), 0, 0).unwrap();
    st.internal_mint(&s("a.near"), 5, 0, 0).unwrap();
    let before = (st.get_usdo_balance(&s("a.near")), st.token.total_supply);
    st.internal_mint(&s("a.near"), 1234, 0, 0).unwrap();
    st.internal_burn(&s("a.near"), 1234).unwrap();
    assert_eq!((st.get_usdo_balance(&s("a.near")), st.token.total_supply), before);
}

#[test]
fn whitelist_add_then_remove_restores() {
    let mut st = fresh();
    st.add_white(&s("owner.near"), &s("z.near")).unwrap();
    st.remove_white(&s("owner.near"), &s("z.near")).unwrap();
    assert!(!st.is_white(&s("z.near")));
    assert_eq!(st.white_num(), 2);
    assert!(st.is_white(&s("owner.near")));
}

#[test]
fn shutdown_refuses_every_operation() {
    let mut st = fresh();
    st.register_account(&s("alice.near"), 10_000_000_000_000_000_000_000, BYTE).unwrap();
    st.poke(&s("owner.near"), 1_000_000_000, T0).unwrap();
    st.internal_shutdown();
    let a = s("alice.near");
    let cur = s("oin.near");
    assert_eq!(st.ft_on_transfer(&a, ONE, FtOnTransferArgs::DepositToken, &s(ST_NEAR), T0), Err(ContractError::SystemPause));
    assert_eq!(st.withdraw_token(&a, 1, T0).err(), Some(ContractError::SystemPause));
    assert_eq!(st.mint_coin(&a, 1, T0, &cur, 0, BYTE).err(), Some(ContractError::SystemPause));
    assert_eq!(st.burn_coin(&a, 1, T0), Err(ContractError::SystemPause));
    assert_eq!(st.claim_reward(&a, &s(ST_NEAR), T0).err(), Some(ContractError::SystemPause));
    assert_eq!(st.liquidation(&a, &a, &cur, 0, BYTE, T0), Err(ContractError::SystemPause));
    assert_eq!(st.provide_to_sp(&a, 1, &cur, T0).err(), Some(ContractError::SystemPause));
    assert_eq!(st.withdraw_from_sp(&a, 1, &cur, T0).err(), Some(ContractError::SystemPause));
    assert_eq!(st.claim_token(&a, T0).err(), Some(ContractError::SystemPause));
    st.internal_open();
    assert!(st.is_deposit_paused() && st.is_claim_token_paused() && st.is_liquidate_paused());
}

#[test]
fn fee_index_grows_with_time() {
    let mut st = fresh();
    st.update_stable_system_index(T0).unwrap();
    assert_eq!(st.fee.stable_block_number, 1000);
    st.total_coin = 50_000_000_000;
    let before = (st.fee.stable_index, st.fee.total_unpaid_stable_fee);
    st.update_stable_system_index(T0 + 31_536_000_000_000_000).unwrap();
    assert_eq!(st.fee.stable_index, before.0 + 200_000_000_000_000);
    assert_eq!(st.fee.total_unpaid_stable_fee, before.1 + 1_000_000_000);
    assert_eq!(st.fee.stable_block_number, 1000 + 31_536_000);
}

#[test]
fn product_and_deposit_stay_bounded() {
    let mut st = fresh();
    st.register_account(&s("alice.near"), 10_000_000_000_000_000_000_000, BYTE).unwrap();
    st.token.internal_deposit(&s("alice.near"), 1_000).unwrap();
    st.register_usdo(&s("oin.near"), 0, 0).unwrap();
    st.provide_to_sp(&s("alice.near"), 1_000, &s("oin.near"), T0).unwrap();
    for _ in 0..3 {
        st._offset(300, 10, &s("oin.near"), T0).unwrap();
        assert!(st.sp.p_system <= DP);
        let worth = st.get_compounded_usdo_deposit(&s("alice.near")).unwrap();
        assert!(worth <= 1_000);
    }
    assert_eq!(st.get_total_usdo_deposits(), 100);
}

#[test]
fn claim_never_exceeds_reward_pool() {
    let mut st = fresh();
    st.register_account(&s("alice.near"), 10_000_000_000_000_000_000_000, BYTE).unwrap();
    st.token.internal_deposit(&s("alice.near"), 1_000_000).unwrap();
    st.register_usdo(&s("oin.near"), 0, 0).unwrap();
    st.provide_to_sp(&s("alice.near"), 1_000_000, &s("oin.near"), T0).unwrap();
    st.sp.reward_sp = 10;
    let ts = st.claim_token(&s("alice.near"), T0 + 5_000_000_000).unwrap();
    assert_eq!(ts.len(), 1);
    assert_eq!(ts[0].amount, 10);
    assert_eq!(st.get_reward_sp(), 0);
    assert_eq!(st.get_depositor_block_near_gain(&s("alice.near"), T0 + 5_000_000_000), Ok(5_000_000 - 10));
}

#[test]
fn listing_then_unlisting_restores() {
    let mut st = fresh();
    st._vault_init(&s("a.near"));
    st._vault_init(&s("b.near"));
    st._vault_init(&s("c.near"));
    st._vault_remove(&s("c.near")).unwrap();
    assert_eq!(st.list_liqutations(), vec![s("a.near"), s("b.near")]);
    st._vault_remove(&s("a.near")).unwrap();
    assert_eq!(st.list_liqutations(), vec![s("b.near")]);
}

#[test]
fn a_key_confirms_once() {
    let mut st = fresh();
    st.add_mul_white(&s("owner.near"), &s("m.near")).unwrap();
    st.add_mul_white(&s("owner.near"), &s("n.near")).unwrap();
    let id = st.add_request(&s("m.near"), MultiSigRequest { actions: vec![] }, &vec![7u8], T0).unwrap();
    assert_eq!(st.confirm(&s("n.near"), id, &vec![7u8], T0), Err(ContractError::AlreadyConfirmed));
    assert_eq!(st.get_confirmed_num(id), Ok(1));
}

#[test]
fn failed_payouts_are_credited_back() {
    let mut st = fresh();
    assert_eq!(st.ft_on_transfer(&s("owner.near"), 500, FtOnTransferArgs::InjectReward, &s(ST_NEAR), T0), Ok(0));
    assert_eq!(st.get_reward_coin(&s(ST_NEAR)), Ok(500));
    let t = st.extract_reward(&s("owner.near"), &s("bob.near"), 200, &s(ST_NEAR)).unwrap();
    assert_eq!(t.amount, 200);
    assert_eq!(st.get_reward_coin(&s(ST_NEAR)), Ok(300));
    st.on_extract_reward(&s(ST_NEAR), 200, false).unwrap();
    assert_eq!(st.get_reward_coin(&s(ST_NEAR)), Ok(500));
    st.total_liquidation_fee = 77;
    let t = st.claim_liquidation_fee(&s("owner.near")).unwrap();
    assert_eq!(t.amount, 77);
    assert_eq!(st.get_total_liquidation_fee(), 0);
    st.on_claim_liquidation_fee_callback(77, false).unwrap();
    assert_eq!(st.get_total_liquidation_fee(), 77);
}

#[test]
fn total_guarantee_is_what_positions_hold() {
    let byte: u128 = BYTE;
    let mut st = fresh();
    st.poke(&s("owner.near"), 1_000_000_000, T0).unwrap();
    for a in ["alice.near", "bob.near"] {
        st.register_account(&s(a), 10_000_000_000_000_000_000_000, byte).unwrap();
        st.ft_on_transfer(&s(a), 20 * ONE, FtOnTransferArgs::DepositToken, &s(ST_NEAR), T0).unwrap();
    }
    let held = |st: &OinStake| {
        st.external_get_dept(&s("alice.near")).unwrap().2 + st.external_get_dept(&s("bob.near")).unwrap().2
    };
    assert_eq!(st.total_guarantee, 2_000_000_000);
    assert_eq!(st.total_guarantee, held(&st));
    let t = st.withdraw_token(&s("alice.near"), 20 * ONE, T0).unwrap();
    assert_eq!(st.total_guarantee, 1_000_000_000);
    assert_eq!(st.total_guarantee, held(&st));
    st.after_withdraw_token(&s("alice.near"), t.amount, 1_000_000_000, false).unwrap();
    assert_eq!(st.total_guarantee, 2_000_000_000);
    assert_eq!(st.total_guarantee, held(&st));
}

#[test]
fn failed_withdrawal_relists_among_others() {
    let mut st = fresh();
    st.poke(&s("owner.near"), 1_000_000_000, T0).unwrap();
    for a in ["alice.near", "bob.near", "carol.near"] {
        st.register_account(&s(a), 10_000_000_000_000_000_000_000, BYTE).unwrap();
        st.ft_on_transfer(&s(a), 20 * ONE, FtOnTransferArgs::DepositToken, &s(ST_NEAR), T0).unwrap();
    }
    assert_eq!(st.list_liqutations(), vec![s("alice.near"), s("bob.near"), s("carol.near")]);
    let t = st.withdraw_token(&s("alice.near"), 20 * ONE, T0).unwrap();
    assert_eq!(st.list_liqutations(), vec![s("carol.near"), s("bob.near")]);
    st.after_withdraw_token(&s("alice.near"), t.amount, 1_000_000_000, false).unwrap();
    assert_eq!(st.list_liqutations(), vec![s("carol.near"), s("bob.near"), s("alice.near")]);
    let t = st.withdraw_token(&s("bob.near"), 20 * ONE, T0).unwrap();
    assert_eq!(t.amount, 20 * ONE);
    assert_eq!(st.list_liqutations(), vec![s("carol.near"), s("alice.near")]);
}

#[test]
fn poked_price_is_read_back() {
    let mut st = fresh();
    st.poke(&s("owner.near"), 777, T0).unwrap();
    assert_eq!(st.peek(), 777);
}
