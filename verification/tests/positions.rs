use oinstake::actions::Callback;
use oinstake::error::ContractError;
use oinstake::register::FtOnTransferArgs;
use oinstake::state::{OinStake, ST_NEAR, ST_OIN};

const T0: u64 = 1_000_000_000_000;
const BYTE: u128 = 10_000_000_000_000_000_000;
const ONE: u128 = 1_000_000_000_000_000_000_000_000;
const PRICE: u128 = 1_000_000_000;

fn s(x: &str) -> String {
    x.to_string()
}

fn fresh() -> OinStake {
    OinStake::new(s("owner.near"), s("oin.near"), T0, 1000, 125)
}

/// alice with 100 tokens pledged at price 10.
fn with_alice() -> OinStake {
    let mut st = fresh();
    assert_eq!(st.register_account(&s("alice.near"), 10_000_000_000_000_000_000_000, BYTE), Ok(8_750_000_000_000_000_000_000));
    st.poke(&s("owner.near"), PRICE, T0).unwrap();
    assert_eq!(st.ft_on_transfer(&s("alice.near"), 100 * ONE, FtOnTransferArgs::DepositToken, &s(ST_NEAR), T0), Ok(0));
    st
}

#[test]
fn register_account_once() {
    let mut st = fresh();
    assert_eq!(st.register_account(&s("alice.near"), 10_000_000_000_000_000_000_000, BYTE), Ok(8_750_000_000_000_000_000_000));
    assert!(st.is_register(&s("alice.near")));
    assert_eq!(st.register_account(&s("alice.near"), 10_000_000_000_000_000_000_000, BYTE), Err(ContractError::AlreadyRegistered));
    assert_eq!(st.register_account(&s("bob.near"), 1_000_000_000_000_000_000_000, BYTE), Err(ContractError::StorageNotEnough));
    assert_eq!(st.get_usdo_balance(&s("alice.near")), 0);
    assert_eq!(st.get_compounded_usdo_deposit(&s("alice.near")), Ok(0));
}

#[test]
fn first_deposit_reserves_guarantee() {
    let st = with_alice();
    assert_eq!(st.get_total_token(), 100 * ONE);
    assert_eq!(st.total_guarantee, 1_000_000_000);
    assert_eq!(st.external_get_dept(&s("alice.near")), Ok((1_000_000_000, 100 * ONE, 1_000_000_000)));
    assert_eq!(st.list_liqutations(), vec![s("alice.near")]);
    assert_eq!(st.min_amount_token(), Ok(17_600_000_000_000_000_000_000_000));
}

#[test]
fn deposit_refusals() {
    let mut st = with_alice();
    assert_eq!(st.ft_on_transfer(&s("alice.near"), ONE, FtOnTransferArgs::DepositToken, &s("other.near"), T0),
        Err(ContractError::OnlySupportStNear));
    assert_eq!(st.ft_on_transfer(&s("carol.near"), ONE, FtOnTransferArgs::DepositToken, &s(ST_NEAR), T0),
        Err(ContractError::NotRegistered));
    let mut st2 = fresh();
    st2.register_account(&s("bob.near"), 10_000_000_000_000_000_000_000, BYTE).unwrap();
    st2.poke(&s("owner.near"), PRICE, T0).unwrap();
    assert_eq!(st2.ft_on_transfer(&s("bob.near"), ONE, FtOnTransferArgs::DepositToken, &s(ST_NEAR), T0),
        Err(ContractError::DepositBelowMinimum));
    st.pause_deposit();
    assert_eq!(st.ft_on_transfer(&s("alice.near"), ONE, FtOnTransferArgs::DepositToken, &s(ST_NEAR), T0),
        Err(ContractError::SystemPause));
}

#[test]
fn mint_and_ratios() {
    let mut st = with_alice();
    assert_eq!(st.get_user_ratio(&s("alice.near"), T0), Ok(10_000_000_000));
    assert_eq!(st.get_available_coin(&s("alice.near"), T0), Ok(61_500_000_000));
    assert_eq!(st.mint_coin(&s("alice.near"), 5_000_000_000, T0, &s("oin.near"), 1_250_000_000_000_000_000_000, BYTE).err(),
        Some(ContractError::BelowMinimumMint));
    assert_eq!(st.mint_coin(&s("alice.near"), 70_000_000_000, T0, &s("oin.near"), 1_250_000_000_000_000_000_000, BYTE).err(),
        Some(ContractError::InsufficientAmount));
    let (t, refund) = st.mint_coin(&s("alice.near"), 50_000_000_000, T0, &s("oin.near"), 1_250_000_000_000_000_000_000, BYTE).unwrap();
    assert_eq!(refund, 0);
    assert_eq!(t.amount, 50_000_000_000);
    assert_eq!(t.receiver_id, s("alice.near"));
    assert_eq!(t.token_contract, s("oin.near"));
    assert!(matches!(t.callback, Callback::OnMintTransfer { amount: 50_000_000_000, .. }));
    assert_eq!(st.get_total_coin(), 50_000_000_000);
    assert_eq!(st.get_usdo_balance(&s("oin.near")), 50_000_000_000);
    assert_eq!(st.get_user_ratio(&s("alice.near"), T0), Ok(196_078_431));
}

#[test]
fn failed_mint_transfer_is_undone() {
    let mut st = with_alice();
    st.mint_coin(&s("alice.near"), 50_000_000_000, T0, &s("oin.near"), 1_250_000_000_000_000_000_000, BYTE).unwrap();
    st.on_mint_transfer(&s("alice.near"), 50_000_000_000, &s("oin.near"), false).unwrap();
    assert_eq!(st.get_total_coin(), 0);
    assert_eq!(st.get_usdo_balance(&s("oin.near")), 0);
    assert_eq!(st.external_get_dept(&s("alice.near")), Ok((1_000_000_000, 100 * ONE, 1_000_000_000)));
}

#[test]
fn burn_pays_fee_first() {
    let mut st = with_alice();
    st.register_usdo(&s("owner.near"), 1_250_000_000_000_000_000_000, BYTE).unwrap();
    st.mint_coin(&s("alice.near"), 50_000_000_000, T0, &s("oin.near"), 1_250_000_000_000_000_000_000, BYTE).unwrap();
    st.token.internal_transfer(&s("oin.near"), &s("alice.near"), 50_000_000_000).unwrap();
    let t1 = T0 + 31_536_000 * 1_000_000_000;
    st.poke(&s("owner.near"), PRICE, t1).unwrap();
    assert_eq!(st.get_user_unpaid_stable(&s("alice.near"), t1), Ok(1_000_000_000));
    st.burn_coin(&s("alice.near"), 10_000_000_000, t1).unwrap();
    assert_eq!(st.get_usdo_balance(&s("alice.near")), 40_000_000_000);
    assert_eq!(st.get_usdo_balance(&s("owner.near")), 1_000_000_000);
    assert_eq!(st.get_total_coin(), 41_000_000_000);
    assert_eq!(st.get_total_stable_fee(), 1_000_000_000);
    assert_eq!(st.fee.total_unpaid_stable_fee, 0);
    assert_eq!(st.burn_coin(&s("alice.near"), 35_000_000_000, t1), Err(ContractError::ReturnAllCoins));
    assert_eq!(st.burn_coin(&s("alice.near"), 50_000_000_000, t1), Err(ContractError::LackOfBalance));
}

#[test]
fn withdraw_everything_releases_guarantee() {
    let mut st = with_alice();
    let t = st.withdraw_token(&s("alice.near"), 90 * ONE, T0).unwrap();
    assert_eq!(t.amount, 100 * ONE);
    assert_eq!(t.token_contract, s(ST_NEAR));
    assert!(matches!(t.callback, Callback::AfterWithdrawToken { guarantee: 1_000_000_000, .. }));
    assert_eq!(st.get_total_token(), 0);
    assert_eq!(st.total_guarantee, 0);
    assert_eq!(st.list_liqutations(), Vec::<String>::new());
    st.after_withdraw_token(&s("alice.near"), 100 * ONE, 1_000_000_000, false).unwrap();
    assert_eq!(st.get_total_token(), 100 * ONE);
    assert_eq!(st.total_guarantee, 1_000_000_000);
    assert_eq!(st.list_liqutations(), vec![s("alice.near")]);
}

fn with_bob_at_risk() -> OinStake {
    let mut st = with_alice();
    st.mint_coin(&s("alice.near"), 50_000_000_000, T0, &s("oin.near"), 1_250_000_000_000_000_000_000, BYTE).unwrap();
    st.token.internal_transfer(&s("oin.near"), &s("alice.near"), 50_000_000_000).unwrap();
    st.register_account(&s("bob.near"), 10_000_000_000_000_000_000_000, BYTE).unwrap();
    st.ft_on_transfer(&s("bob.near"), 20 * ONE, FtOnTransferArgs::DepositToken, &s(ST_NEAR), T0).unwrap();
    st.mint_coin(&s("bob.near"), 11_000_000_000, T0, &s("oin.near"), 0, BYTE).unwrap();
    st.token.internal_transfer(&s("oin.near"), &s("bob.near"), 11_000_000_000).unwrap();
    st.poke(&s("owner.near"), 900_000_000, T0).unwrap();
    st
}

#[test]
fn liquidation_spreads_over_pledges() {
    let mut st = with_bob_at_risk();
    assert_eq!(st.get_user_ratio(&s("bob.near"), T0), Ok(150_000_000));
    assert_eq!(st.liquidation(&s("carol.near"), &s("bob.near"), &s("oin.near"), 0, BYTE, T0),
        Err(ContractError::NotRegistered));
    assert_eq!(st.liquidation(&s("bob.near"), &s("alice.near"), &s("oin.near"), 0, BYTE, T0),
        Err(ContractError::NotAtClearingLine));
    let plan = st.liquidation_plan(150_000_000, 12_000_000_000, 20 * ONE).unwrap();
    assert_eq!(plan.gas_compensation, 66_666_666_666_666_666_666_666);
    assert_eq!(plan.liquidation_fee, 266_666_666_666_666_666_666_666);
    assert_eq!(plan.stake_allot_token, 14_400_000_000_000_000_000_000_000);
    assert_eq!(plan.surplus_token, 5_266_666_666_666_666_666_666_668);
    assert_eq!(st.liquidation(&s("alice.near"), &s("bob.near"), &s("oin.near"), 0, BYTE, T0), Ok(0));
    assert_eq!(st.external_get_dept(&s("bob.near")), Ok((0, 0, 0)));
    assert_eq!(st.get_total_token(), 114_400_000_000_000_000_000_000_000);
    assert_eq!(st.get_total_coin(), 62_000_000_000);
    assert_eq!(st.total_guarantee, 1_000_000_000);
    assert_eq!(st.get_total_liquidation_fee(), 266_666_666_666_666_666_666_666);
    assert_eq!(st.get_usdo_balance(&s("alice.near")), 51_000_000_000);
    assert_eq!(st.get_account_allot(&s("alice.near")), Ok((12_000_000_000, 14_400_000_000_000_000_000_000_000)));
    assert_eq!(st.get_sys_ratio(T0), Ok(163_428_571));
    assert_eq!(st.list_liqutations(), vec![s("alice.near")]);
    assert_eq!(st.get_account_reward(&s("alice.near"), &s(ST_NEAR)).unwrap().reward, 66_666_666_666_666_666_666_666);
    assert_eq!(st.get_account_reward(&s("bob.near"), &s(ST_NEAR)).unwrap().reward, 5_266_666_666_666_666_666_666_668);
    assert_eq!(st.is_liquidate_paused(), true);
    let _ = ST_OIN;
}

#[test]
fn liquidation_offsets_against_stability_pool() {
    let mut st = with_bob_at_risk();
    let ts = st.provide_to_sp(&s("alice.near"), 30_000_000_000, &s("oin.near"), T0).unwrap();
    assert!(ts.is_empty());
    assert_eq!(st.get_total_usdo_deposits(), 30_000_000_000);
    assert_eq!(st.liquidation(&s("alice.near"), &s("bob.near"), &s("oin.near"), 0, BYTE, T0), Ok(0));
    assert_eq!(st.get_total_usdo_deposits(), 18_000_000_000);
    assert_eq!(st.sp.total_token_sp, 14_400_000_000_000_000_000_000_000);
    assert_eq!(st.sp.p_system, 599_999_999_999_999_999_999_999);
    assert_eq!(st.sp.last_usdo_loss_error_offset, 30_000_000_000);
    assert_eq!(st.get_compounded_usdo_deposit(&s("alice.near")), Ok(17_999_999_999));
    assert_eq!(st.sp.get_depositor_near_gain(&s("alice.near")), Ok(14_400_000_000_000_000_000_000_000));
    assert_eq!(st.get_total_token(), 100 * ONE);
    assert_eq!(st.get_total_coin(), 50_000_000_000);
    assert_eq!(st.get_usdo_balance(&s("oin.near")), 18_000_000_000);
}
