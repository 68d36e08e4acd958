use oinstake::error::ContractError;
use oinstake::math::{c_add, c_div, c_mul, c_sub};
use oinstake::register::FtOnTransferArgs;
use oinstake::state::{OinStake, ST_NEAR};

const T0: u64 = 1_000_000_000_000;
const BYTE: u128 = 10_000_000_000_000_000_000;
const ONE: u128 = 1_000_000_000_000_000_000_000_000;
const PRICE: u128 = 1_000_000_000;
const DEPOSIT: u128 = 10_000_000_000_000_000_000_000;
const TOKEN_DEPOSIT: u128 = 1_250_000_000_000_000_000_000;

fn s(x: &str) -> String {
    x.to_string()
}

fn fresh() -> OinStake {
    OinStake::new(s("owner.near"), s("oin.near"), T0, 1000, 125)
}

/// bob alone, with 20 tokens pledged and 11 coins minted.
fn bob_alone() -> OinStake {
    let mut st = fresh();
    st.register_account(&s("bob.near"), DEPOSIT, BYTE).unwrap();
    st.poke(&s("owner.near"), PRICE, T0).unwrap();
    st.ft_on_transfer(&s("bob.near"), 20 * ONE, FtOnTransferArgs::DepositToken, &s(ST_NEAR), T0).unwrap();
    st.mint_coin(&s("bob.near"), 11_000_000_000, T0, &s("oin.near"), TOKEN_DEPOSIT, BYTE).unwrap();
    st
}

#[test]
fn arithmetic_refusals() {
    assert_eq!(c_add(u128::MAX, 1), Err(ContractError::AddOverflow));
    assert_eq!(c_sub(0, 1), Err(ContractError::SubOverflow));
    assert_eq!(c_mul(u128::MAX, 2), Err(ContractError::MulOverflow));
    assert_eq!(ContractError::AddOverflow.message(), "ERR_ADD_INSUFFICIENT");
    assert_eq!(ContractError::SubOverflow.message(), "ERR_SUB_INSUFFICIENT");
    assert_eq!(ContractError::MulOverflow.message(), "ERR_MUL_OVERFLOW");
    assert_eq!(ContractError::DivByZero.message(), "ERR_DIV_INSUFFICIENT");
    assert_eq!(c_div(1, 0), Err(ContractError::DivByZero));
    assert_eq!(c_div(7, 2), Ok(3));
}

#[test]
fn deposit_of_nothing_is_refused() {
    let mut st = bob_alone();
    assert_eq!(st.ft_on_transfer(&s("bob.near"), 0, FtOnTransferArgs::DepositToken, &s(ST_NEAR), T0),
        Err(ContractError::DepositAmountZero));
}

#[test]
fn mint_above_the_cap_is_refused() {
    let mut st = bob_alone();
    assert_eq!(st.mint_coin(&s("bob.near"), 3_000_000_000_000_000, T0, &s("oin.near"), 0, BYTE).err(),
        Some(ContractError::ExceededCoinAmount));
}

#[test]
fn withdrawal_above_the_available_is_refused() {
    let mut st = bob_alone();
    let available = st.get_available_token(&s("bob.near"), T0).unwrap();
    assert!(available < 20 * ONE);
    assert_eq!(st.withdraw_token(&s("bob.near"), available + 1, T0).err(),
        Some(ContractError::InsufficientAvailableToken));
}

#[test]
fn liquidation_refusals() {
    let mut st = bob_alone();
    st.register_account(&s("carol.near"), DEPOSIT, BYTE).unwrap();
    assert_eq!(st.liquidation(&s("bob.near"), &s("carol.near"), &s("oin.near"), 0, BYTE, T0),
        Err(ContractError::NoCurrentToken));
    st.poke(&s("owner.near"), 900_000_000, T0).unwrap();
    assert_eq!(st.get_user_ratio(&s("bob.near"), T0), Ok(150_000_000));
    // bob holds every pledged token: nothing is left to take his debt
    assert_eq!(st.liquidation(&s("carol.near"), &s("bob.near"), &s("oin.near"), 0, BYTE, T0),
        Err(ContractError::NoLiquidation));
}

#[test]
fn parameter_refusals() {
    let mut st = bob_alone();
    assert_eq!(st.set_coin_upper_limit(&s("x.near"), &s("oin.near"), 1), Err(ContractError::BelowTotalCoin));
    assert_eq!(st.set_request_cooldown(&s("x.near"), &s("oin.near"), 1), Err(ContractError::IllegalCooldown));
    assert_eq!(st.set_num_confirm_ratio(&s("x.near"), &s("oin.near"), 49), Err(ContractError::IllegalConfirmRatio));
    assert_eq!(st.set_num_confirm_ratio(&s("x.near"), &s("oin.near"), 101), Err(ContractError::IllegalConfirmRatio));
    assert_eq!(st.set_num_confirm_ratio(&s("x.near"), &s("oin.near"), 50), Ok(()));
}

#[test]
fn reward_refusals() {
    let mut st = bob_alone();
    assert_eq!(st.internal_get_account_reward(&s("nobody.near"), &s(ST_NEAR)), Err(ContractError::RewardNotRegistered));
    assert_eq!(st.claim_reward(&s("bob.near"), &s(ST_NEAR), T0).err(), Some(ContractError::RewardZero));
    for i in 0..19 {
        st.add_reward_coin(&s("owner.near"), format!("t{}.near", i), 0, ONE, T0).unwrap();
    }
    assert_eq!(st.add_reward_coin(&s("owner.near"), s("t19.near"), 0, ONE, T0),
        Err(ContractError::RewardSlotsUsedUp));
}

#[test]
fn stability_pool_refusals() {
    let mut st = fresh();
    st.register_account(&s("alice.near"), DEPOSIT, BYTE).unwrap();
    st.token.internal_deposit(&s("alice.near"), 1_000).unwrap();
    st.register_usdo(&s("oin.near"), 0, 0).unwrap();
    st.provide_to_sp(&s("alice.near"), 1_000, &s("oin.near"), T0).unwrap();
    assert_eq!(st.withdraw_from_sp(&s("alice.near"), 0, &s("oin.near"), T0).err(), Some(ContractError::WithdrawZero));
    assert_eq!(st._offset(300, 0, &s("oin.near"), T0), Err(ContractError::OffsetCollateralZero));
}

#[test]
fn reward_injection_refusals() {
    let mut st = bob_alone();
    assert_eq!(st.ft_on_transfer(&s("bob.near"), 500, FtOnTransferArgs::InjectReward, &s(ST_NEAR), T0),
        Err(ContractError::OnlyOwner));
    assert_eq!(st.ft_on_transfer(&s("owner.near"), 500, FtOnTransferArgs::InjectReward, &s(ST_NEAR), T0), Ok(0));
    assert_eq!(st.ft_on_transfer(&s("owner.near"), u128::MAX, FtOnTransferArgs::InjectReward, &s(ST_NEAR), T0),
        Err(ContractError::AddOverflow));
    assert_eq!(st.get_reward_coin(&s(ST_NEAR)), Ok(500));
}
