use oinstake::error::ContractError;
use oinstake::msig::CallOutcome;
use oinstake::msig_types::{MultiSigRequest, MultiSigRequestAction};
use oinstake::register::FtOnTransferArgs;
use oinstake::state::{OinStake, ST_NEAR};

const T0: u64 = 1_000_000_000_000;
const COOL: u64 = 43_200_000_000_000;
const BYTE: u128 = 10_000_000_000_000_000_000;
const ONE: u128 = 1_000_000_000_000_000_000_000_000;

fn s(x: &str) -> String {
    x.to_string()
}

fn fresh() -> OinStake {
    OinStake::new(s("owner.near"), s("oin.near"), T0, 1000, 125)
}

fn one_call() -> MultiSigRequest {
    MultiSigRequest {
        actions: vec![MultiSigRequestAction::FunctionCall {
            method_name: s("set_guarantee"),
            args: vec![1, 2, 3],
            deposit: 0,
            gas: 5,
        }],
    }
}

#[test]
fn whitelist_add_remove() {
    let mut st = fresh();
    assert!(st.is_white(&s("owner.near")));
    assert!(st.is_white(&s("oin.near")));
    assert_eq!(st.white_num(), 2);
    assert_eq!(st.add_white(&s("bob.near"), &s("carol.near")), Err(ContractError::NotAllowed));
    st.add_white(&s("owner.near"), &s("carol.near")).unwrap();
    assert_eq!(st.add_white(&s("owner.near"), &s("carol.near")), Err(ContractError::AlreadyWhite));
    assert_eq!(st.white_num(), 3);
    st.remove_white(&s("owner.near"), &s("carol.near")).unwrap();
    assert_eq!(st.white_num(), 2);
    assert_eq!(st.remove_white(&s("owner.near"), &s("carol.near")), Err(ContractError::NotInWhitelist));
}

#[test]
fn shutdown_and_open() {
    let mut st = fresh();
    assert_eq!(st.outside_shutdown(&s("bob.near")), Err(ContractError::NotAllowed));
    st.outside_shutdown(&s("owner.near")).unwrap();
    assert!(!st.is_deposit_paused());
    assert!(!st.is_liquidate_paused());
    assert!(!st.is_claim_token_paused());
    assert_eq!(st.claim_token(&s("owner.near"), T0).err(), Some(ContractError::SystemPause));
    st.outside_open(&s("owner.near")).unwrap();
    assert!(st.is_deposit_paused());
    assert!(st.is_withdraw_from_sp_paused());
}

#[test]
fn oracle_and_price() {
    let mut st = fresh();
    assert_eq!(st.set_oracle(&s("owner.near"), &s("owner.near")), Err(ContractError::AlreadyOracle));
    st.set_oracle(&s("owner.near"), &s("oracle.near")).unwrap();
    assert_eq!(st.poke(&s("owner.near"), 5, T0), Err(ContractError::NotOracle));
    st.poke(&s("oracle.near"), 123_000_000, T0).unwrap();
    assert_eq!(st.peek(), 123_000_000);
    assert_eq!(st.get_oracle_time(), T0 as u128);
    assert_eq!(st.assert_is_poked(T0 + 172_800_000_000_000), Err(ContractError::PriceNotPoked));
    assert_eq!(st.assert_is_poked(T0 + 1), Ok(()));
}

#[test]
fn parameter_setters() {
    let mut st = fresh();
    let (me, cur) = (s("owner.near"), s("oin.near"));
    assert_eq!(st.set_liquidation_line(&cur, &cur, 170_000_000), Err(ContractError::NotCurrentAccount));
    assert_eq!(st.set_liquidation_line(&me, &cur, 140_000_000), Err(ContractError::AboveMaximumSetting));
    st.set_liquidation_line(&me, &cur, 170_000_000).unwrap();
    assert_eq!(st.get_liquidation_line(), 170_000_000);
    assert_eq!(st.set_allot_ratio(&me, &cur, 99_000_000), Err(ContractError::BelowMinimumSetting));
    st.set_allot_ratio(&me, &cur, 120_000_000).unwrap();
    assert_eq!(st.params.allot_ratio, 120_000_000);
    st.set_coin_upper_limit(&me, &cur, 7).unwrap();
    assert_eq!(st.get_coin_upper_limit(), 7);
    st.set_guarantee(&me, &cur, 42).unwrap();
    assert_eq!(st.get_guarantee_limit(), 42);
    st.set_min_mint_amount(&me, &cur, 9).unwrap();
    assert_eq!(st.min_amount_coin(), 9);
    assert_eq!(st.set_stable_fee_rate(&me, &cur, 5_000_000_000_000_001, T0), Err(ContractError::AboveMaximumSetting));
    st.set_stable_fee_rate(&me, &cur, 300_000_000_000_000, T0).unwrap();
    assert_eq!(st.get_stable_fee_ratio(), 300_000_000_000_000);
    assert_eq!(st.fee.stable_block_number, 1000);
}

#[test]
fn multisig_request_lifecycle() {
    let mut st = fresh();
    let (m1, m2) = (s("m1.near"), s("m2.near"));
    let (pk1, pk2) = (vec![1u8, 1], vec![2u8, 2]);
    st.add_mul_white(&s("owner.near"), &m1).unwrap();
    st.add_mul_white(&s("owner.near"), &m2).unwrap();
    assert_eq!(st.mul_white_num(), 2);
    assert_eq!(st.add_request(&s("x.near"), one_call(), &pk1, T0), Err(ContractError::NotMulWhite));
    assert_eq!(st.add_request(&m1, one_call(), &pk1, T0), Ok(0));
    assert_eq!(st.get_confirmed_num(0), Ok(1));
    assert_eq!(st.is_confirmed(0, &pk1), Ok(true));
    assert_eq!(st.is_num_enough(0), Ok(false));
    assert_eq!(st.req_status(0, T0), Ok(0));
    assert_eq!(st.confirm(&m1, 0, &pk1, T0), Err(ContractError::AlreadyConfirmed));
    st.confirm(&m2, 0, &pk2, T0).unwrap();
    assert_eq!(st.is_num_enough(0), Ok(true));
    assert_eq!(st.req_status(0, T0), Ok(1));
    assert_eq!(st.confirm(&m2, 0, &vec![3u8], T0), Err(ContractError::RequestConfirmed));
    assert_eq!(st.exe_request(&m1, 0, T0).err(), Some(ContractError::RequestNotExecutable));
    let inner = st.exe_request(&m1, 0, T0 + COOL).unwrap();
    assert_eq!(inner.actions.len(), 1);
    assert_eq!(st.req_status(0, T0 + COOL), Ok(2));
    assert_eq!(st.on_function_call(0, CallOutcome::Successful), Ok(true));
    assert_eq!(st.on_function_call(0, CallOutcome::Failed), Ok(false));
    assert_eq!(st.req_status(0, T0 + COOL), Ok(1));
    assert_eq!(st.list_request_ids(), vec![0]);
    assert_eq!(st.get_num_requests_pk(&pk1), 1);
    assert_eq!(st.delete_request(&m1, 0), Err(ContractError::NotAllowed));
    st.delete_request(&s("owner.near"), 0).unwrap();
    assert_eq!(st.list_request_ids(), Vec::<u32>::new());
    assert_eq!(st.get_num_requests_pk(&pk1), 0);
    assert_eq!(st.get_request(0).err(), Some(ContractError::NoRequest));
    assert_eq!(st.confirm(&m1, 0, &pk1, T0), Err(ContractError::NoSuchRequest));
}

#[test]
fn unconfirmed_request_expires() {
    let mut st = fresh();
    st.add_mul_white(&s("owner.near"), &s("m1.near")).unwrap();
    st.add_mul_white(&s("owner.near"), &s("m2.near")).unwrap();
    let id = st.add_request(&s("m1.near"), one_call(), &vec![9u8], T0).unwrap();
    assert_eq!(st.req_status(id, T0 + 259_200_000_000_000), Ok(3));
    assert_eq!(st.req_status(id, T0 + 259_199_999_999_999), Ok(0));
}

#[test]
fn reward_coin_administration() {
    let mut st = fresh();
    let me = s("owner.near");
    st.register_account(&s("alice.near"), 10_000_000_000_000_000_000_000, BYTE).unwrap();
    assert_eq!(st.add_reward_coin(&s("x.near"), s("usdc.near"), 0, ONE, T0), Err(ContractError::NotWhite));
    st.add_reward_coin(&me, s("usdc.near"), 0, ONE, T0).unwrap();
    assert_eq!(st.add_reward_coin(&me, s("usdc.near"), 0, ONE, T0), Err(ContractError::RewardCoinExists));
    assert!(st.get_account_reward(&s("alice.near"), &s("usdc.near")).is_none());
    st.register_other_token(&me, &s("alice.near")).unwrap();
    assert_eq!(st.get_account_reward(&s("alice.near"), &s("usdc.near")).unwrap().index, ONE);
    st.update_reward_token(&me, &s("usdc.near"), s("usdt.near"), 2 * ONE, T0).unwrap();
    assert_eq!(st.internal_get_reward_coin(&s("usdc.near")).unwrap().token, s("usdt.near"));
    st.set_reward_speed(&me, &s("usdc.near"), 7, T0).unwrap();
    assert_eq!(st.internal_get_reward_coin(&s("usdc.near")).unwrap().reward_speed, 7);
    assert_eq!(st.update_reward_token(&me, &s("usdc.near"), s("dai.near"), ONE, T0), Err(ContractError::RewardCoinFixed));
    assert_eq!(st.ft_on_transfer(&me, 500, FtOnTransferArgs::InjectReward, &s("nope.near"), T0),
        Err(ContractError::NoRewardCoin));
    st.ft_on_transfer(&me, 500, FtOnTransferArgs::InjectReward, &s(ST_NEAR), T0).unwrap();
    assert_eq!(st.get_reward_coin(&s(ST_NEAR)), Ok(500));
    assert_eq!(st.extract_reward(&me, &me, 501, &s(ST_NEAR)).err(), Some(ContractError::WithdrawOverflow));
    let t = st.extract_reward(&me, &s("bob.near"), 200, &s(ST_NEAR)).unwrap();
    assert_eq!(t.amount, 200);
    assert_eq!(t.token_contract, s(ST_NEAR));
    assert_eq!(st.get_reward_coin(&s(ST_NEAR)), Ok(300));
    st.on_extract_reward(&s(ST_NEAR), 200, false).unwrap();
    assert_eq!(st.get_reward_coin(&s(ST_NEAR)), Ok(500));
    assert_eq!(st.claim_liquidation_fee(&me).err(), Some(ContractError::FeeNotEnough));
    let call = st.reward_stake_storage_deposit(&s("alice.near"), &s("usdc.near"), 77).unwrap();
    assert_eq!(call.token_contract, s("usdt.near"));
    assert_eq!(call.amount, 77);
}

#[test]
fn set_owner_registers_new_owner() {
    let mut st = fresh();
    assert_eq!(st.set_owner(&s("bob.near"), &s("carol.near"), 0, BYTE), Err(ContractError::NotAllowed));
    assert_eq!(st.set_owner(&s("owner.near"), &s("carol.near"), 10_000_000_000_000_000_000_000, BYTE),
        Ok(8_750_000_000_000_000_000_000));
    assert_eq!(st.get_owner(), s("carol.near"));
    assert!(st.is_register(&s("carol.near")));
}
