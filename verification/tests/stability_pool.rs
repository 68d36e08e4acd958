use oinstake::actions::Callback;
use oinstake::error::ContractError;
use oinstake::register::FtOnTransferArgs;
use oinstake::state::{OinStake, ST_NEAR, ST_OIN};

const T0: u64 = 1_000_000_000_000;
const T2: u64 = 1_100_000_000_000;
const BYTE: u128 = 10_000_000_000_000_000_000;
const ONE: u128 = 1_000_000_000_000_000_000_000_000;

fn s(x: &str) -> String {
    x.to_string()
}

/// alice deposits 30 000 000 000 in the pool, then bob's debt of
/// 12 000 000 000 is offset against it for 14.4 tokens.
fn after_offset() -> OinStake {
    let mut st = OinStake::new(s("owner.near"), s("oin.near"), T0, 1000, 125);
    st.register_account(&s("alice.near"), 10_000_000_000_000_000_000_000, BYTE).unwrap();
    st.register_account(&s("bob.near"), 10_000_000_000_000_000_000_000, BYTE).unwrap();
    st.register_usdo(&s("owner.near"), 1_250_000_000_000_000_000_000, BYTE).unwrap();
    st.poke(&s("owner.near"), 1_000_000_000, T0).unwrap();
    st.ft_on_transfer(&s("alice.near"), 100 * ONE, FtOnTransferArgs::DepositToken, &s(ST_NEAR), T0).unwrap();
    st.mint_coin(&s("alice.near"), 50_000_000_000, T0, &s("oin.near"), 1_250_000_000_000_000_000_000, BYTE).unwrap();
    st.token.internal_transfer(&s("oin.near"), &s("alice.near"), 50_000_000_000).unwrap();
    st.ft_on_transfer(&s("bob.near"), 20 * ONE, FtOnTransferArgs::DepositToken, &s(ST_NEAR), T0).unwrap();
    st.mint_coin(&s("bob.near"), 11_000_000_000, T0, &s("oin.near"), 0, BYTE).unwrap();
    st.token.internal_transfer(&s("oin.near"), &s("bob.near"), 11_000_000_000).unwrap();
    st.provide_to_sp(&s("alice.near"), 30_000_000_000, &s("oin.near"), T0).unwrap();
    st.poke(&s("owner.near"), 900_000_000, T0).unwrap();
    st.liquidation(&s("alice.near"), &s("bob.near"), &s("oin.near"), 0, BYTE, T0).unwrap();
    st
}

#[test]
fn provide_refusals() {
    let mut st = after_offset();
    assert_eq!(st.provide_to_sp(&s("alice.near"), 0, &s("oin.near"), T0).err(), Some(ContractError::ProvideZero));
    st.pause_provide_to_sp();
    assert_eq!(st.provide_to_sp(&s("alice.near"), 1, &s("oin.near"), T0).err(), Some(ContractError::SystemPause));
}

#[test]
fn claim_pays_collateral_gain() {
    let mut st = after_offset();
    let ts = st.claim_token(&s("alice.near"), T0).unwrap();
    assert_eq!(ts.len(), 1);
    assert_eq!(ts[0].amount, 14_400_000_000_000_000_000_000_000);
    assert_eq!(ts[0].token_contract, s(ST_NEAR));
    assert!(matches!(ts[0].callback, Callback::OnClaimDisReward { amount: 14_400_000_000_000_000_000_000_000, .. }));
    assert_eq!(st.sp.total_token_sp, 0);
    assert_eq!(st.get_compounded_usdo_deposit(&s("alice.near")), Ok(17_999_999_999));
    assert_eq!(st.sp.get_depositor_near_gain(&s("alice.near")), Ok(0));
    st.sp.on_claim_dis_reward(&s("alice.near"), 14_400_000_000_000_000_000_000_000, false).unwrap();
    assert_eq!(st.sp.total_token_sp, 14_400_000_000_000_000_000_000_000);
    assert_eq!(st.sp.get_depositor_near_gain(&s("alice.near")), Ok(14_400_000_000_000_000_000_000_000));
}

#[test]
fn mining_reward_accrues_and_is_paid_within_pool() {
    let mut st = after_offset();
    st.claim_token(&s("alice.near"), T0).unwrap();
    assert_eq!(st.get_depositor_block_near_gain(&s("alice.near"), T2), Ok(99_999_999));
    assert_eq!(st.ft_on_transfer(&s("alice.near"), 50_000_000, FtOnTransferArgs::InjectSpReward, &s(ST_OIN), T2),
        Err(ContractError::OnlyOwner));
    assert_eq!(st.ft_on_transfer(&s("owner.near"), 50_000_000, FtOnTransferArgs::InjectSpReward, &s("x.near"), T2),
        Err(ContractError::OnlySupportOin));
    st.ft_on_transfer(&s("owner.near"), 50_000_000, FtOnTransferArgs::InjectSpReward, &s(ST_OIN), T2).unwrap();
    assert_eq!(st.get_reward_sp(), 50_000_000);
    let ts = st.claim_token(&s("alice.near"), T2).unwrap();
    assert_eq!(ts.len(), 1);
    assert_eq!(ts[0].amount, 50_000_000);
    assert_eq!(ts[0].token_contract, s(ST_OIN));
    assert_eq!(st.get_reward_sp(), 0);
    assert_eq!(st.get_depositor_block_near_gain(&s("alice.near"), T2), Ok(49_999_999));
    st.sp.on_claim_min_reward(&s("alice.near"), 50_000_000, 0, false).unwrap();
    assert_eq!(st.get_reward_sp(), 50_000_000);
    assert_eq!(st.get_depositor_block_near_gain(&s("alice.near"), T2), Ok(99_999_999));
}

#[test]
fn failed_withdrawal_is_undone() {
    let mut st = after_offset();
    st.claim_token(&s("alice.near"), T0).unwrap();
    assert_eq!(st.withdraw_from_sp(&s("alice.near"), 20_000_000_000, &s("oin.near"), T2).err(),
        Some(ContractError::WithdrawTooLarge));
    assert_eq!(st.withdraw_from_sp(&s("carol.near"), 1, &s("oin.near"), T2).err(), Some(ContractError::NotLegalGet));
    let (ts, t) = st.withdraw_from_sp(&s("alice.near"), 10_000_000_000, &s("oin.near"), T2).unwrap();
    assert!(ts.is_empty());
    assert_eq!(t.amount, 10_000_000_000);
    assert_eq!(t.token_contract, s("oin.near"));
    assert_eq!(st.get_total_usdo_deposits(), 8_000_000_000);
    assert_eq!(st.get_compounded_usdo_deposit(&s("alice.near")), Ok(7_999_999_999));
    let g = st.sp.g_at(0, 0).unwrap();
    assert_eq!(g.g_block_num, 1100);
    assert_eq!(g.g_system.lo, 3_333_333_333_333_333_333_333);
    match t.callback {
        Callback::OnWithdrawUsdo { receiver_id, amount, cha_g_bn, cha_g_system, target_scale, target_epoch,
            before_deposits, before_snap } => {
            assert_eq!(receiver_id, s("alice.near"));
            assert_eq!(amount, 10_000_000_000);
            assert_eq!(cha_g_bn, 0);
            assert_eq!(cha_g_system.lo, 0);
            assert_eq!((target_scale, target_epoch), (0, 0));
            assert_eq!(before_deposits, 17_999_999_999);
            st.sp.on_withdraw_usdo(&receiver_id, amount, cha_g_bn, cha_g_system, target_scale, target_epoch,
                before_deposits, before_snap, false).unwrap();
        },
        _ => panic!("wrong callback"),
    }
    assert_eq!(st.get_total_usdo_deposits(), 18_000_000_000);
    assert_eq!(st.get_compounded_usdo_deposit(&s("alice.near")), Ok(17_999_999_999));
}

#[test]
fn owner_withdraws_mining_rewards() {
    let mut st = after_offset();
    st.ft_on_transfer(&s("owner.near"), 70, FtOnTransferArgs::InjectSpReward, &s(ST_OIN), T0).unwrap();
    assert_eq!(st.withdraw_sp_reward(&s("alice.near"), 10).err(), Some(ContractError::NotAllowed));
    assert_eq!(st.withdraw_sp_reward(&s("owner.near"), 71).err(), Some(ContractError::SpRewardTooLarge));
    let t = st.withdraw_sp_reward(&s("owner.near"), 30).unwrap();
    assert_eq!(t.amount, 30);
    assert_eq!(st.get_reward_sp(), 40);
    st.sp.on_withdraw_sp_reward(30, false).unwrap();
    assert_eq!(st.get_reward_sp(), 70);
}

#[test]
fn emptying_the_pool_starts_an_epoch() {
    let mut st = after_offset();
    let total = st.get_total_usdo_deposits();
    st.token.internal_deposit(&s("oin.near"), total).unwrap();
    st._offset(total, 1, &s("oin.near"), T2).unwrap();
    assert_eq!(st.sp.current_epoch, 1);
    assert_eq!(st.sp.current_scale, 0);
    assert_eq!(st.sp.p_system, 1_000_000_000_000_000_000_000_000);
    assert_eq!(st.get_total_usdo_deposits(), 0);
    assert_eq!(st.get_compounded_usdo_deposit(&s("alice.near")), Ok(0));
    assert_eq!(st._offset(0, 1, &s("oin.near"), T2), Err(ContractError::OffsetDebtZero));
    assert_eq!(st._offset(1, 1, &s("oin.near"), T2), Err(ContractError::OffsetDebtTooLarge));
}
