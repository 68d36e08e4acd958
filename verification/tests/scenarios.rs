use oinstake::error::ContractError;
use oinstake::register::FtOnTransferArgs;
use oinstake::state::{OinStake, ST_NEAR};

const T0: u64 = 1_000_000_000_000;
const BYTE: u128 = 10_000_000_000_000_000_000;
const ONE: u128 = 1_000_000_000_000_000_000_000_000;

fn s(x: &str) -> String {
    x.to_string()
}

/// bob alone, with 20 tokens pledged at price 10 and 11 coins minted.
fn bob_alone() -> OinStake {
    let mut st = OinStake::new(s("owner.near"), s("oin.near"), T0, 1000, 125);
    st.register_account(&s("bob.near"), 10_000_000_000_000_000_000_000, BYTE).unwrap();
    st.poke(&s("owner.near"), 1_000_000_000, T0).unwrap();
    st.ft_on_transfer(&s("bob.near"), 20 * ONE, FtOnTransferArgs::DepositToken, &s(ST_NEAR), T0).unwrap();
    st.mint_coin(&s("bob.near"), 11_000_000_000, T0, &s("oin.near"), 1_250_000_000_000_000_000_000, BYTE).unwrap();
    st
}

#[test]
fn no_liquidation_fee_below_the_fee_line() {
    let mut st = bob_alone();
    st.poke(&s("owner.near"), 900_000_000, T0).unwrap();
    let low = st.liquidation_plan(105_000_000, 12_000_000_000, 20 * ONE).unwrap();
    assert_eq!(low.liquidation_fee, 0);
    assert_eq!(low.gas_compensation, 66_666_666_666_666_666_666_666);
    let high = st.liquidation_plan(110_500_000, 12_000_000_000, 20 * ONE).unwrap();
    assert_eq!(high.liquidation_fee, 266_666_666_666_666_666_666_666);
    assert_eq!(high.gas_compensation, low.gas_compensation);
}

#[test]
fn a_low_system_rate_pauses_everything() {
    let mut st = bob_alone();
    assert_eq!(st.get_sys_ratio(T0), Ok(166_666_666));
    st.poke(&s("owner.near"), 600_000_000, T0).unwrap();
    assert_eq!(st.get_sys_ratio(T0), Ok(100_000_000));
    assert!(!st.is_deposit_paused());
    assert!(!st.is_mint_coin_paused());
    assert!(!st.is_liquidate_paused());
    assert_eq!(st.burn_coin(&s("bob.near"), 1, T0), Err(ContractError::SystemPause));
}
