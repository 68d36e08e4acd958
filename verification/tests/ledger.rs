use oinstake::error::ContractError;
use oinstake::ledger::TokenLedger;

fn s(x: &str) -> String {
    x.to_string()
}

#[test]
fn ledger_registration_and_transfers() {
    let mut l = TokenLedger::new(125);
    assert_eq!(l.storage_balance_min(10), Some(1250));
    assert_eq!(l.storage_deposit(&s("a"), 1000, 10), Err(ContractError::TokenDepositBelowMinimum));
    assert_eq!(l.storage_deposit(&s("a"), 2000, 10), Ok(750));
    assert_eq!(l.storage_deposit(&s("a"), 2000, 10), Ok(2000));
    l.internal_register_account(&s("b")).unwrap();
    assert_eq!(l.internal_register_account(&s("b")), Err(ContractError::TokenAlreadyRegistered));
    assert_eq!(l.internal_deposit(&s("c"), 5), Err(ContractError::TokenNotRegistered));
    l.internal_deposit(&s("a"), 100).unwrap();
    assert_eq!(l.total_supply, 100);
    assert_eq!(l.internal_transfer(&s("a"), &s("a"), 1), Err(ContractError::TokenSameAccount));
    assert_eq!(l.internal_transfer(&s("a"), &s("b"), 0), Err(ContractError::TokenAmountNotPositive));
    assert_eq!(l.internal_transfer(&s("a"), &s("b"), 101), Err(ContractError::TokenNotEnoughBalance));
    l.internal_transfer(&s("a"), &s("b"), 40).unwrap();
    assert_eq!(l.ft_balance_of(&s("a")), 60);
    assert_eq!(l.ft_balance_of(&s("b")), 40);
    assert_eq!(l.ft_balance_of(&s("c")), 0);
    assert_eq!(l.total_supply, 100);
    assert_eq!(l.internal_withdraw(&s("b"), 41), Err(ContractError::TokenNotEnoughBalance));
    l.internal_withdraw(&s("b"), 40).unwrap();
    assert_eq!(l.total_supply, 60);
    assert_eq!(l.internal_deposit(&s("a"), u128::MAX), Err(ContractError::TokenBalanceOverflow));
}

#[test]
fn transfer_call_hands_back_unused_amount() {
    let mut l = TokenLedger::new(0);
    l.internal_register_account(&s("a")).unwrap();
    l.internal_register_account(&s("b")).unwrap();
    l.internal_deposit(&s("a"), 100).unwrap();
    l.internal_transfer(&s("a"), &s("b"), 60).unwrap();
    // the receiver reports 25 unused: it goes back
    assert_eq!(l.ft_resolve_transfer(&s("a"), &s("b"), 60, Some(25)), Ok(35));
    assert_eq!((l.ft_balance_of(&s("a")), l.ft_balance_of(&s("b"))), (65, 35));
    // a report above the amount counts as the whole amount, capped by the receiver's balance
    assert_eq!(l.ft_resolve_transfer(&s("a"), &s("b"), 50, Some(500)), Ok(15));
    assert_eq!((l.ft_balance_of(&s("a")), l.ft_balance_of(&s("b"))), (100, 0));
    // nothing unused: nothing moves
    l.internal_transfer(&s("a"), &s("b"), 10).unwrap();
    assert_eq!(l.ft_resolve_transfer(&s("a"), &s("b"), 10, Some(0)), Ok(10));
    assert_eq!(l.ft_balance_of(&s("b")), 10);
    // a failed call hands everything back
    assert_eq!(l.ft_resolve_transfer(&s("a"), &s("b"), 10, None), Ok(0));
    assert_eq!((l.ft_balance_of(&s("a")), l.ft_balance_of(&s("b")), l.total_supply), (100, 0, 100));
}

#[test]
fn refund_to_an_unregistered_sender_is_burnt() {
    let mut l = TokenLedger::new(0);
    l.internal_register_account(&s("a")).unwrap();
    l.internal_register_account(&s("b")).unwrap();
    l.internal_deposit(&s("a"), 30).unwrap();
    l.internal_transfer(&s("a"), &s("b"), 30).unwrap();
    assert_eq!(l.storage_unregister(&s("a"), false), Ok(Some(0)));
    assert_eq!(l.ft_resolve_transfer(&s("a"), &s("b"), 30, Some(12)), Ok(30));
    assert_eq!((l.ft_balance_of(&s("b")), l.total_supply), (18, 18));
}

#[test]
fn unregistering_needs_force_with_a_balance() {
    let mut l = TokenLedger::new(0);
    assert_eq!(l.storage_unregister(&s("a"), true), Ok(None));
    l.internal_register_account(&s("a")).unwrap();
    l.internal_deposit(&s("a"), 7).unwrap();
    assert_eq!(l.storage_unregister(&s("a"), false), Err(ContractError::TokenPositiveBalance));
    assert_eq!(l.storage_unregister(&s("a"), true), Ok(Some(7)));
    assert_eq!((l.ft_balance_of(&s("a")), l.total_supply), (0, 0));
    assert_eq!(l.internal_deposit(&s("a"), 1), Err(ContractError::TokenNotRegistered));
}

#[test]
fn supply_is_what_the_accounts_hold() {
    let mut l = TokenLedger::new(0);
    for a in ["a", "b", "c"] {
        l.internal_register_account(&s(a)).unwrap();
    }
    l.internal_deposit(&s("a"), 500).unwrap();
    l.internal_deposit(&s("c"), 70).unwrap();
    l.internal_transfer(&s("a"), &s("b"), 120).unwrap();
    l.internal_withdraw(&s("c"), 20).unwrap();
    l.ft_resolve_transfer(&s("a"), &s("b"), 120, Some(20)).unwrap();
    let held = |l: &TokenLedger| l.ft_balance_of(&s("a")) + l.ft_balance_of(&s("b")) + l.ft_balance_of(&s("c"));
    assert_eq!(held(&l), 550);
    assert_eq!(l.total_supply, held(&l));
    l.storage_unregister(&s("c"), true).unwrap();
    assert_eq!(l.total_supply, held(&l));
    assert_eq!(l.total_supply, 500);
}
