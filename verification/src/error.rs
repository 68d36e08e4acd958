//! The reasons a call is refused. Each carries the message the contract
//! reports when it aborts.
use vstd::prelude::*;

verus! {

#[derive(Clone, Copy, Debug, PartialEq, Eq, Structural)]
pub enum ContractError {
    /// An intermediate amount left the range of its integer type.
    Overflow,
    /// A divisor was zero.
    DivByZero,
    SystemPause,
    NotRegistered,
    NotRegist,
    NotRegister,
    AlreadyRegistered,
    StorageNotEnough,
    DepositAmountZero,
    DepositBelowMinimum,
    InsufficientAvailableToken,
    ExceededCoinAmount,
    BelowMinimumMint,
    InsufficientAmount,
    LackOfBalance,
    ReturnAllCoins,
    NoCurrentToken,
    NotAtClearingLine,
    NoLiquidation,
    PriceNotPoked,
    OnlySupportStNear,
    OnlyOwner,
    OnlySupportOin,
    NotAllowed,
    NotWhite,
    NotOracle,
    NotMulWhite,
    AlreadyWhite,
    NotInWhitelist,
    AlreadyOracle,
    NotCurrentAccount,
    AboveMaximumSetting,
    BelowMinimumSetting,
    BelowTotalCoin,
    IllegalCooldown,
    IllegalConfirmRatio,
    NoRewardCoin,
    RewardNotRegistered,
    RewardZero,
    WithdrawOverflow,
    RewardSlotsUsedUp,
    RewardCoinExists,
    RewardCoinFixed,
    FeeNotEnough,
    NotLegalGet,
    ProvideZero,
    WithdrawZero,
    WithdrawTooLarge,
    SpRewardTooLarge,
    OffsetDebtZero,
    OffsetDebtTooLarge,
    OffsetCollateralZero,
    AlreadyConfirmed,
    RequestConfirmed,
    RequestNotExecutable,
    NoSuchRequest,
    TokenNotRegistered,
    TokenAlreadyRegistered,
    TokenNotEnoughBalance,
    TokenBalanceOverflow,
    TokenSupplyOverflow,
    TokenSameAccount,
    TokenAmountNotPositive,
    TokenDepositBelowMinimum,
    TokenPositiveBalance,
    /// A sum left the range of its integer type.
    AddOverflow,
    /// A difference went below zero.
    SubOverflow,
    /// A product left the range of its integer type.
    MulOverflow,
    IndexOutOfBounds,
    LossAboveOne,
    ConfirmationsMismatch,
    NoRequest,
    NoneUnwrapped,
}

/// A failure of checked arithmetic.
pub open spec fn arithmetic_error(e: ContractError) -> bool {
    ||| e == ContractError::Overflow
    ||| e == ContractError::AddOverflow
    ||| e == ContractError::SubOverflow
    ||| e == ContractError::MulOverflow
    ||| e == ContractError::DivByZero
}

/// The text the contract reports for refusal `e`.
pub open spec fn message_text(e: ContractError) -> Seq<char> {
    match e {
        ContractError::Overflow => "ERR_ARITHMETIC_OVERFLOW"@,
        ContractError::DivByZero => "ERR_DIV_INSUFFICIENT"@,
        ContractError::SystemPause => "The current function has been suspended."@,
        ContractError::NotRegistered => "Not register in this contract"@,
        ContractError::NotRegist => "Not regist."@,
        ContractError::NotRegister => "Not register"@,
        ContractError::AlreadyRegistered => "The account is register yet."@,
        ContractError::StorageNotEnough => "Stake storage usage not enough."@,
        ContractError::DepositAmountZero => "Deposit token amount must greater than zero."@,
        ContractError::DepositBelowMinimum => "Deposit token amount must greater the minimum deposit token."@,
        ContractError::InsufficientAvailableToken => "Insufficient avaliable token."@,
        ContractError::ExceededCoinAmount => "Exceeded coin amount"@,
        ContractError::BelowMinimumMint => "Less than the minimum amount produced"@,
        ContractError::InsufficientAmount => "Insufficient amount"@,
        ContractError::LackOfBalance => "Lack of balance"@,
        ContractError::ReturnAllCoins => "Please return all coins"@,
        ContractError::NoCurrentToken => "No current token"@,
        ContractError::NotAtClearingLine => "Not at the clearing line"@,
        ContractError::NoLiquidation => "No liquidation"@,
        ContractError::PriceNotPoked => "Token price isn't poked."@,
        ContractError::OnlySupportStNear => "only surpport St_near!"@,
        ContractError::OnlyOwner => "only owner can do this!"@,
        ContractError::OnlySupportOin => "only surpport OIN!"@,
        ContractError::NotAllowed => "ERR_NOT_ALLOWED"@,
        ContractError::NotWhite => "Only white user can do it."@,
        ContractError::NotOracle => "Only oracle user can do it."@,
        ContractError::NotMulWhite => "Only multsign white user can do it."@,
        ContractError::AlreadyWhite => "The account was in whitelist yet."@,
        ContractError::NotInWhitelist => "The account isn't in whitelist."@,
        ContractError::AlreadyOracle => "The account is oracle yet."@,
        ContractError::NotCurrentAccount => "not allow current account to use！"@,
        ContractError::AboveMaximumSetting => "Exceeding the maximum setting"@,
        ContractError::BelowMinimumSetting => "Exceeding the minimum setting"@,
        ContractError::BelowTotalCoin => "The value cannot be less than the total coin of the current system"@,
        ContractError::IllegalCooldown => "illegal num_condirm_ratio"@,
        ContractError::IllegalConfirmRatio => "unleagal num_condirm_ratio"@,
        ContractError::NoRewardCoin => "NO THE REWARD COIN"@,
        ContractError::RewardNotRegistered => "Not register the reward coin with account."@,
        ContractError::RewardZero => "The reward of account is zero."@,
        ContractError::WithdrawOverflow => "Withdraw overflow"@,
        ContractError::RewardSlotsUsedUp => "The currency slot has been used up, please modify other currency information as appropriate"@,
        ContractError::RewardCoinExists => "The current currency has been added, please add a new currency."@,
        ContractError::RewardCoinFixed => "The current currency is set and cannot be changed"@,
        ContractError::FeeNotEnough => "amount Not enough！"@,
        ContractError::NotLegalGet => "Not Legal get this contract"@,
        ContractError::ProvideZero => "provide coin amount must greater than zero."@,
        ContractError::WithdrawZero => "withdraw token amount must greater than zero."@,
        ContractError::WithdrawTooLarge => "withdraw token amount too large."@,
        ContractError::SpRewardTooLarge => "amount should lower than total reward"@,
        ContractError::OffsetDebtZero => "provide coin dept_to_offset must greater than zero."@,
        ContractError::OffsetDebtTooLarge => "dept_to_offset  must lesser than total_usdo_deposits."@,
        ContractError::OffsetCollateralZero => "provide token _coll_to_add must greater than zero."@,
        ContractError::AlreadyConfirmed => "Already confirmed this request with this key"@,
        ContractError::RequestConfirmed => "request has confirmed"@,
        ContractError::RequestNotExecutable => "request can not be exe , time or vote too short!"@,
        ContractError::NoSuchRequest => "No such request: either wrong number or already confirmed"@,
        ContractError::TokenNotRegistered => "The account is not registered"@,
        ContractError::TokenAlreadyRegistered => "The account is already registered"@,
        ContractError::TokenNotEnoughBalance => "The account doesn't have enough balance"@,
        ContractError::TokenBalanceOverflow => "Balance overflow"@,
        ContractError::TokenSupplyOverflow => "Total supply overflow"@,
        ContractError::TokenSameAccount => "Sender and receiver should be different"@,
        ContractError::TokenAmountNotPositive => "The amount should be a positive number"@,
        ContractError::TokenDepositBelowMinimum => "The attached deposit is less than the mimimum storage balance"@,
        ContractError::TokenPositiveBalance => "Can't unregister the account with the positive balance without force"@,
        ContractError::AddOverflow => "ERR_ADD_INSUFFICIENT"@,
        ContractError::SubOverflow => "ERR_SUB_INSUFFICIENT"@,
        ContractError::MulOverflow => "ERR_MUL_OVERFLOW"@,
        ContractError::IndexOutOfBounds => "swap_remove index out of bounds"@,
        ContractError::ConfirmationsMismatch => "Internal error: confirmations mismatch requests"@,
        ContractError::NoRequest => "No such request"@,
        ContractError::NoneUnwrapped => "called `Option::unwrap()` on a `None` value"@,
        ContractError::LossAboveOne => "assertion failed: usdo_loss_per_unit_staked <= DECIMAL_PRECISION"@,
    }
}

impl ContractError {
    /// The text the contract reports for this refusal.
    pub fn message(&self) -> (r: &'static str)
        ensures
            r@ == message_text(*self),
    {
        match self {
            ContractError::Overflow => "ERR_ARITHMETIC_OVERFLOW",
            ContractError::DivByZero => "ERR_DIV_INSUFFICIENT",
            ContractError::SystemPause => "The current function has been suspended.",
            ContractError::NotRegistered => "Not register in this contract",
            ContractError::NotRegist => "Not regist.",
            ContractError::NotRegister => "Not register",
            ContractError::AlreadyRegistered => "The account is register yet.",
            ContractError::StorageNotEnough => "Stake storage usage not enough.",
            ContractError::DepositAmountZero => "Deposit token amount must greater than zero.",
            ContractError::DepositBelowMinimum => "Deposit token amount must greater the minimum deposit token.",
            ContractError::InsufficientAvailableToken => "Insufficient avaliable token.",
            ContractError::ExceededCoinAmount => "Exceeded coin amount",
            ContractError::BelowMinimumMint => "Less than the minimum amount produced",
            ContractError::InsufficientAmount => "Insufficient amount",
            ContractError::LackOfBalance => "Lack of balance",
            ContractError::ReturnAllCoins => "Please return all coins",
            ContractError::NoCurrentToken => "No current token",
            ContractError::NotAtClearingLine => "Not at the clearing line",
            ContractError::NoLiquidation => "No liquidation",
            ContractError::PriceNotPoked => "Token price isn't poked.",
            ContractError::OnlySupportStNear => "only surpport St_near!",
            ContractError::OnlyOwner => "only owner can do this!",
            ContractError::OnlySupportOin => "only surpport OIN!",
            ContractError::NotAllowed => "ERR_NOT_ALLOWED",
            ContractError::NotWhite => "Only white user can do it.",
            ContractError::NotOracle => "Only oracle user can do it.",
            ContractError::NotMulWhite => "Only multsign white user can do it.",
            ContractError::AlreadyWhite => "The account was in whitelist yet.",
            ContractError::NotInWhitelist => "The account isn't in whitelist.",
            ContractError::AlreadyOracle => "The account is oracle yet.",
            ContractError::NotCurrentAccount => "not allow current account to use！",
            ContractError::AboveMaximumSetting => "Exceeding the maximum setting",
            ContractError::BelowMinimumSetting => "Exceeding the minimum setting",
            ContractError::BelowTotalCoin => "The value cannot be less than the total coin of the current system",
            ContractError::IllegalCooldown => "illegal num_condirm_ratio",
            ContractError::IllegalConfirmRatio => "unleagal num_condirm_ratio",
            ContractError::NoRewardCoin => "NO THE REWARD COIN",
            ContractError::RewardNotRegistered => "Not register the reward coin with account.",
            ContractError::RewardZero => "The reward of account is zero.",
            ContractError::WithdrawOverflow => "Withdraw overflow",
            ContractError::RewardSlotsUsedUp => "The currency slot has been used up, please modify other currency information as appropriate",
            ContractError::RewardCoinExists => "The current currency has been added, please add a new currency.",
            ContractError::RewardCoinFixed => "The current currency is set and cannot be changed",
            ContractError::FeeNotEnough => "amount Not enough！",
            ContractError::NotLegalGet => "Not Legal get this contract",
            ContractError::ProvideZero => "provide coin amount must greater than zero.",
            ContractError::WithdrawZero => "withdraw token amount must greater than zero.",
            ContractError::WithdrawTooLarge => "withdraw token amount too large.",
            ContractError::SpRewardTooLarge => "amount should lower than total reward",
            ContractError::OffsetDebtZero => "provide coin dept_to_offset must greater than zero.",
            ContractError::OffsetDebtTooLarge => "dept_to_offset  must lesser than total_usdo_deposits.",
            ContractError::OffsetCollateralZero => "provide token _coll_to_add must greater than zero.",
            ContractError::AlreadyConfirmed => "Already confirmed this request with this key",
            ContractError::RequestConfirmed => "request has confirmed",
            ContractError::RequestNotExecutable => "request can not be exe , time or vote too short!",
            ContractError::NoSuchRequest => "No such request: either wrong number or already confirmed",
            ContractError::TokenNotRegistered => "The account is not registered",
            ContractError::TokenAlreadyRegistered => "The account is already registered",
            ContractError::TokenNotEnoughBalance => "The account doesn't have enough balance",
            ContractError::TokenBalanceOverflow => "Balance overflow",
            ContractError::TokenSupplyOverflow => "Total supply overflow",
            ContractError::TokenSameAccount => "Sender and receiver should be different",
            ContractError::TokenAmountNotPositive => "The amount should be a positive number",
            ContractError::TokenDepositBelowMinimum => "The attached deposit is less than the mimimum storage balance",
            ContractError::TokenPositiveBalance => "Can't unregister the account with the positive balance without force",
            ContractError::AddOverflow => "ERR_ADD_INSUFFICIENT",
            ContractError::SubOverflow => "ERR_SUB_INSUFFICIENT",
            ContractError::MulOverflow => "ERR_MUL_OVERFLOW",
            ContractError::IndexOutOfBounds => "swap_remove index out of bounds",
            ContractError::ConfirmationsMismatch => "Internal error: confirmations mismatch requests",
            ContractError::NoRequest => "No such request",
            ContractError::NoneUnwrapped => "called `Option::unwrap()` on a `None` value",
            ContractError::LossAboveOne => "assertion failed: usdo_loss_per_unit_staked <= DECIMAL_PRECISION",
        }
    }
}

} // verus!
