//! The stable coin's issuance on the contract's own ledger.
use vstd::prelude::*;
use crate::error::ContractError;
use crate::ledger::balance_of;
use crate::state::OinStake;

verus! {

/// Balances after `amount` is minted to `id`, registering it first.
pub open spec fn minted(m: Map<Seq<char>, u128>, id: Seq<char>, amount: int) -> Map<Seq<char>, u128> {
    let before: int = if m.dom().contains(id) { m[id] as int } else { 0 };
    m.insert(id, (before + amount) as u128)
}

impl OinStake {
    /// Mints `amount` to `account`, registering it on the ledger with the
    /// attached deposit if it is not yet. Returns the deposit to refund.
    pub fn internal_mint(&mut self, account: &String, amount: u128, attached_deposit: u128, byte_cost: u128)
        -> (r: Result<u128, ContractError>)
        requires
            old(self).wf(),
        ensures
            final(self).wf(),
            ({
                let m = old(self).token.accounts.map();
                let registered = m.dom().contains(account@);
                let cost = old(self).token.account_storage_usage * byte_cost;
                &&& r is Ok <==> {
                    &&& (!registered ==> cost <= attached_deposit)
                    &&& balance_of(old(self).token, account@) + amount <= u128::MAX
                    &&& old(self).token.total_supply + amount <= u128::MAX
                }
                &&& r is Ok ==> {
                    &&& r->Ok_0 == if registered { attached_deposit as int } else { attached_deposit - cost }
                    &&& final(self).token.accounts.map() == minted(m, account@, amount as int)
                    &&& final(self).token.total_supply == old(self).token.total_supply + amount
                    &&& final(self).token.account_storage_usage == old(self).token.account_storage_usage
                    &&& *final(self) == (OinStake { token: final(self).token, ..*old(self) })
                }
            }),
    {
        let refund = self.token.storage_deposit(account, attached_deposit, byte_cost)?;
        self.token.internal_deposit(account, amount)?;
        Ok(refund)
    }

    /// Burns `amount` from `account`.
    pub fn internal_burn(&mut self, account: &String, amount: u128) -> (r: Result<(), ContractError>)
        requires
            old(self).wf(),
        ensures
            final(self).wf(),
            *final(self) == (OinStake { token: final(self).token, ..*old(self) }),
            ({
                let m = old(self).token.accounts.map();
                &&& r is Ok <==> m.dom().contains(account@) && amount <= m[account@]
                    && amount <= old(self).token.total_supply
                &&& r is Ok ==> final(self).token.accounts.map() == m.insert(account@, (m[account@] - amount) as u128)
                    && final(self).token.total_supply == old(self).token.total_supply - amount
                    && final(self).token.account_storage_usage == old(self).token.account_storage_usage
                &&& r is Err ==> final(self).token == old(self).token
            }),
    {
        self.token.internal_withdraw(account, amount)
    }

    /// Stable coin balance of `account`, 0 if it has none.
    pub fn ft_balance(&self, account: &String) -> (r: u128)
        requires
            self.wf(),
        ensures
            r == balance_of(self.token, account@),
    {
        self.token.ft_balance_of(account)
    }

    /// Registers `account` on the stable coin ledger, paid by the attached
    /// deposit. Returns the deposit to refund.
    pub fn register_usdo(&mut self, account: &String, attached_deposit: u128, byte_cost: u128)
        -> (r: Result<u128, ContractError>)
        requires
            old(self).wf(),
        ensures
            final(self).wf(),
            *final(self) == (OinStake { token: final(self).token, ..*old(self) }),
            ({
                let m = old(self).token.accounts.map();
                let cost = old(self).token.account_storage_usage * byte_cost;
                &&& m.dom().contains(account@) ==> r == Ok::<u128, ContractError>(attached_deposit)
                    && final(self).token == old(self).token
                &&& !m.dom().contains(account@) ==> {
                    &&& r is Ok <==> cost <= attached_deposit
                    &&& r is Ok ==> r->Ok_0 == attached_deposit - cost
                        && final(self).token.accounts.map() == m.insert(account@, 0)
                        && final(self).token.total_supply == old(self).token.total_supply
                        && final(self).token.account_storage_usage == old(self).token.account_storage_usage
                    &&& r is Err ==> final(self).token == old(self).token
                }
            }),
    {
        self.token.storage_deposit(account, attached_deposit, byte_cost)
    }

    /// Storage deposit one stable coin account needs at `byte_cost` per
    /// byte.
    pub fn usdo_storage_usage(&self, byte_cost: u128) -> (r: Result<u128, ContractError>)
        ensures
            r is Ok <==> fits_product(self.token.account_storage_usage as int, byte_cost as int),
            r is Ok ==> r->Ok_0 == self.token.account_storage_usage * byte_cost,
            r is Err ==> r == Err::<u128, ContractError>(ContractError::Overflow),
    {
        match self.token.storage_balance_min(byte_cost) {
            Some(v) => Ok(v),
            None => Err(ContractError::Overflow),
        }
    }
}

/// `a * b` fits in `u128`.
pub open spec fn fits_product(a: int, b: int) -> bool {
    a * b <= u128::MAX
}

} // verus!
