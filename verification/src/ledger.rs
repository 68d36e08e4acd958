//! The stable coin's balances: a fungible-token ledger with registration.
use vstd::prelude::*;
use crate::book::{Book, BookKey};
use crate::error::ContractError;

verus! {

/// Balances by account, the total supply and the per-account storage size.
pub struct TokenLedger {
    pub accounts: Book<String, u128>,
    pub total_supply: u128,
    pub account_storage_usage: u64,
}

/// Balance of a registered account, 0 otherwise.
pub open spec fn balance_of(l: TokenLedger, id: Seq<char>) -> nat {
    if l.accounts.map().dom().contains(id) {
        l.accounts.map()[id] as nat
    } else {
        0
    }
}

/// Whether `amount` can move from `from` to `to`.
pub open spec fn can_transfer(l: TokenLedger, from: Seq<char>, to: Seq<char>, amount: int) -> bool {
    &&& from != to
    &&& amount > 0
    &&& l.accounts.map().dom().contains(from)
    &&& l.accounts.map().dom().contains(to)
    &&& amount <= l.accounts.map()[from]
    &&& amount <= l.total_supply
    &&& l.accounts.map()[to] + amount <= u128::MAX
}

/// Balances after `amount` moved from `from` to `to`.
pub open spec fn transferred(l: TokenLedger, from: Seq<char>, to: Seq<char>, amount: int) -> Map<Seq<char>, u128> {
    l.accounts.map().insert(from, (l.accounts.map()[from] - amount) as u128)
        .insert(to, (l.accounts.map()[to] + amount) as u128)
}

/// Whether `amount` can be burnt from `id`.
pub open spec fn can_withdraw(l: TokenLedger, id: Seq<char>, amount: int) -> bool {
    &&& l.accounts.map().dom().contains(id)
    &&& amount <= l.accounts.map()[id]
    &&& amount <= l.total_supply
}

/// Balances after `amount` is burnt from `id`.
pub open spec fn withdrawn(l: TokenLedger, id: Seq<char>, amount: int) -> Map<Seq<char>, u128> {
    l.accounts.map().insert(id, (l.accounts.map()[id] - amount) as u128)
}

/// The sum of a sequence of balances.
pub open spec fn seq_sum(s: Seq<u128>) -> int
    decreases s.len(),
{
    if s.len() == 0 {
        0
    } else {
        seq_sum(s.drop_last()) + s.last()
    }
}

/// What all accounts hold together.
pub open spec fn held(l: TokenLedger) -> int {
    seq_sum(l.accounts.val_seq())
}

proof fn lemma_sum_update(s: Seq<u128>, i: int, v: u128)
    requires
        0 <= i < s.len(),
    ensures
        seq_sum(s.update(i, v)) == seq_sum(s) - s[i] + v,
    decreases s.len(),
{
    let t = s.update(i, v);
    if i == s.len() - 1 {
        assert(t.drop_last() =~= s.drop_last());
    } else {
        assert(t.drop_last() =~= s.drop_last().update(i, v));
        lemma_sum_update(s.drop_last(), i, v);
    }
}

/// Setting `k` to `v` changes what the accounts hold by `v` less what `k`
/// held before.
proof fn lemma_held_insert(before: TokenLedger, after: TokenLedger, k: Seq<char>, v: u128)
    requires
        before.accounts.wf(),
        before.accounts.has(k) ==> after.accounts.val_seq()
            == before.accounts.val_seq().update(before.accounts.pos(k), v),
        !before.accounts.has(k) ==> after.accounts.val_seq() == before.accounts.val_seq().push(v),
    ensures
        held(after) == held(before) + v - balance_of(before, k),
{
    let s = before.accounts.val_seq();
    if before.accounts.has(k) {
        before.accounts.lemma_has(k);
        lemma_sum_update(s, before.accounts.pos(k), v);
    } else {
        assert(s.push(v).drop_last() =~= s);
    }
}

/// Removing `k` takes what it held off what the accounts hold.
proof fn lemma_held_remove(before: TokenLedger, after: TokenLedger, k: Seq<char>)
    requires
        before.accounts.wf(),
        before.accounts.has(k),
        after.accounts.val_seq() == before.accounts.val_seq().update(
            before.accounts.pos(k), before.accounts.val_seq().last()).drop_last(),
    ensures
        held(after) == held(before) - balance_of(before, k),
{
    let s = before.accounts.val_seq();
    before.accounts.lemma_has(k);
    let t = s.update(before.accounts.pos(k), s.last());
    lemma_sum_update(s, before.accounts.pos(k), s.last());
    assert(t.last() == s.last());
}

/// What a transfer-and-call of `amount` left unused, as the receiver
/// reported it; `None` when its call failed or its reply was unreadable.
pub open spec fn unused_of(amount: int, returned: Option<u128>) -> int {
    match returned {
        Some(u) => if u < amount { u as int } else { amount },
        None => amount,
    }
}

/// What goes back to the sender after a transfer-and-call: the unused
/// amount, as far as the receiver's balance covers it.
pub open spec fn refund_of(l: TokenLedger, receiver: Seq<char>, amount: int, returned: Option<u128>) -> int {
    let unused = unused_of(amount, returned);
    let rb: int = balance_of(l, receiver) as int;
    if unused > 0 && rb > 0 {
        if rb < unused { rb } else { unused }
    } else {
        0
    }
}

impl TokenLedger {
    /// The table is well formed and the supply is what the accounts hold.
    pub open spec fn wf(&self) -> bool {
        &&& self.accounts.wf()
        &&& held(*self) == self.total_supply
    }

    /// A ledger with no accounts.
    pub fn new(account_storage_usage: u64) -> (r: TokenLedger)
        ensures
            r.wf(),
            r.accounts.map() == Map::<Seq<char>, u128>::empty(),
            r.total_supply == 0,
            r.account_storage_usage == account_storage_usage,
    {
        TokenLedger { accounts: Book::new(), total_supply: 0, account_storage_usage }
    }

    /// Balance of a registered account.
    pub fn internal_unwrap_balance_of(&self, account_id: &String) -> (r: Result<u128, ContractError>)
        requires
            self.wf(),
        ensures
            match r {
                Ok(b) => self.accounts.map().dom().contains(account_id@)
                    && b == self.accounts.map()[account_id@],
                Err(e) => !self.accounts.map().dom().contains(account_id@)
                    && e == ContractError::TokenNotRegistered,
            },
    {
        match self.accounts.get(account_id) {
            Some(b) => Ok(b),
            None => Err(ContractError::TokenNotRegistered),
        }
    }

    /// Balance, 0 for an unknown account.
    pub fn ft_balance_of(&self, account_id: &String) -> (r: u128)
        requires
            self.wf(),
        ensures
            r == balance_of(*self, account_id@),
    {
        match self.accounts.get(account_id) {
            Some(b) => b,
            None => 0,
        }
    }

    /// Credits `amount` to a registered account and to the supply.
    pub fn internal_deposit(&mut self, account_id: &String, amount: u128) -> (r: Result<(), ContractError>)
        requires
            old(self).wf(),
        ensures
            final(self).wf(),
            final(self).account_storage_usage == old(self).account_storage_usage,
            match r {
                Ok(()) => {
                    &&& old(self).accounts.map().dom().contains(account_id@)
                    &&& old(self).accounts.map()[account_id@] + amount <= u128::MAX
                    &&& final(self).accounts.map() == old(self).accounts.map().insert(
                        account_id@,
                        (old(self).accounts.map()[account_id@] + amount) as u128,
                    )
                    &&& final(self).total_supply == old(self).total_supply + amount
                },
                Err(e) => *final(self) == *old(self) && (
                    if !old(self).accounts.map().dom().contains(account_id@) {
                        e == ContractError::TokenNotRegistered
                    } else if old(self).accounts.map()[account_id@] + amount > u128::MAX {
                        e == ContractError::TokenBalanceOverflow
                    } else {
                        e == ContractError::TokenSupplyOverflow
                            && old(self).total_supply + amount > u128::MAX
                    }),
            },
    {
        let balance = match self.internal_unwrap_balance_of(account_id) {
            Ok(b) => b,
            Err(e) => return Err(e),
        };
        match balance.checked_add(amount) {
            Some(new_balance) => match self.total_supply.checked_add(amount) {
                Some(s) => {
                    let ghost before = *self;
                    self.accounts.insert(account_id.clone(), new_balance);
                    self.total_supply = s;
                    proof {
                        lemma_held_insert(before, *self, account_id@, new_balance);
                    }
                    Ok(())
                },
                None => Err(ContractError::TokenSupplyOverflow),
            },
            None => Err(ContractError::TokenBalanceOverflow),
        }
    }

    /// Debits `amount` from a registered account and from the supply.
    pub fn internal_withdraw(&mut self, account_id: &String, amount: u128) -> (r: Result<(), ContractError>)
        requires
            old(self).wf(),
        ensures
            final(self).wf(),
            final(self).account_storage_usage == old(self).account_storage_usage,
            match r {
                Ok(()) => {
                    &&& old(self).accounts.map().dom().contains(account_id@)
                    &&& amount <= old(self).accounts.map()[account_id@]
                    &&& amount <= old(self).total_supply
                    &&& final(self).accounts.map() == old(self).accounts.map().insert(
                        account_id@,
                        (old(self).accounts.map()[account_id@] - amount) as u128,
                    )
                    &&& final(self).total_supply == old(self).total_supply - amount
                },
                Err(e) => *final(self) == *old(self) && (
                    if !old(self).accounts.map().dom().contains(account_id@) {
                        e == ContractError::TokenNotRegistered
                    } else if old(self).accounts.map()[account_id@] < amount {
                        e == ContractError::TokenNotEnoughBalance
                    } else {
                        e == ContractError::TokenSupplyOverflow && old(self).total_supply < amount
                    }),
            },
    {
        let balance = match self.internal_unwrap_balance_of(account_id) {
            Ok(b) => b,
            Err(e) => return Err(e),
        };
        match balance.checked_sub(amount) {
            Some(new_balance) => match self.total_supply.checked_sub(amount) {
                Some(s) => {
                    let ghost before = *self;
                    self.accounts.insert(account_id.clone(), new_balance);
                    self.total_supply = s;
                    proof {
                        lemma_held_insert(before, *self, account_id@, new_balance);
                    }
                    Ok(())
                },
                None => Err(ContractError::TokenSupplyOverflow),
            },
            None => Err(ContractError::TokenNotEnoughBalance),
        }
    }

    /// Moves `amount` between two different registered accounts.
    pub fn internal_transfer(&mut self, sender_id: &String, receiver_id: &String, amount: u128)
        -> (r: Result<(), ContractError>)
        requires
            old(self).wf(),
        ensures
            final(self).wf(),
            final(self).account_storage_usage == old(self).account_storage_usage,
            sender_id@ == receiver_id@ ==> r == Err::<(), ContractError>(ContractError::TokenSameAccount),
            sender_id@ != receiver_id@ && amount == 0 ==> r == Err::<(), ContractError>(
                ContractError::TokenAmountNotPositive),
            r is Ok <==> {
                &&& sender_id@ != receiver_id@
                &&& amount > 0
                &&& old(self).accounts.map().dom().contains(sender_id@)
                &&& old(self).accounts.map().dom().contains(receiver_id@)
                &&& amount <= old(self).accounts.map()[sender_id@]
                &&& amount <= old(self).total_supply
                &&& old(self).accounts.map()[receiver_id@] + amount <= u128::MAX
            },
            r is Ok ==> {
                &&& final(self).accounts.map() == old(self).accounts.map().insert(
                    sender_id@,
                    (old(self).accounts.map()[sender_id@] - amount) as u128,
                ).insert(receiver_id@, (old(self).accounts.map()[receiver_id@] + amount) as u128)
                &&& final(self).total_supply == old(self).total_supply
            },
    {
        if sender_id.same(receiver_id) {
            return Err(ContractError::TokenSameAccount);
        }
        if amount == 0 {
            return Err(ContractError::TokenAmountNotPositive);
        }
        let ghost s0 = *self;
        match self.internal_withdraw(sender_id, amount) {
            Ok(()) => {},
            Err(e) => return Err(e),
        }
        assert(self.accounts.map().dom().contains(receiver_id@) == s0.accounts.map().dom().contains(receiver_id@));
        assert(s0.accounts.map().dom().contains(receiver_id@) ==> self.accounts.map()[receiver_id@] == s0.accounts.map()[receiver_id@]);
        assert(self.total_supply + amount == s0.total_supply);
        let r = self.internal_deposit(receiver_id, amount);
        r
    }

    /// Registers an account with a zero balance.
    pub fn internal_register_account(&mut self, account_id: &String) -> (r: Result<(), ContractError>)
        requires
            old(self).wf(),
        ensures
            final(self).wf(),
            final(self).total_supply == old(self).total_supply,
            final(self).account_storage_usage == old(self).account_storage_usage,
            r is Ok <==> !old(self).accounts.map().dom().contains(account_id@),
            r is Ok ==> final(self).accounts.map() == old(self).accounts.map().insert(account_id@, 0),
            r is Err ==> r == Err::<(), ContractError>(ContractError::TokenAlreadyRegistered)
                && *final(self) == *old(self),
    {
        if self.accounts.contains(account_id) {
            return Err(ContractError::TokenAlreadyRegistered);
        }
        let ghost before = *self;
        self.accounts.insert(account_id.clone(), 0);
        proof {
            lemma_held_insert(before, *self, account_id@, 0);
        }
        Ok(())
    }

    /// Storage an account needs, priced at `byte_cost` per byte.
    pub fn storage_balance_min(&self, byte_cost: u128) -> (r: Option<u128>)
        ensures
            match r {
                Some(v) => v == self.account_storage_usage * byte_cost,
                None => self.account_storage_usage * byte_cost > u128::MAX,
            },
    {
        (self.account_storage_usage as u128).checked_mul(byte_cost)
    }

    /// Registers `account_id` paid by the attached deposit. Returns the
    /// amount to refund to the caller.
    pub fn storage_deposit(&mut self, account_id: &String, attached_deposit: u128, byte_cost: u128)
        -> (r: Result<u128, ContractError>)
        requires
            old(self).wf(),
        ensures
            final(self).wf(),
            final(self).total_supply == old(self).total_supply,
            final(self).account_storage_usage == old(self).account_storage_usage,
            old(self).accounts.map().dom().contains(account_id@) ==> {
                &&& r == Ok::<u128, ContractError>(attached_deposit)
                &&& *final(self) == *old(self)
            },
            !old(self).accounts.map().dom().contains(account_id@) ==> match r {
                Ok(refund) => {
                    &&& old(self).account_storage_usage * byte_cost <= attached_deposit
                    &&& refund == attached_deposit - old(self).account_storage_usage * byte_cost
                    &&& final(self).accounts.map() == old(self).accounts.map().insert(account_id@, 0)
                },
                Err(e) => {
                    &&& *final(self) == *old(self)
                    &&& (e == ContractError::TokenDepositBelowMinimum
                        && attached_deposit < old(self).account_storage_usage * byte_cost)
                        || (e == ContractError::Overflow
                        && old(self).account_storage_usage * byte_cost > u128::MAX)
                },
            },
    {
        if self.accounts.contains(account_id) {
            return Ok(attached_deposit);
        }
        let min_balance = match self.storage_balance_min(byte_cost) {
            Some(m) => m,
            None => return Err(ContractError::Overflow),
        };
        if attached_deposit < min_balance {
            return Err(ContractError::TokenDepositBelowMinimum);
        }
        let _ = self.internal_register_account(account_id);
        Ok(attached_deposit - min_balance)
    }
    /// Settles a transfer-and-call of `amount` from `sender_id` to
    /// `receiver_id`, `returned` being what the receiver reported unused:
    /// the refund goes back to the sender, or is burnt when the sender is no
    /// longer registered. Returns the amount the transfer finally moved.
    pub fn ft_resolve_transfer(&mut self, sender_id: &String, receiver_id: &String, amount: u128,
        returned: Option<u128>) -> (r: Result<u128, ContractError>)
        requires
            old(self).wf(),
        ensures
            final(self).wf(),
            final(self).account_storage_usage == old(self).account_storage_usage,
            ({
                let m = old(self).accounts.map();
                let refund = refund_of(*old(self), receiver_id@, amount as int, returned);
                let m1 = m.insert(receiver_id@, (m[receiver_id@] - refund) as u128);
                let m2 = m1.insert(sender_id@, (m1[sender_id@] + refund) as u128);
                let sender_in = m.dom().contains(sender_id@);
                &&& r is Ok <==> refund == 0 || (sender_in && m1[sender_id@] + refund <= u128::MAX)
                    || (!sender_in && refund <= old(self).total_supply)
                &&& refund == 0 ==> r == Ok::<u128, ContractError>(amount) && *final(self) == *old(self)
                &&& (r is Ok && refund > 0 && sender_in) ==> {
                    &&& r->Ok_0 == amount - refund
                    &&& final(self).accounts.map() == m2
                    &&& final(self).total_supply == old(self).total_supply
                }
                &&& (r is Ok && refund > 0 && !sender_in) ==> {
                    &&& r->Ok_0 == amount
                    &&& final(self).accounts.map() == m1
                    &&& final(self).total_supply == old(self).total_supply - refund
                }
            }),
    {
        let unused = match returned {
            Some(u) => if u < amount { u } else { amount },
            None => amount,
        };
        if unused == 0 {
            return Ok(amount);
        }
        let rb = self.ft_balance_of(receiver_id);
        if rb == 0 {
            return Ok(amount);
        }
        let refund = if rb < unused { rb } else { unused };
        let ghost l0 = *self;
        match self.accounts.get(sender_id) {
            Some(sb) => {
                let sender_after = if sender_id.same(receiver_id) { rb - refund } else { sb };
                match sender_after.checked_add(refund) {
                    Some(v) => {
                        self.accounts.insert(receiver_id.clone(), rb - refund);
                        let ghost l1 = *self;
                        proof {
                            lemma_held_insert(l0, l1, receiver_id@, (rb - refund) as u128);
                        }
                        self.accounts.insert(sender_id.clone(), v);
                        proof {
                            lemma_held_insert(l1, *self, sender_id@, v);
                        }
                        Ok(amount - refund)
                    },
                    None => Err(ContractError::TokenBalanceOverflow),
                }
            },
            None => match self.total_supply.checked_sub(refund) {
                Some(t) => {
                    self.accounts.insert(receiver_id.clone(), rb - refund);
                    self.total_supply = t;
                    proof {
                        lemma_held_insert(l0, *self, receiver_id@, (rb - refund) as u128);
                    }
                    Ok(amount)
                },
                None => Err(ContractError::TokenSupplyOverflow),
            },
        }
    }
    /// Unregisters `account_id`: one with a positive balance only with
    /// `force`, burning the balance. Returns the balance burnt, or `None`
    /// when the account was not registered.
    pub fn storage_unregister(&mut self, account_id: &String, force: bool) -> (r: Result<Option<u128>, ContractError>)
        requires
            old(self).wf(),
        ensures
            final(self).wf(),
            final(self).account_storage_usage == old(self).account_storage_usage,
            ({
                let m = old(self).accounts.map();
                let registered = m.dom().contains(account_id@);
                &&& !registered ==> r == Ok::<Option<u128>, ContractError>(None) && *final(self) == *old(self)
                &&& registered && m[account_id@] > 0 && !force
                    ==> r == Err::<Option<u128>, ContractError>(ContractError::TokenPositiveBalance)
                &&& r is Ok <==> !registered || ((m[account_id@] == 0 || force) && m[account_id@] <= old(self).total_supply)
                &&& (registered && r is Ok) ==> {
                    &&& r == Ok::<Option<u128>, ContractError>(Some(m[account_id@]))
                    &&& final(self).accounts.map() == m.remove(account_id@)
                    &&& final(self).total_supply == old(self).total_supply - m[account_id@]
                }
            }),
    {
        let balance = match self.accounts.get(account_id) {
            Some(b) => b,
            None => return Ok(None),
        };
        if balance > 0 && !force {
            return Err(ContractError::TokenPositiveBalance);
        }
        let supply = match self.total_supply.checked_sub(balance) {
            Some(t) => t,
            None => return Err(ContractError::TokenSupplyOverflow),
        };
        let ghost before = *self;
        let _ = self.accounts.remove(account_id);
        self.total_supply = supply;
        proof {
            lemma_held_remove(before, *self, account_id@);
        }
        Ok(Some(balance))
    }
}

} // verus!
