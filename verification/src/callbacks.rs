//! Settling the outcome of the debt positions' outgoing transfers. Each
//! takes whether the transfer succeeded; a failed one is undone.
use vstd::prelude::*;
use crate::error::ContractError;
use crate::math::fits;
use crate::math::{c_add, c_sub};
use crate::state::OinStake;
use crate::types::Position;
use crate::vaults::{list_kept, listed, names, vaults_wf};

verus! {

impl OinStake {
    /// Outcome of a collateral withdrawal's transfer. On failure the
    /// collateral is pledged again and, when the withdrawal had released the
    /// guarantee, the guarantee is reserved again and the account listed.
    pub fn after_withdraw_token(&mut self, account_id: &String, amount: u128, guarantee: u128, succeeded: bool)
        -> (r: Result<(), ContractError>)
        requires
            old(self).wf(),
        ensures
            final(self).wf(),
            succeeded ==> r is Ok && *final(self) == *old(self),
            !succeeded ==> ({
                let pm = old(self).positions.map();
                let p = pm[account_id@];
                let released = p.guarantee == 0;
                &&& !pm.dom().contains(account_id@) ==> r == Err::<(), ContractError>(ContractError::NotRegistered)
                &&& r is Ok <==> pm.dom().contains(account_id@) && fits(old(self).total_token + amount)
                    && fits(p.token + amount) && (released ==> fits(old(self).total_guarantee + guarantee))
                &&& r is Ok ==> {
                    &&& final(self).total_token == old(self).total_token + amount
                    &&& final(self).positions.map() == pm.insert(account_id@, Position {
                        token: (p.token + amount) as u128,
                        guarantee: if released { guarantee } else { p.guarantee },
                        ..p
                    })
                    &&& final(self).total_guarantee == old(self).total_guarantee + if released { guarantee } else { 0 }
                    &&& released ==> names(final(self).vaults.unsorted_vaults@)
                        == names(old(self).vaults.unsorted_vaults@).push(account_id@)
                        && final(self).vaults.account_to_index.map() == old(self).vaults.account_to_index.map().insert(
                            account_id@, old(self).vaults.unsorted_vaults@.len() as usize)
                    &&& released && vaults_wf(old(self).vaults) && !listed(old(self).vaults, account_id@) ==> {
                        &&& vaults_wf(final(self).vaults)
                        &&& listed(final(self).vaults, account_id@)
                        &&& names(final(self).vaults.unsorted_vaults@).to_set()
                            == names(old(self).vaults.unsorted_vaults@).to_set().insert(account_id@)
                    }
                    &&& !released ==> final(self).vaults == old(self).vaults
                    &&& released && list_kept(old(self)) ==> listed(final(self).vaults, account_id@)
                    &&& list_kept(old(self)) && (released ==> guarantee > 0) ==> list_kept(final(self))
                    &&& *final(self) == (OinStake {
                        positions: final(self).positions,
                        total_token: final(self).total_token,
                        total_guarantee: final(self).total_guarantee,
                        vaults: final(self).vaults,
                        ..*old(self)
                    })
                }
            }),
    {
        if succeeded {
            return Ok(());
        }
        let p = match self.positions.get(account_id) {
            Some(p) => p,
            None => return Err(ContractError::NotRegistered),
        };
        let total_token = c_add(self.total_token, amount)?;
        let token = c_add(p.token, amount)?;
        if p.guarantee == 0 {
            let tg = c_add(self.total_guarantee, guarantee)?;
            self.total_token = total_token;
            let ghost pm0 = self.positions;
            let np = Position { token, guarantee, ..p };
            self.positions.insert(account_id.clone(), np);
            proof {
                crate::state::lemma_reserved_insert(pm0, self.positions, account_id@, np);
            }
            self.total_guarantee = tg;
            let ghost before = *self;
            self._vault_init(account_id);
            proof {
                crate::vaults::lemma_appended_listed(before.vaults, self.vaults, account_id@);
                if list_kept(old(self)) {
                    assert(!listed(old(self).vaults, account_id@));
                    if guarantee > 0 {
                        assert forall|a: Seq<char>| #[trigger] listed(self.vaults, a)
                            implies self.positions.map().dom().contains(a) && self.positions.map()[a].guarantee > 0 by {
                            if a != account_id@ {
                                assert(listed(old(self).vaults, a));
                            }
                        }
                    }
                }
            }
        } else {
            self.total_token = total_token;
            let ghost pm0 = self.positions;
            let np = Position { token, ..p };
            self.positions.insert(account_id.clone(), np);
            proof {
                crate::state::lemma_reserved_insert(pm0, self.positions, account_id@, np);
                if list_kept(old(self)) {
                    crate::vaults::lemma_list_kept_insert(old(self), self, account_id@, np);
                }
            }
        }
        Ok(())
    }

    /// Outcome of a mint's transfer from the contract's own account
    /// `current` to `holder`. On failure the coins are taken off `holder`'s
    /// debt and burnt.
    pub fn on_mint_transfer(&mut self, holder: &String, amount: u128, current: &String, succeeded: bool)
        -> (r: Result<(), ContractError>)
        requires
            old(self).wf(),
        ensures
            final(self).wf(),
            r is Ok && crate::vaults::list_kept(old(self)) ==> crate::vaults::list_kept(final(self)),
            succeeded ==> r is Ok && *final(self) == *old(self),
            !succeeded ==> ({
                let pm = old(self).positions.map();
                let p = pm[holder@];
                let tm = old(self).token.accounts.map();
                &&& !pm.dom().contains(holder@) ==> r == Err::<(), ContractError>(ContractError::NotRegistered)
                &&& r is Ok <==> pm.dom().contains(holder@) && amount <= p.coin && amount <= old(self).total_coin
                    && tm.dom().contains(current@) && amount <= tm[current@] && amount <= old(self).token.total_supply
                &&& r is Ok ==> {
                    &&& final(self).total_coin == old(self).total_coin - amount
                    &&& final(self).positions.map() == pm.insert(holder@, Position { coin: (p.coin - amount) as u128, ..p })
                    &&& final(self).token.accounts.map() == tm.insert(current@, (tm[current@] - amount) as u128)
                    &&& final(self).token.total_supply == old(self).token.total_supply - amount
                    &&& *final(self) == (OinStake {
                        positions: final(self).positions,
                        total_coin: final(self).total_coin,
                        token: final(self).token,
                        ..*old(self)
                    })
                }
            }),
    {
        if succeeded {
            return Ok(());
        }
        let p = match self.positions.get(holder) {
            Some(p) => p,
            None => return Err(ContractError::NotRegistered),
        };
        let coin = c_sub(p.coin, amount)?;
        let total = c_sub(self.total_coin, amount)?;
        self.total_coin = total;
        let ghost pm0 = self.positions;
        let np = Position { coin, ..p };
        self.positions.insert(holder.clone(), np);
        proof {
            crate::state::lemma_reserved_insert(pm0, self.positions, holder@, np);
        }
        self.internal_burn(current, amount)?;
        Ok(())
    }
}

} // verus!
