//! Administration: whitelists, owner, oracle and risk parameters.
use vstd::prelude::*;
use crate::book::Book;
use crate::consts::{
    DEFAULT_REQUEST_COOLDOWN, MAX_ALLOT_RATIO, MAX_COIN_UPPER_LIMIT, MAX_GAS_COMPENSATION_RATIO,
    MAX_LIQUIDATION_FEE_RATIO, MAX_REQUEST_COOLDOWN, MAX_STABLE_FEE_RATE, MIN_ALLOT_RATIO,
    MIN_LIQUIDATION_LINE, POKE_INTERVAL_TIME,
};
use crate::error::ContractError;
use crate::stablefee::secs;
use crate::state::{MultiSig, OinStake, Oracle, Params, StableFee};

verus! {

impl OinStake {
    /// Whether `account` is on the whitelist.
    pub fn is_white(&self, account: &String) -> (r: bool)
        requires
            self.wf(),
        ensures
            r == self.whitelist.map().dom().contains(account@),
    {
        self.whitelist.contains(account)
    }

    /// Size of the whitelist.
    pub fn white_num(&self) -> (r: u64)
        requires
            self.wf(),
        ensures
            r == self.whitelist.len_spec(),
            r == self.whitelist.map().dom().len(),
    {
        proof {
            self.whitelist.lemma_len();
        }
        self.whitelist.len() as u64
    }

    /// Only whitelisted callers pass.
    pub fn assert_white(&self, caller: &String) -> (r: Result<(), ContractError>)
        requires
            self.wf(),
        ensures
            r is Ok <==> self.whitelist.map().dom().contains(caller@),
            r is Err ==> r == Err::<(), ContractError>(ContractError::NotWhite),
    {
        if self.is_white(caller) {
            Ok(())
        } else {
            Err(ContractError::NotWhite)
        }
    }

    /// The owner adds `account` to the whitelist.
    pub fn add_white(&mut self, caller: &String, account: &String) -> (r: Result<(), ContractError>)
        requires
            old(self).wf(),
        ensures
            final(self).wf(),
            caller@ != old(self).owner_id@ ==> r == Err::<(), ContractError>(ContractError::NotAllowed),
            caller@ == old(self).owner_id@ && old(self).whitelist.map().dom().contains(account@)
                ==> r == Err::<(), ContractError>(ContractError::AlreadyWhite),
            r is Ok <==> caller@ == old(self).owner_id@ && !old(self).whitelist.map().dom().contains(account@),
            r is Ok ==> *final(self) == (OinStake { whitelist: final(self).whitelist, ..*old(self) })
                && final(self).whitelist.map() == old(self).whitelist.map().insert(account@, ()),
            r is Err ==> *final(self) == *old(self),
    {
        self.assert_owner(caller)?;
        if self.is_white(account) {
            return Err(ContractError::AlreadyWhite);
        }
        self.whitelist.insert(account.clone(), ());
        Ok(())
    }

    /// The owner removes `account` from the whitelist.
    pub fn remove_white(&mut self, caller: &String, account: &String) -> (r: Result<(), ContractError>)
        requires
            old(self).wf(),
        ensures
            final(self).wf(),
            caller@ != old(self).owner_id@ ==> r == Err::<(), ContractError>(ContractError::NotAllowed),
            caller@ == old(self).owner_id@ && !old(self).whitelist.map().dom().contains(account@)
                ==> r == Err::<(), ContractError>(ContractError::NotInWhitelist),
            r is Ok <==> caller@ == old(self).owner_id@ && old(self).whitelist.map().dom().contains(account@),
            r is Ok ==> *final(self) == (OinStake { whitelist: final(self).whitelist, ..*old(self) })
                && final(self).whitelist.map() == old(self).whitelist.map().remove(account@),
            r is Err ==> *final(self) == *old(self),
    {
        self.assert_owner(caller)?;
        if !self.is_white(account) {
            return Err(ContractError::NotInWhitelist);
        }
        self.whitelist.remove(account);
        Ok(())
    }

    /// The owner's account.
    pub fn get_owner(&self) -> (r: String)
        ensures
            r@ == self.owner_id@,
    {
        self.owner_id.clone()
    }

    /// Whether `account` is the owner.
    pub fn is_owner(&self, account: &String) -> (r: bool)
        ensures
            r == (account@ == self.owner_id@),
    {
        self.owner_id == *account
    }

    /// Whether `account` is a multi-signature administrator.
    pub fn is_mul_white(&self, account: &String) -> (r: bool)
        requires
            self.wf(),
        ensures
            r == self.multisig.mul_white_list.map().dom().contains(account@),
    {
        self.multisig.mul_white_list.contains(account)
    }

    /// Number of multi-signature administrators.
    pub fn mul_white_num(&self) -> (r: u64)
        requires
            self.wf(),
        ensures
            r == self.multisig.mul_white_list.len_spec(),
            r == self.multisig.mul_white_list.map().dom().len(),
    {
        proof {
            self.multisig.mul_white_list.lemma_len();
        }
        self.multisig.mul_white_list.len() as u64
    }

    /// Only multi-signature administrators pass.
    pub fn assert_mul_white(&self, caller: &String) -> (r: Result<(), ContractError>)
        requires
            self.wf(),
        ensures
            r is Ok <==> self.multisig.mul_white_list.map().dom().contains(caller@),
            r is Err ==> r == Err::<(), ContractError>(ContractError::NotMulWhite),
    {
        if self.is_mul_white(caller) {
            Ok(())
        } else {
            Err(ContractError::NotMulWhite)
        }
    }

    /// The owner adds a multi-signature administrator.
    pub fn add_mul_white(&mut self, caller: &String, account: &String) -> (r: Result<(), ContractError>)
        requires
            old(self).wf(),
        ensures
            final(self).wf(),
            r is Ok <==> caller@ == old(self).owner_id@
                && !old(self).multisig.mul_white_list.map().dom().contains(account@),
            caller@ != old(self).owner_id@ ==> r == Err::<(), ContractError>(ContractError::NotAllowed),
            caller@ == old(self).owner_id@ && old(self).multisig.mul_white_list.map().dom().contains(account@)
                ==> r == Err::<(), ContractError>(ContractError::AlreadyWhite),
            r is Ok ==> *final(self) == (OinStake {
                multisig: MultiSig { mul_white_list: final(self).multisig.mul_white_list, ..old(self).multisig },
                ..*old(self)
            }) && final(self).multisig.mul_white_list.map() == old(self).multisig.mul_white_list.map().insert(account@, ()),
            r is Err ==> *final(self) == *old(self),
    {
        self.assert_owner(caller)?;
        if self.is_mul_white(account) {
            return Err(ContractError::AlreadyWhite);
        }
        self.multisig.mul_white_list.insert(account.clone(), ());
        Ok(())
    }

    /// The owner removes a multi-signature administrator.
    pub fn remove_mul_white(&mut self, caller: &String, account: &String) -> (r: Result<(), ContractError>)
        requires
            old(self).wf(),
        ensures
            final(self).wf(),
            r is Ok <==> caller@ == old(self).owner_id@
                && old(self).multisig.mul_white_list.map().dom().contains(account@),
            caller@ != old(self).owner_id@ ==> r == Err::<(), ContractError>(ContractError::NotAllowed),
            caller@ == old(self).owner_id@ && !old(self).multisig.mul_white_list.map().dom().contains(account@)
                ==> r == Err::<(), ContractError>(ContractError::NotInWhitelist),
            r is Ok ==> *final(self) == (OinStake {
                multisig: MultiSig { mul_white_list: final(self).multisig.mul_white_list, ..old(self).multisig },
                ..*old(self)
            }) && final(self).multisig.mul_white_list.map() == old(self).multisig.mul_white_list.map().remove(account@),
            r is Err ==> *final(self) == *old(self),
    {
        self.assert_owner(caller)?;
        if !self.is_mul_white(account) {
            return Err(ContractError::NotInWhitelist);
        }
        self.multisig.mul_white_list.remove(account);
        Ok(())
    }

    /// The contract's own account may not call.
    pub fn assert_not_current(&self, signer: &String, current: &String) -> (r: Result<(), ContractError>)
        ensures
            r is Ok <==> signer@ != current@,
            r is Err ==> r == Err::<(), ContractError>(ContractError::NotCurrentAccount),
    {
        if *signer != *current {
            Ok(())
        } else {
            Err(ContractError::NotCurrentAccount)
        }
    }

    /// Sets the stability fee rate, then advances the fee index under it.
    pub fn set_stable_fee_rate(&mut self, signer: &String, current: &String, fee_rate: u128, now: u64)
        -> (r: Result<(), ContractError>)
        ensures
            signer@ == current@ ==> r == Err::<(), ContractError>(ContractError::NotCurrentAccount),
            signer@ != current@ && fee_rate > MAX_STABLE_FEE_RATE
                ==> r == Err::<(), ContractError>(ContractError::AboveMaximumSetting),
            ({
                let f = StableFee { stable_fee_rate: fee_rate, ..old(self).fee };
                &&& r is Ok <==> signer@ != current@ && fee_rate <= MAX_STABLE_FEE_RATE
                    && f.advance_ok(secs(now), old(self).total_coin as int)
                &&& r is Ok ==> *final(self) == (OinStake {
                        fee: f.advanced(secs(now), old(self).total_coin as int),
                        ..*old(self)
                    })
            }),
    {
        self.assert_not_current(signer, current)?;
        if fee_rate > MAX_STABLE_FEE_RATE {
            return Err(ContractError::AboveMaximumSetting);
        }
        self.fee.stable_fee_rate = fee_rate;
        self.update_stable_system_index(now)
    }

    /// Sets the pledge rate under which positions can be liquidated.
    pub fn set_liquidation_line(&mut self, signer: &String, current: &String, liquidation_line: u128)
        -> (r: Result<(), ContractError>)
        ensures
            r is Ok <==> signer@ != current@ && liquidation_line >= MIN_LIQUIDATION_LINE,
            signer@ == current@ ==> r == Err::<(), ContractError>(ContractError::NotCurrentAccount),
            signer@ != current@ && liquidation_line < MIN_LIQUIDATION_LINE
                ==> r == Err::<(), ContractError>(ContractError::AboveMaximumSetting),
            r is Ok ==> *final(self) == (OinStake {
                params: Params { liquidation_line, ..old(self).params },
                ..*old(self)
            }),
            r is Err ==> *final(self) == *old(self),
    {
        self.assert_not_current(signer, current)?;
        if liquidation_line < MIN_LIQUIDATION_LINE {
            return Err(ContractError::AboveMaximumSetting);
        }
        self.params.liquidation_line = liquidation_line;
        Ok(())
    }

    /// Sets the most stable coin the system may have minted.
    pub fn set_coin_upper_limit(&mut self, signer: &String, current: &String, coin_upper_limit: u128)
        -> (r: Result<(), ContractError>)
        ensures
            r is Ok <==> signer@ != current@ && coin_upper_limit <= MAX_COIN_UPPER_LIMIT
                && coin_upper_limit >= old(self).total_coin,
            signer@ == current@ ==> r == Err::<(), ContractError>(ContractError::NotCurrentAccount),
            signer@ != current@ && coin_upper_limit > MAX_COIN_UPPER_LIMIT
                ==> r == Err::<(), ContractError>(ContractError::AboveMaximumSetting),
            signer@ != current@ && coin_upper_limit <= MAX_COIN_UPPER_LIMIT && coin_upper_limit < old(self).total_coin
                ==> r == Err::<(), ContractError>(ContractError::BelowTotalCoin),
            r is Ok ==> *final(self) == (OinStake {
                params: Params { coin_upper_limit, ..old(self).params },
                ..*old(self)
            }),
            r is Err ==> *final(self) == *old(self),
    {
        self.assert_not_current(signer, current)?;
        if coin_upper_limit > MAX_COIN_UPPER_LIMIT {
            return Err(ContractError::AboveMaximumSetting);
        }
        if coin_upper_limit < self.total_coin {
            return Err(ContractError::BelowTotalCoin);
        }
        self.params.coin_upper_limit = coin_upper_limit;
        Ok(())
    }

    /// Sets the least stable coin a position may hold.
    pub fn set_min_mint_amount(&mut self, signer: &String, current: &String, amount: u128)
        -> (r: Result<(), ContractError>)
        ensures
            r is Ok <==> signer@ != current@,
            r is Err ==> r == Err::<(), ContractError>(ContractError::NotCurrentAccount) && *final(self) == *old(self),
            r is Ok ==> *final(self) == (OinStake { params: Params { min_mint_amount: amount, ..old(self).params }, ..*old(self) }),
    {
        self.assert_not_current(signer, current)?;
        self.params.min_mint_amount = amount;
        Ok(())
    }

    /// Sets the guarantee a new position reserves.
    pub fn set_guarantee(&mut self, signer: &String, current: &String, amount: u128)
        -> (r: Result<(), ContractError>)
        ensures
            r is Ok <==> signer@ != current@,
            r is Err ==> r == Err::<(), ContractError>(ContractError::NotCurrentAccount) && *final(self) == *old(self),
            r is Ok ==> *final(self) == (OinStake { params: Params { guarantee_limit: amount, ..old(self).params }, ..*old(self) }),
    {
        self.assert_not_current(signer, current)?;
        self.params.guarantee_limit = amount;
        Ok(())
    }

    /// Sets the collateral ratio the pools take for liquidated debt.
    pub fn set_allot_ratio(&mut self, signer: &String, current: &String, amount: u128)
        -> (r: Result<(), ContractError>)
        ensures
            r is Ok <==> signer@ != current@ && MIN_ALLOT_RATIO <= amount <= MAX_ALLOT_RATIO,
            signer@ == current@ ==> r == Err::<(), ContractError>(ContractError::NotCurrentAccount),
            signer@ != current@ && amount < MIN_ALLOT_RATIO ==> r == Err::<(), ContractError>(ContractError::BelowMinimumSetting),
            signer@ != current@ && amount >= MIN_ALLOT_RATIO && amount > MAX_ALLOT_RATIO
                ==> r == Err::<(), ContractError>(ContractError::AboveMaximumSetting),
            r is Ok ==> *final(self) == (OinStake { params: Params { allot_ratio: amount, ..old(self).params }, ..*old(self) }),
            r is Err ==> *final(self) == *old(self),
    {
        self.assert_not_current(signer, current)?;
        if amount < MIN_ALLOT_RATIO {
            return Err(ContractError::BelowMinimumSetting);
        }
        if amount > MAX_ALLOT_RATIO {
            return Err(ContractError::AboveMaximumSetting);
        }
        self.params.allot_ratio = amount;
        Ok(())
    }

    /// Sets the liquidator's gas compensation ratio.
    pub fn set_gas_compensation_ratio(&mut self, signer: &String, current: &String, amount: u128)
        -> (r: Result<(), ContractError>)
        ensures
            r is Ok <==> signer@ != current@ && 0 < amount <= MAX_GAS_COMPENSATION_RATIO,
            signer@ == current@ ==> r == Err::<(), ContractError>(ContractError::NotCurrentAccount),
            signer@ != current@ && amount == 0 ==> r == Err::<(), ContractError>(ContractError::BelowMinimumSetting),
            signer@ != current@ && amount > MAX_GAS_COMPENSATION_RATIO
                ==> r == Err::<(), ContractError>(ContractError::AboveMaximumSetting),
            r is Ok ==> *final(self) == (OinStake { params: Params { gas_compensation_ratio: amount, ..old(self).params }, ..*old(self) }),
            r is Err ==> *final(self) == *old(self),
    {
        self.assert_not_current(signer, current)?;
        if amount == 0 {
            return Err(ContractError::BelowMinimumSetting);
        }
        if amount > MAX_GAS_COMPENSATION_RATIO {
            return Err(ContractError::AboveMaximumSetting);
        }
        self.params.gas_compensation_ratio = amount;
        Ok(())
    }

    /// Sets the project's liquidation fee ratio.
    pub fn set_liquidation_fee_ratio(&mut self, signer: &String, current: &String, amount: u128)
        -> (r: Result<(), ContractError>)
        ensures
            r is Ok <==> signer@ != current@ && 0 < amount <= MAX_LIQUIDATION_FEE_RATIO,
            signer@ == current@ ==> r == Err::<(), ContractError>(ContractError::NotCurrentAccount),
            signer@ != current@ && amount == 0 ==> r == Err::<(), ContractError>(ContractError::BelowMinimumSetting),
            signer@ != current@ && amount > MAX_LIQUIDATION_FEE_RATIO
                ==> r == Err::<(), ContractError>(ContractError::AboveMaximumSetting),
            r is Ok ==> *final(self) == (OinStake { params: Params { liquidation_fee_ratio: amount, ..old(self).params }, ..*old(self) }),
            r is Err ==> *final(self) == *old(self),
    {
        self.assert_not_current(signer, current)?;
        if amount == 0 {
            return Err(ContractError::BelowMinimumSetting);
        }
        if amount > MAX_LIQUIDATION_FEE_RATIO {
            return Err(ContractError::AboveMaximumSetting);
        }
        self.params.liquidation_fee_ratio = amount;
        Ok(())
    }

    /// Sets how long a confirmed request waits before it can run.
    pub fn set_request_cooldown(&mut self, signer: &String, current: &String, amount: u64)
        -> (r: Result<(), ContractError>)
        ensures
            r is Ok <==> signer@ != current@ && DEFAULT_REQUEST_COOLDOWN <= amount <= MAX_REQUEST_COOLDOWN,
            signer@ == current@ ==> r == Err::<(), ContractError>(ContractError::NotCurrentAccount),
            signer@ != current@ && !(DEFAULT_REQUEST_COOLDOWN <= amount <= MAX_REQUEST_COOLDOWN)
                ==> r == Err::<(), ContractError>(ContractError::IllegalCooldown),
            r is Ok ==> *final(self) == (OinStake {
                multisig: MultiSig { request_cooldown: amount, ..old(self).multisig },
                ..*old(self)
            }),
            r is Err ==> *final(self) == *old(self),
    {
        self.assert_not_current(signer, current)?;
        if !(amount >= DEFAULT_REQUEST_COOLDOWN && amount <= MAX_REQUEST_COOLDOWN) {
            return Err(ContractError::IllegalCooldown);
        }
        self.multisig.request_cooldown = amount;
        Ok(())
    }

    /// Sets the share of administrators, in percent, a request needs.
    pub fn set_num_confirm_ratio(&mut self, signer: &String, current: &String, amount: u64)
        -> (r: Result<(), ContractError>)
        ensures
            r is Ok <==> signer@ != current@ && 50 <= amount <= 100,
            signer@ == current@ ==> r == Err::<(), ContractError>(ContractError::NotCurrentAccount),
            signer@ != current@ && !(50 <= amount <= 100) ==> r == Err::<(), ContractError>(ContractError::IllegalConfirmRatio),
            r is Ok ==> *final(self) == (OinStake {
                multisig: MultiSig { num_confirm_ratio: amount, ..old(self).multisig },
                ..*old(self)
            }),
            r is Err ==> *final(self) == *old(self),
    {
        self.assert_not_current(signer, current)?;
        if !(amount >= 50 && amount <= 100) {
            return Err(ContractError::IllegalConfirmRatio);
        }
        self.multisig.num_confirm_ratio = amount;
        Ok(())
    }

    /// The collateral price.
    pub fn peek(&self) -> (r: u128)
        ensures
            r == self.oracle.token_price,
    {
        self.oracle.token_price
    }

    /// Only the oracle passes.
    pub fn assert_oracle(&self, caller: &String) -> (r: Result<(), ContractError>)
        ensures
            r is Ok <==> caller@ == self.oracle.oracle@,
            r is Err ==> r == Err::<(), ContractError>(ContractError::NotOracle),
    {
        if self.oracle.oracle == *caller {
            Ok(())
        } else {
            Err(ContractError::NotOracle)
        }
    }

    /// A price is set and younger than the poke interval at `now`.
    pub fn assert_is_poked(&self, now: u64) -> (r: Result<(), ContractError>)
        ensures
            r is Ok <==> self.oracle.token_price != 0 && now >= self.oracle.token_poke_time
                && now - self.oracle.token_poke_time < POKE_INTERVAL_TIME,
            self.oracle.token_price != 0 && now < self.oracle.token_poke_time
                ==> r == Err::<(), ContractError>(ContractError::SubOverflow),
            self.oracle.token_price == 0 || (now >= self.oracle.token_poke_time
                && now - self.oracle.token_poke_time >= POKE_INTERVAL_TIME)
                ==> r == Err::<(), ContractError>(ContractError::PriceNotPoked),
    {
        if self.oracle.token_price == 0 {
            return Err(ContractError::PriceNotPoked);
        }
        if now < self.oracle.token_poke_time {
            return Err(ContractError::SubOverflow);
        }
        if now - self.oracle.token_poke_time < POKE_INTERVAL_TIME {
            Ok(())
        } else {
            Err(ContractError::PriceNotPoked)
        }
    }

    /// The owner hands the oracle role to `account`.
    pub fn set_oracle(&mut self, caller: &String, account: &String) -> (r: Result<(), ContractError>)
        ensures
            r is Ok <==> caller@ == old(self).owner_id@ && old(self).oracle.oracle@ != account@,
            caller@ != old(self).owner_id@ ==> r == Err::<(), ContractError>(ContractError::NotAllowed),
            caller@ == old(self).owner_id@ && old(self).oracle.oracle@ == account@
                ==> r == Err::<(), ContractError>(ContractError::AlreadyOracle),
            r is Ok ==> *final(self) == (OinStake { oracle: Oracle { oracle: final(self).oracle.oracle, ..old(self).oracle }, ..*old(self) })
                && final(self).oracle.oracle@ == account@,
            r is Err ==> *final(self) == *old(self),
    {
        self.assert_owner(caller)?;
        if self.oracle.oracle == *account {
            return Err(ContractError::AlreadyOracle);
        }
        self.oracle.oracle = account.clone();
        Ok(())
    }
}

} // verus!
