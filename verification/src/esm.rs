//! Emergency shutdown: one switch per operation, 1 open and 0 paused.
use vstd::prelude::*;
use crate::error::ContractError;
use crate::state::{Esm, OinStake};

verus! {

/// Every operation open.
pub open spec fn esm_all(v: u8) -> Esm {
    Esm {
        is_deposit_live: v,
        is_withdraw_live: v,
        is_mint_coin_live: v,
        is_burn_coin_live: v,
        is_claim_reward_live: v,
        is_liquidate_live: v,
        is_provide_to_sp_live: v,
        is_withdraw_from_sp_live: v,
        is_claim_token_live: v,
    }
}

impl OinStake {
    pub fn open_deposit(&mut self)
        ensures *final(self) == (OinStake { esm: Esm { is_deposit_live: 1, ..old(self).esm }, ..*old(self) }),
    {
        self.esm.is_deposit_live = 1;
    }

    pub fn pause_deposit(&mut self)
        ensures *final(self) == (OinStake { esm: Esm { is_deposit_live: 0, ..old(self).esm }, ..*old(self) }),
    {
        self.esm.is_deposit_live = 0;
    }

    pub fn open_withdraw(&mut self)
        ensures *final(self) == (OinStake { esm: Esm { is_withdraw_live: 1, ..old(self).esm }, ..*old(self) }),
    {
        self.esm.is_withdraw_live = 1;
    }

    pub fn pause_withdraw(&mut self)
        ensures *final(self) == (OinStake { esm: Esm { is_withdraw_live: 0, ..old(self).esm }, ..*old(self) }),
    {
        self.esm.is_withdraw_live = 0;
    }

    pub fn open_mint_coin(&mut self)
        ensures *final(self) == (OinStake { esm: Esm { is_mint_coin_live: 1, ..old(self).esm }, ..*old(self) }),
    {
        self.esm.is_mint_coin_live = 1;
    }

    pub fn pause_mint_coin(&mut self)
        ensures *final(self) == (OinStake { esm: Esm { is_mint_coin_live: 0, ..old(self).esm }, ..*old(self) }),
    {
        self.esm.is_mint_coin_live = 0;
    }

    pub fn open_burn_coin(&mut self)
        ensures *final(self) == (OinStake { esm: Esm { is_burn_coin_live: 1, ..old(self).esm }, ..*old(self) }),
    {
        self.esm.is_burn_coin_live = 1;
    }

    pub fn pause_burn_coin(&mut self)
        ensures *final(self) == (OinStake { esm: Esm { is_burn_coin_live: 0, ..old(self).esm }, ..*old(self) }),
    {
        self.esm.is_burn_coin_live = 0;
    }

    pub fn open_claim_reward(&mut self)
        ensures *final(self) == (OinStake { esm: Esm { is_claim_reward_live: 1, ..old(self).esm }, ..*old(self) }),
    {
        self.esm.is_claim_reward_live = 1;
    }

    pub fn pause_claim_reward(&mut self)
        ensures *final(self) == (OinStake { esm: Esm { is_claim_reward_live: 0, ..old(self).esm }, ..*old(self) }),
    {
        self.esm.is_claim_reward_live = 0;
    }

    pub fn open_liquidate(&mut self)
        ensures *final(self) == (OinStake { esm: Esm { is_liquidate_live: 1, ..old(self).esm }, ..*old(self) }),
    {
        self.esm.is_liquidate_live = 1;
    }

    pub fn pause_liquidate(&mut self)
        ensures *final(self) == (OinStake { esm: Esm { is_liquidate_live: 0, ..old(self).esm }, ..*old(self) }),
    {
        self.esm.is_liquidate_live = 0;
    }

    pub fn open_provide_to_sp(&mut self)
        ensures *final(self) == (OinStake { esm: Esm { is_provide_to_sp_live: 1, ..old(self).esm }, ..*old(self) }),
    {
        self.esm.is_provide_to_sp_live = 1;
    }

    pub fn pause_provide_to_sp(&mut self)
        ensures *final(self) == (OinStake { esm: Esm { is_provide_to_sp_live: 0, ..old(self).esm }, ..*old(self) }),
    {
        self.esm.is_provide_to_sp_live = 0;
    }

    pub fn open_withdraw_from_sp(&mut self)
        ensures *final(self) == (OinStake { esm: Esm { is_withdraw_from_sp_live: 1, ..old(self).esm }, ..*old(self) }),
    {
        self.esm.is_withdraw_from_sp_live = 1;
    }

    pub fn pause_withdraw_from_sp(&mut self)
        ensures *final(self) == (OinStake { esm: Esm { is_withdraw_from_sp_live: 0, ..old(self).esm }, ..*old(self) }),
    {
        self.esm.is_withdraw_from_sp_live = 0;
    }

    pub fn open_claim_token(&mut self)
        ensures *final(self) == (OinStake { esm: Esm { is_claim_token_live: 1, ..old(self).esm }, ..*old(self) }),
    {
        self.esm.is_claim_token_live = 1;
    }

    pub fn pause_claim_token(&mut self)
        ensures *final(self) == (OinStake { esm: Esm { is_claim_token_live: 0, ..old(self).esm }, ..*old(self) }),
    {
        self.esm.is_claim_token_live = 0;
    }

    /// Whether deposits are open.
    pub fn is_deposit_paused(&self) -> (r: bool)
        ensures r == (self.esm.is_deposit_live == 1),
    {
        self.esm.is_deposit_live == 1
    }

    pub fn is_withdraw_paused(&self) -> (r: bool)
        ensures r == (self.esm.is_withdraw_live == 1),
    {
        self.esm.is_withdraw_live == 1
    }

    pub fn is_mint_coin_paused(&self) -> (r: bool)
        ensures r == (self.esm.is_mint_coin_live == 1),
    {
        self.esm.is_mint_coin_live == 1
    }

    pub fn is_burn_coin_paused(&self) -> (r: bool)
        ensures r == (self.esm.is_burn_coin_live == 1),
    {
        self.esm.is_burn_coin_live == 1
    }

    pub fn is_claim_reward_paused(&self) -> (r: bool)
        ensures r == (self.esm.is_claim_reward_live == 1),
    {
        self.esm.is_claim_reward_live == 1
    }

    pub fn is_liquidate_paused(&self) -> (r: bool)
        ensures r == (self.esm.is_liquidate_live == 1),
    {
        self.esm.is_liquidate_live == 1
    }

    pub fn is_provide_to_sp_paused(&self) -> (r: bool)
        ensures r == (self.esm.is_provide_to_sp_live == 1),
    {
        self.esm.is_provide_to_sp_live == 1
    }

    pub fn is_withdraw_from_sp_paused(&self) -> (r: bool)
        ensures r == (self.esm.is_withdraw_from_sp_live == 1),
    {
        self.esm.is_withdraw_from_sp_live == 1
    }

    pub fn is_claim_token_paused(&self) -> (r: bool)
        ensures r == (self.esm.is_claim_token_live == 1),
    {
        self.esm.is_claim_token_live == 1
    }

    /// Opens every operation.
    pub fn internal_open(&mut self)
        ensures
            *final(self) == (OinStake { esm: esm_all(1), ..*old(self) }),
    {
        self.open_deposit();
        self.open_withdraw();
        self.open_mint_coin();
        self.open_burn_coin();
        self.open_claim_reward();
        self.open_liquidate();
        self.open_provide_to_sp();
        self.open_withdraw_from_sp();
        self.open_claim_token();
    }

    /// Pauses every operation.
    pub fn internal_shutdown(&mut self)
        ensures
            *final(self) == (OinStake { esm: esm_all(0), ..*old(self) }),
    {
        self.pause_deposit();
        self.pause_withdraw();
        self.pause_mint_coin();
        self.pause_burn_coin();
        self.pause_claim_reward();
        self.pause_liquidate();
        self.pause_provide_to_sp();
        self.pause_withdraw_from_sp();
        self.pause_claim_token();
    }

    /// The owner opens every operation.
    pub fn outside_open(&mut self, caller: &String) -> (r: Result<(), ContractError>)
        ensures
            r is Ok <==> caller@ == old(self).owner_id@,
            r is Ok ==> *final(self) == (OinStake { esm: esm_all(1), ..*old(self) }),
            r is Err ==> *final(self) == *old(self) && r == Err::<(), ContractError>(ContractError::NotAllowed),
    {
        self.assert_owner(caller)?;
        self.internal_open();
        Ok(())
    }

    /// The owner pauses every operation.
    pub fn outside_shutdown(&mut self, caller: &String) -> (r: Result<(), ContractError>)
        ensures
            r is Ok <==> caller@ == old(self).owner_id@,
            r is Ok ==> *final(self) == (OinStake { esm: esm_all(0), ..*old(self) }),
            r is Err ==> *final(self) == *old(self) && r == Err::<(), ContractError>(ContractError::NotAllowed),
    {
        self.assert_owner(caller)?;
        self.internal_shutdown();
        Ok(())
    }

    /// Only the owner passes.
    pub fn assert_owner(&self, caller: &String) -> (r: Result<(), ContractError>)
        ensures
            r is Ok <==> caller@ == self.owner_id@,
            r is Err ==> r == Err::<(), ContractError>(ContractError::NotAllowed),
    {
        if *caller == self.owner_id {
            Ok(())
        } else {
            Err(ContractError::NotAllowed)
        }
    }
}

} // verus!
