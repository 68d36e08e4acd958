//! The contract's state and its construction.
use vstd::prelude::*;
use vstd::string::StringExecFns;
use crate::book::Book;
use crate::consts::{INIT_MIN_MINT_AMOUNT, INIT_LIQUIDATION_LINE, INIT_COIN_UPPER_LIMIT, INIT_GUARANTEE_LIMIT, INIT_GAS_RATIO_LINE, INIT_LIQUIDATION_FEE_LINE, INIT_ALLOT_RATIO_LINE, INIT_INDEX, NANO_CONVERSION, INIT_STABLE_INDEX, INIT_STABLE_FEE_RATE, DEFAULT_REQUEST_COOLDOWN, DEFAULT_NUM_CONFIRM_RATIO, DECIMAL_PRECISION, STABLE_SPEED, INIT_LIVE, REWARD_UPPER_BOUND};
use crate::ledger::TokenLedger;
use crate::msig_types::{Confirmations, MultiSigRequestWithSigner};
use crate::types::{Depositor, Position, RewardCoin, SystemG, UserReward};
use crate::u256::U256;

verus! {

/// Account of the collateral token accepted for deposits.
pub const ST_NEAR: &'static str = "meta-v2.pool.testnet";

/// Account of the token that pays the stability-pool rewards.
pub const ST_OIN: &'static str = "a61175c3dd4bee8a854ffc27c41e39e8e8161d11.factory.goerli.testnet";

/// `ST_NEAR` as a string.
pub fn st_near() -> (r: String)
    ensures
        r@ == ST_NEAR@,
{
    String::from_str(ST_NEAR)
}

/// `ST_OIN` as a string.
pub fn st_oin() -> (r: String)
    ensures
        r@ == ST_OIN@,
{
    String::from_str(ST_OIN)
}

/// Risk parameters set by the contract itself.
pub struct Params {
    pub min_mint_amount: u128,
    pub liquidation_line: u128,
    pub coin_upper_limit: u128,
    pub guarantee_limit: u128,
    pub gas_compensation_ratio: u128,
    pub liquidation_fee_ratio: u128,
    pub allot_ratio: u128,
}

/// Redistribution of liquidated debt and collateral over all pledges.
pub struct Allot {
    /// Debt assigned per whole token so far.
    pub sys_allot_debt: u128,
    /// Collateral assigned per whole token so far.
    pub sys_allot_token: u128,
    /// Rounding remainders carried to the next redistribution.
    pub token_offset: u128,
    pub debt_offset: u128,
}

/// The stability fee: a yearly rate accrued through a global index.
pub struct StableFee {
    pub total_unpaid_stable_fee: u128,
    pub total_paid_stable_fee: u128,
    /// Time of the last index update, in seconds.
    pub stable_block_number: u64,
    pub stable_index: u128,
    pub stable_fee_rate: u128,
    pub total_stable_fee_transfer_failed: u128,
}

/// Switches of the emergency shutdown: 1 open, 0 paused.
#[derive(Clone, Copy, Debug, PartialEq, Eq, Structural)]
pub struct Esm {
    pub is_deposit_live: u8,
    pub is_withdraw_live: u8,
    pub is_mint_coin_live: u8,
    pub is_burn_coin_live: u8,
    pub is_claim_reward_live: u8,
    pub is_liquidate_live: u8,
    pub is_provide_to_sp_live: u8,
    pub is_withdraw_from_sp_live: u8,
    pub is_claim_token_live: u8,
}

/// Price feed of the collateral.
pub struct Oracle {
    pub token_price: u128,
    /// Time of the last price, in nanoseconds.
    pub token_poke_time: u64,
    pub oracle: String,
}

/// Reward coins of the pledge pool and each account's share.
pub struct Rewards {
    pub reward_coins: Book<String, RewardCoin>,
    /// Keyed by `staker:coin`.
    pub account_reward: Book<String, UserReward>,
}

/// Stable coin metadata.
pub struct Metadata {
    pub name: String,
    pub symbol: String,
    pub reference: String,
    pub reference_hash: Vec<u8>,
    pub decimals: u8,
}

/// Multi-signature administration.
pub struct MultiSig {
    pub request_cooldown: u64,
    pub num_confirm_ratio: u64,
    pub request_nonce: u32,
    pub requests: Book<u32, MultiSigRequestWithSigner>,
    pub confirmations: Book<u32, Confirmations>,
    pub num_requests_pk: Book<Vec<u8>, u32>,
    pub mul_white_list: Book<String, ()>,
}

/// The stability pool: stable coin deposits that absorb liquidated debt in
/// exchange for the liquidated collateral.
pub struct StablePool {
    pub total_usdo_deposits: u128,
    pub depositors: Book<String, Depositor>,
    /// Collateral-gain sums S, by epoch then scale.
    pub epoch_to_scale_to_sum: Vec<Vec<U256>>,
    /// Mining-reward sums G, by epoch then scale.
    pub epoch_to_scale_to_g: Vec<Vec<SystemG>>,
    /// Product P.
    pub p_system: u128,
    pub current_scale: u64,
    pub current_epoch: u128,
    pub last_near_error_offset: u128,
    pub last_usdo_loss_error_offset: u128,
    /// Collateral held for depositors.
    pub total_token_sp: u128,
    /// Mining rewards available.
    pub reward_sp: u128,
    /// Mining reward per second.
    pub reward_speed_sp: u128,
}

/// Accounts with a pledge, for liquidators to scan.
pub struct Vaults {
    pub unsorted_vaults: Vec<String>,
    pub account_to_index: Book<String, usize>,
}

/// The whole contract.
pub struct OinStake {
    pub owner_id: String,
    pub whitelist: Book<String, ()>,
    pub params: Params,
    pub total_coin: u128,
    pub total_token: u128,
    pub total_guarantee: u128,
    pub positions: Book<String, Position>,
    pub allot: Allot,
    pub total_liquidation_fee: u128,
    pub rewards: Rewards,
    pub esm: Esm,
    pub oracle: Oracle,
    pub stake_storage_usage: u128,
    pub token: TokenLedger,
    pub metadata: Metadata,
    pub multisig: MultiSig,
    pub fee: StableFee,
    pub black_hole: String,
    pub stake_token: String,
    pub stable_token: String,
    pub sp: StablePool,
    pub vaults: Vaults,
}

/// The sum of the guarantees of a sequence of positions.
pub open spec fn guarantee_sum(s: Seq<Position>) -> int
    decreases s.len(),
{
    if s.len() == 0 {
        0
    } else {
        guarantee_sum(s.drop_last()) + s.last().guarantee
    }
}

/// The guarantees the positions hold together.
pub open spec fn reserved(pm: Book<String, Position>) -> int {
    guarantee_sum(pm.val_seq())
}

proof fn lemma_guarantee_sum_update(s: Seq<Position>, i: int, v: Position)
    requires
        0 <= i < s.len(),
    ensures
        guarantee_sum(s.update(i, v)) == guarantee_sum(s) - s[i].guarantee + v.guarantee,
    decreases s.len(),
{
    let t = s.update(i, v);
    if i == s.len() - 1 {
        assert(t.drop_last() =~= s.drop_last());
    } else {
        assert(t.drop_last() =~= s.drop_last().update(i, v));
        lemma_guarantee_sum_update(s.drop_last(), i, v);
    }
}

/// Setting the position of `k` to `v` changes the reserved guarantees by
/// `v`'s guarantee less the one `k` had.
pub proof fn lemma_reserved_insert(before: Book<String, Position>, after: Book<String, Position>, k: Seq<char>,
    v: Position)
    requires
        before.wf(),
        before.has(k) ==> after.val_seq() == before.val_seq().update(before.pos(k), v),
        !before.has(k) ==> after.val_seq() == before.val_seq().push(v),
    ensures
        reserved(after) == reserved(before) + v.guarantee
            - (if before.map().dom().contains(k) { before.map()[k].guarantee as int } else { 0 }),
{
    let s = before.val_seq();
    if before.has(k) {
        before.lemma_has(k);
        lemma_guarantee_sum_update(s, before.pos(k), v);
    } else {
        assert(s.push(v).drop_last() =~= s);
    }
}

impl OinStake {
    /// All keyed collections are well formed, and the total guarantee is
    /// what the positions hold.
    pub open spec fn wf(&self) -> bool {
        &&& self.tables_wf()
        &&& reserved(self.positions) == self.total_guarantee
        &&& crate::sp::sum_entry(self.sp, self.sp.current_epoch as int, self.sp.current_scale as int) is Some
    }

    /// All keyed collections are well formed.
    pub open spec fn tables_wf(&self) -> bool {
        &&& self.whitelist.wf()
        &&& self.positions.wf()
        &&& self.rewards.reward_coins.wf()
        &&& self.rewards.reward_coins.len_spec() <= REWARD_UPPER_BOUND
        &&& self.rewards.account_reward.wf()
        &&& self.token.wf()
        &&& self.multisig.requests.wf()
        &&& self.multisig.confirmations.wf()
        &&& self.multisig.num_requests_pk.wf()
        &&& self.multisig.mul_white_list.wf()
        &&& self.sp.depositors.wf()
        &&& self.vaults.account_to_index.wf()
    }

    /// Seconds from a nanosecond timestamp.
    pub fn to_nano(timestamp: u64) -> (r: u64)
        ensures
            r == timestamp / NANO_CONVERSION,
    {
        timestamp / NANO_CONVERSION
    }

    /// A fresh contract owned by `owner_id`. `current_account_id` is the
    /// contract's own account, `now` the block time in nanoseconds,
    /// `stake_storage_usage` the storage bytes one pledge needs and
    /// `token_account_storage_usage` those one stable coin account needs.
    pub fn new(
        owner_id: String,
        current_account_id: String,
        now: u64,
        stake_storage_usage: u128,
        token_account_storage_usage: u64,
    ) -> (r: OinStake)
        ensures
            r.wf(),
            r.owner_id@ == owner_id@,
            r.oracle.oracle@ == owner_id@,
            r.whitelist.map().dom() == set![current_account_id@, owner_id@],
            r.total_coin == 0 && r.total_token == 0 && r.total_guarantee == 0,
            r.positions.map() == Map::<Seq<char>, Position>::empty(),
            r.params.min_mint_amount == INIT_MIN_MINT_AMOUNT,
            r.params.liquidation_line == INIT_LIQUIDATION_LINE,
            r.params.coin_upper_limit == INIT_COIN_UPPER_LIMIT,
            r.params.guarantee_limit == INIT_GUARANTEE_LIMIT,
            r.params.gas_compensation_ratio == INIT_GAS_RATIO_LINE,
            r.params.liquidation_fee_ratio == INIT_LIQUIDATION_FEE_LINE,
            r.params.allot_ratio == INIT_ALLOT_RATIO_LINE,
            r.allot == (Allot { sys_allot_debt: 0, sys_allot_token: 0, token_offset: 0, debt_offset: 0 }),
            r.esm == (Esm {
                is_deposit_live: 1,
                is_withdraw_live: 1,
                is_mint_coin_live: 1,
                is_burn_coin_live: 1,
                is_claim_reward_live: 1,
                is_liquidate_live: 1,
                is_provide_to_sp_live: 1,
                is_withdraw_from_sp_live: 1,
                is_claim_token_live: 1,
            }),
            r.oracle.token_price == 0,
            r.oracle.token_poke_time == 0,
            r.stake_storage_usage == stake_storage_usage,
            r.token.total_supply == 0,
            r.token.accounts.map() == Map::<Seq<char>, u128>::empty(),
            r.token.account_storage_usage == token_account_storage_usage,
            r.rewards.reward_coins.key_seq() == seq![ST_NEAR@],
            r.rewards.reward_coins.map()[ST_NEAR@] == (RewardCoin {
                token: r.rewards.reward_coins.map()[ST_NEAR@].token,
                total_reward: 0,
                reward_speed: 0,
                index: INIT_INDEX,
                block_number: now / NANO_CONVERSION,
                double_scale: INIT_INDEX,
            }),
            r.rewards.reward_coins.map()[ST_NEAR@].token@ == ST_NEAR@,
            r.rewards.account_reward.map() == Map::<Seq<char>, UserReward>::empty(),
            r.fee == (StableFee {
                total_unpaid_stable_fee: 0,
                total_paid_stable_fee: 0,
                stable_block_number: 0,
                stable_index: INIT_STABLE_INDEX,
                stable_fee_rate: INIT_STABLE_FEE_RATE,
                total_stable_fee_transfer_failed: 0,
            }),
            r.total_liquidation_fee == 0,
            r.multisig.request_cooldown == DEFAULT_REQUEST_COOLDOWN,
            r.multisig.num_confirm_ratio == DEFAULT_NUM_CONFIRM_RATIO,
            r.multisig.request_nonce == 0,
            r.multisig.requests.map().dom() == Set::<u32>::empty(),
            r.multisig.mul_white_list.map().dom() == Set::<Seq<char>>::empty(),
            r.stake_token@ == ST_NEAR@,
            r.stable_token@ == ST_OIN@,
            r.sp.p_system == DECIMAL_PRECISION,
            r.sp.current_scale == 0,
            r.sp.current_epoch == 0,
            r.sp.total_usdo_deposits == 0,
            r.sp.total_token_sp == 0,
            r.sp.reward_sp == 0,
            r.sp.reward_speed_sp == STABLE_SPEED,
            r.sp.last_near_error_offset == 0,
            r.sp.last_usdo_loss_error_offset == 0,
            r.sp.depositors.map() == Map::<Seq<char>, Depositor>::empty(),
            r.sp.epoch_to_scale_to_sum@.len() == 1,
            r.sp.epoch_to_scale_to_sum@[0]@ == seq![U256 { hi: 0, lo: 0 }, U256 { hi: 0, lo: 0 }],
            r.sp.epoch_to_scale_to_g@.len() == 1,
            r.sp.epoch_to_scale_to_g@[0]@ == seq![SystemG { g_block_num: 0, g_system: U256 { hi: 0, lo: 0 } }],
            r.vaults.unsorted_vaults@ == Seq::<String>::empty(),
            r.vaults.account_to_index.map() == Map::<Seq<char>, usize>::empty(),
            crate::vaults::list_kept(&r),
            r.multisig.confirmations.map().dom() == Set::<u32>::empty(),
            r.multisig.num_requests_pk.map().dom() == Set::<Seq<u8>>::empty(),
            r.metadata.name@ == "nUSDO"@,
            r.metadata.symbol@ == "nUSDO"@,
            r.metadata.reference@ == Seq::<char>::empty(),
            r.metadata.reference_hash@ == Seq::<u8>::empty(),
            r.metadata.decimals == 8,
            r.black_hole@ == "0000000000000000000000000000000000000000000000000000000000000000"@,
    {
        let mut whitelist: Book<String, ()> = Book::new();
        whitelist.insert(current_account_id.clone(), ());
        whitelist.insert(owner_id.clone(), ());
        let mut reward_coins: Book<String, RewardCoin> = Book::new();
        let block_number = Self::to_nano(now);
        reward_coins.insert(
            String::from_str(ST_NEAR),
            RewardCoin {
                token: String::from_str(ST_NEAR),
                total_reward: 0,
                reward_speed: 0,
                index: INIT_INDEX,
                double_scale: INIT_INDEX,
                block_number,
            },
        );
        let mut sum0: Vec<U256> = Vec::new();
        sum0.push(U256::zero());
        sum0.push(U256::zero());
        let mut sums: Vec<Vec<U256>> = Vec::new();
        sums.push(sum0);
        let mut g0: Vec<SystemG> = Vec::new();
        g0.push(SystemG { g_block_num: 0, g_system: U256::zero() });
        let mut gs: Vec<Vec<SystemG>> = Vec::new();
        gs.push(g0);
        let r = OinStake {
            owner_id: owner_id.clone(),
            whitelist,
            params: Params {
                min_mint_amount: INIT_MIN_MINT_AMOUNT,
                liquidation_line: INIT_LIQUIDATION_LINE,
                coin_upper_limit: INIT_COIN_UPPER_LIMIT,
                guarantee_limit: INIT_GUARANTEE_LIMIT,
                gas_compensation_ratio: INIT_GAS_RATIO_LINE,
                liquidation_fee_ratio: INIT_LIQUIDATION_FEE_LINE,
                allot_ratio: INIT_ALLOT_RATIO_LINE,
            },
            total_coin: 0,
            total_token: 0,
            total_guarantee: 0,
            positions: Book::new(),
            allot: Allot { sys_allot_debt: 0, sys_allot_token: 0, token_offset: 0, debt_offset: 0 },
            total_liquidation_fee: 0,
            rewards: Rewards { reward_coins, account_reward: Book::new() },
            esm: Esm {
                is_deposit_live: INIT_LIVE,
                is_withdraw_live: INIT_LIVE,
                is_mint_coin_live: INIT_LIVE,
                is_burn_coin_live: INIT_LIVE,
                is_claim_reward_live: INIT_LIVE,
                is_liquidate_live: INIT_LIVE,
                is_provide_to_sp_live: INIT_LIVE,
                is_withdraw_from_sp_live: INIT_LIVE,
                is_claim_token_live: INIT_LIVE,
            },
            oracle: Oracle { token_price: 0, token_poke_time: 0, oracle: owner_id },
            stake_storage_usage,
            token: TokenLedger::new(token_account_storage_usage),
            metadata: Metadata {
                name: String::from_str("nUSDO"),
                symbol: String::from_str("nUSDO"),
                reference: String::new(),
                reference_hash: Vec::new(),
                decimals: 8,
            },
            multisig: MultiSig {
                request_cooldown: DEFAULT_REQUEST_COOLDOWN,
                num_confirm_ratio: DEFAULT_NUM_CONFIRM_RATIO,
                request_nonce: 0,
                requests: Book::new(),
                confirmations: Book::new(),
                num_requests_pk: Book::new(),
                mul_white_list: Book::new(),
            },
            fee: StableFee {
                total_unpaid_stable_fee: 0,
                total_paid_stable_fee: 0,
                stable_block_number: 0,
                stable_index: INIT_STABLE_INDEX,
                stable_fee_rate: INIT_STABLE_FEE_RATE,
                total_stable_fee_transfer_failed: 0,
            },
            black_hole: String::from_str("0000000000000000000000000000000000000000000000000000000000000000"),
            stake_token: String::from_str(ST_NEAR),
            stable_token: String::from_str(ST_OIN),
            sp: StablePool {
                total_usdo_deposits: 0,
                depositors: Book::new(),
                epoch_to_scale_to_sum: sums,
                epoch_to_scale_to_g: gs,
                p_system: DECIMAL_PRECISION,
                current_scale: 0,
                current_epoch: 0,
                last_near_error_offset: 0,
                last_usdo_loss_error_offset: 0,
                total_token_sp: 0,
                reward_sp: 0,
                reward_speed_sp: STABLE_SPEED,
            },
            vaults: Vaults { unsorted_vaults: Vec::new(), account_to_index: Book::new() },
        };
        proof {
            assert(r.whitelist.map().dom() =~= set![current_account_id@, owner_id@]);
            assert(r.rewards.reward_coins.key_seq() =~= seq![ST_NEAR@]);
            assert(r.sp.epoch_to_scale_to_sum@[0]@ =~= seq![U256 { hi: 0, lo: 0 }, U256 { hi: 0, lo: 0 }]);
            assert(r.sp.epoch_to_scale_to_g@[0]@ =~= seq![SystemG { g_block_num: 0, g_system: U256 { hi: 0, lo: 0 } }]);
        }
        r
    }
}

} // verus!
