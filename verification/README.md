# oinstake

A collateralised stable-coin staking contract for NEAR, written as a Verus
library with every operation proved against its contract.

Accounts pledge stNEAR, mint the stable coin against it and pay a stability
fee on their debt. A position whose pledge rate falls below the liquidation
line is liquidated: a stability pool absorbs its debt for its collateral, the
rest is spread over all pledges, and the liquidator is compensated. Reward
pools pay mining rewards in several coins, a multi-signature administration
votes on calls the contract makes on itself, and an emergency shutdown
pauses every operation.

## Layout

- `src/` — the verified library. `state.rs` holds the contract's state,
  `ops.rs` the debt positions, `liquidation.rs` liquidation, `sp.rs` and
  `sp_ops.rs` the stability pool, `reward.rs` and `pool_ops.rs` the reward
  pools, `stablefee.rs` the stability fee, `allot.rs` the redistribution,
  `ledger.rs` and `usdo.rs` the stable coin's ledger, `msig.rs` the
  multi-signature requests, `admin.rs` and `esm.rs` administration, `views.rs`
  the queries, `vaults.rs` the list of accounts open to liquidation. `u256.rs`
  is a verified 256-bit integer, `book.rs` the keyed
  tables. `laws.rs` states properties relating several operations.
- `tests/` — tests of the library on concrete values.
- `app/` — the NEAR contract around the library: storage, the runtime's
  caller, clock and deposits, promises for the transfers the library hands
  back, and the fungible-token interfaces.
