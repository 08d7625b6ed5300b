# APY Stabilizer contracts, verified

Two ledger contracts for DeFindex vault partners:

- the **fee proxy** holds a vault's Manager role and lets an off-chain fee
  manager move the vault's performance fee only inside the bounds the
  partner's admin configured, while the partner admin keeps every other
  Manager power;
- the **boost treasury** escrows partner-funded budgets, one campaign per
  vault, which a manager key streams into the vault as realized yield.

## Layout

- `src/` — the decision logic, verified with Verus. Each entrypoint is a
  function from the contract state and the call's arguments to a `Step`:
  the address that must authorize the call, then either the outside work
  (vault call, token transfer, event) or the error that aborts it. Its
  contract is an exact spec function over a mathematical model of the state
  (`ProxyModel`, `TreasuryModel`).
  - `fee_proxy.rs`, `boost_treasury.rs` — the two contracts;
  - `fee_proxy_laws.rs`, `treasury_laws.rs` — properties that span
    entrypoints (fee bounds, auth lanes, vault isolation, budget accounting,
    orphan sweeps), proved over the models;
  - `admin.rs` — the two-step admin rotation both contracts share;
  - `registry.rs` — per-vault records in registration order;
  - `mock_vault.rs` — the vault's side of the calls.
- `app/` — the Soroban contracts themselves: storage, `require_auth`,
  cross-contract calls, token transfers and events, around the library.
- `tests/` — scenarios run against the library with a small in-memory
  ledger.
