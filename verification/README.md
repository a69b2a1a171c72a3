# zaps

The core of the Zaps social-payments platform on Stellar, written in Verus
and proved against its contracts.

- `src/` — the verified library.
  - The Soroban contracts as state machines over plain values: `escrow`,
    `router` (payment router with fees and FX settlement), `bridge`
    (cross-chain bridge), `allbridge` (bridge receiver), `identity`,
    `registry`, `social_graph`, `social_payment`. Each entry point takes the
    addresses that authorized the invocation and returns the effects it asks
    of the ledger (token transfers, events); storage lives in `store`.
  - The backend's decisions: API `versioning` and its `version_catalog`,
    `compliance` screening and risk assessment, `currency`, `session`
    handling, payment `batch` settlement, the Horizon `indexer` and its
    `events`, `payments`, `yield_calc`, `rate_limit`, `pool` sizing, `role`
    permissions, `admin` listings, `config` defaults, `api_error`.
  - Shared pieces: `chain` (addresses, ledger, faults), `clock` (instants
    and their differences), `text`, `json`, `ids` (UUID-based identifiers).
- `tests/` — the contracts' and the backend's test suites, run against the
  library.
- `app/` — the HTTP server around the library: routing, middleware,
  logging, the JSON shapes of the API, the full configuration and the
  computations on fractional numbers.
