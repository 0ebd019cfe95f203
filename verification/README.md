# openpit

Pre-trade risk bookkeeping with machine-checked contracts.

The library keeps the state a pre-trade risk engine consults before any policy
runs and the bookkeeping it does between policy calls:

- `account_control`: the blocked-accounts set (per-account, per-group and
  engine-wide blocks, first cause wins, provisional blocks retired by their own
  provenance), deferred account operations, and account controls bound to one
  account.
- `account_groups`, `accounts`, `account_adjustment_context`: group membership,
  operator blocks, the account → group → default currency cascade, and the
  state-transition lease.
- `mutation`: commit/rollback finalizers and the reach of their failures.
- `reference_book`, `instrument_id`, `marketdata`: instrument registration and settlement
  schemes.
- `engine`: policy-name uniqueness, reject-list merging, drop-copy verdicts, the
  folding of policy verdicts for a pre-trade stage or an account-adjustment
  batch, and the settling of refused orders, refused drop copies and execution
  reports against the blocked set.
- `pipeline`: how a pre-trade request, a drop copy, a dry run and an
  account-adjustment batch end once their policies have reported: which
  mutations commit or roll back, and what the kill switch records.
- `pre_trade_engine`: the engine itself. Its contracts say that the `i`-th
  verdict it folds is one the `i`-th registered policy can answer to what it was
  handed, that the fold is exactly the stage's, and how each pipeline then ends
  through `pipeline`.
- `configure`: finding a configurable policy, refusing nested configuration,
  retuning a policy inside one configuration, and recording the blocks a
  retuned barrier reports.
- `order`, `execution_report`, `account_adjustment`,
  `account_adjustment_operation`, `request_trait`: request payloads and their
  field readers.
- `param`, `decimal`, `pretrade`, `account_outcome`, `text`: values, exact
  decimal parsing, rejects and blocks, outcomes, and number rendering.

Every registry is an owned value changed through `&mut`; `app/` wraps the ones
an engine shares between threads behind `parking_lot` mutexes, runs the waiting
side of the state-transition lease and the thread-local configuration guard,
offers a fluent engine builder and a lock-shared engine, and gives the error
types `Display`.

`src/` is verified with Verus; `tests/` exercises it as ordinary Rust.
