# hunterfi

The verified core of the HunterFi strategy platform on the Internet
Computer, written in Verus.

- `src/` is the library. Every function in it is verified against its
  `requires` / `ensures` contract:
  - `ledger`, `payment`: user accounts, deposits, withdrawals, fees, refunds
    and the transaction history;
  - `records`, `deployment`, `factory`, `upgrade`: deployment records, the
    deployment state machine (request, canister creation, code installation,
    initialization, failure and refund), the strategy registry, the admin
    endpoints' logic and what survives an upgrade;
  - `timer`, `intervals`, `cycles`: the cleanup pass (archiving, giving up
    deployments unfinished for 24 hours, refunding failed ones), interval
    timers and cycles thresholds;
  - `exchange`, `exchange_factory`, `icpswap`, `icpswap_trade`: exchange
    types, argument building and reply decoding for ICPSwap, and the state
    machine of one ICPSwap trade;
  - `hedging`, `hedge_run`, `split`: the self-hedging strategy, the state
    machine of one hedge run, and the order split, whose orders always add
    up to the amount split;
  - `principal`, `text`, `table`, `key_order`, `state`, `types`: shared
    types and text. The factory's records, strategies, accounts and
    transactions live in `Table`s, finite maps whose keys stay distinct;
    listings walk them in the order of their stored keys (`key_order`), the
    order in which the canister's stable maps return them.
  - `archiving`: what archiving leaves behind, and that archiving again
    removes nothing.
- `app/` is ordinary Rust around the library: the factory and self-hedging
  canisters' endpoints, inter-canister calls, timers, stable memory and the
  floating-point parts. It performs the outside work that the library's
  state machines ask for and hands the replies back.
- `tests/` runs the library on concrete values.

The few calls into outside crates that the library makes (principal text
and parsing in `candid`, `hex::encode`, the ICP ledger's account
identifiers in `ic-ledger-types`, and std's case mappings and debug form
of strings) each go through
one small trusted wrapper in `src/text.rs` or `src/exchange.rs`, whose
contract says what the outside function returns.
