# monitare

Verified core of the Monitare fear-and-greed oracle, its prediction markets
and the off-chain feeder that drives them.

- `src/monitor`: the oracle program: configurations, their authorities, and
  setting the oracle data.
- `src/factory`: the prediction-market program: global configuration, the
  fungible token, SBTs, markets, choices, withdrawals, resolution and claims.
- `src/client`: the feeder: its configuration, the records it keeps, the
  replies of its API, and the decisions of its feeding and market loops.
- `src/account_data.rs`: reading stored account data.
- `src/pubkey.rs`, `src/seeds.rs`: addresses and program-derived addresses.
- `app/`: the feeder program around the library: configuration file, the
  index API, the on-disk store, RPC calls, the web server and the loops.
- `tests/`: tests of the library.
