# lending_market

A collateralised lending market for the Radix ledger, split in two:

- `src/` is the verified library (Verus): fixed-point arithmetic over `scrypto`'s
  `Decimal`/`PreciseDecimal`, the market's configuration and its checks, operating
  statuses, interest strategies, liquidation thresholds, collateralised debt positions
  and their health check, pool accounting (units, interest, prices), the repayment and
  liquidation steps, the single-resource pool's accounting, the staking pool's rules,
  the price feed and the test faucet. Laws that span functions are public proof
  functions beside the functions they speak of.
- `app/` holds the ledger components (blueprints) that keep vaults, badges and records,
  call other components and the clock, and run every decision through the library.
- `tests/` exercises the library on concrete values.
