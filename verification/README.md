# golion

Golion combines the optimization components of many assets, across
countries and markets, into one optimization problem. This crate holds its
domain core, verified with Verus:

- `src/time`: instants, durations, spans and clock times with the ranges of
  `jiff`, and the few zoned operations delegated to `jiff`.
- `src/temporal`: grid steps (15, 30 or 60 minutes), regular time grids and
  the time series laid on them.
- `src/market`: market types, products, the configuration of each market
  per country, bidding windows and revenue stores.
- `src/problem`: perimeter definitions and the consistency checks of an
  optimization problem.
- `src/contract`: the parts of the request contract that carry no floating
  point values, and their conversion into the domain.

`app/` holds what Verus does not take: serde payloads, physical units and
other floating point values, and their conversion into the library.
