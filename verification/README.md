# stock_simulation

Simulates leveraged dollar-cost averaging over the S&P 500 daily history,
with and without a trailing stop loss.

- `src/` is the verified library. Prices are `f32` bit patterns behind a
  non-NaN `Price`, ordered by a sign-magnitude key; instants and spans are
  milliseconds. It holds the positions and their stop-loss rules, the
  priority queue of open positions, the payout schedule, the trailing-stop
  pass, the conversion and cleaning of history rows, and the date parsing
  (through chrono).
- `app/` reads the CSV, does all floating-point arithmetic (position size,
  proceeds, stop-loss generators, cash and totals) and prints the results.
- `tests/` exercises the library on concrete values.
