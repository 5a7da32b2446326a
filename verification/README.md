# vajra

The verified core of an options-native backtesting engine, written in Verus.

`src/` is the library. It holds the decisions of the backtester that can be
taken without floating point, each with a contract that Verus proves:

- `fill` — fill models (`NextBarOpen`, `SameBarClose`): the bar and the price
  field a decision fills at.
- `schedule` — `FillScheduler`, which defers a decision to its fill bar and
  drops one whose fill bar lies past the data; the no-lookahead laws.
- `lifecycle` — the single-position state machine: which signal opens or
  closes the position.
- `legs` — leg classification (underlying, call, put; long or short) and the
  pairing of long and short legs into a vertical spread for margin.
- `cost` — the slippage direction rule of `IndiaOptionsCost`.
- `calendar` — bar timestamps, report dates and the weekly Thursday expiry,
  over chrono.
- `marketdata` — `Quote`, `InstrumentKey` and `MapOptionSource`, the quote
  overlay keyed by bar and instrument, built from long-format rows. Prices
  are held as `f64` bit patterns, so a stored quote comes back bit for bit;
  quotes compare as `f64` values.
- `reporting` — the equity-curve labels of the HTML report, as JSON.

`app/` is ordinary Rust around the library: Black-Scholes pricing, cost
arithmetic, the bar loop over a Polars `DataFrame` (including the choice
between a real quote and the model price, and the count of model-priced
legs), reporting and the moving-average strategy with its window defaults —
the code that computes on `f64` or stands beside such code.

`tests/` runs the library on concrete values.
