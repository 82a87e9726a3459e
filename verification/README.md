# money_routes

The decision logic behind a crypto-trading backend's HTTP routes, written in
Verus and proved against its contracts.

- `src/` — the verified library: text and JSON handling, news feeds and
  sentiment, report localisation, model-reply parsing, the analyst debate and
  the simulation loop as step functions, API-key and provider settings,
  orders, klines, timestamps and the smaller checks of each route.
- `tests/` — the library's tests, run against the real outside crates.
- `app/` — the unverified edge: serde conversions, floating-point market
  arithmetic, and the drivers that perform what the library's step functions
  ask for (model calls, feed fetches, the simulation's database work).

Outside crates are called from `src/` only behind trusted items whose
contracts state what the crates' sources and documentation show: chrono for
dates, feed-rs for news feeds and serde_json for reading model replies.
