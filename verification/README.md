# indica

Technical-analysis indicators for stock markets (SMA, EMA, RSI, MACD, Bollinger
Bands, ATR, ADX, Supertrend, Stochastic, OBV, VWAP, pivot points, volume trend,
Indian delivery and circuit indicators) and a signal engine that turns indicator
values into buy/sell votes.

## Layout

- `src/` — the verified library. It holds everything the indicators decide without
  floating-point arithmetic, with contracts proved by Verus:
  - `streaming/` — the warm-up schedule of the streaming indicators (`Warmup`), the
    sliding window of the last `n` values (`SlidingWindow`), the sign of a value
    (`Sign`) and the `Indicator` interface;
  - `indicators/` — for each indicator, when it has enough data, and the
    classifications it makes (MACD crossovers, Supertrend direction, volume trend,
    delivery trend, circuit bands, OBV direction);
  - `signals/` — signal strengths and scores, the votes of the built-in rules, and
    the strength of a weighted score;
  - `macd.rs`, `relative_strength.rs` — the same for the flat API.
- `app/` — the floating-point arithmetic of the indicators, the signal engine's
  weighted average, batch computation with Rayon and the Node.js bindings. It calls
  the library for every decision above.
- `tests/` — tests of the library.
