# rs_algo_shared

Shared models and rules of an algorithmic trading system: time frames and candle
closing times, market hours and sessions, orders and trades, pending-order limits,
broker symbols and commands, and the retry policy of broker transactions.

## Layout

- `src/` — the library, written in Verus. Every function carries a contract and is proved
  against it. Prices and stored dates are type parameters (`P`, `D`) of the order and trade
  types, so the order logic is proved for any price and date type.
- `tests/` — tests of the library on concrete values, with `f64` prices.
- `app/` — what works with the clock, the environment, floating-point figures, JSON
  replies and serde: it reads those values and hands them to the library.
