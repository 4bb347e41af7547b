# skinvolt

SkinVolt tracks the Steam market prices of a CS2 inventory. This crate is
its verified core; `app/` is the program around it.

- `src/` (verified): subscription tiers and what they unlock (`tiers`), the
  settings each command writes (`settings`), manual-refresh cooldowns
  (`cooldown`), retry with exponential backoff (`retry`), checking and reading
  Steam replies and building request URLs (`steam`), the top-movers query and
  history windows (`market`), which price points each indicator reads
  (`analytics`), the records and error type (`model`), and text helpers
  (`text`).
- `app/`: the SQLite store, HTTP requests, the background refresh loop, the
  floating-point indicators, and the command functions.
- `tests/`: executable tests of the library.
