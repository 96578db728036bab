# hgs_core

A gacha pull simulator whose rules are proved with Verus.

- `src/gacha.rs`: `GachaState`, the pulling state machine (pity counters,
  soft and hard pity, the banner guarantee), its model `pull_spec`, and
  `pull` (draws from rand's thread generator) beside `pull_with_draws`
  (draws given).
- `src/laws.rs`: what every pull keeps and what holds over runs of pulls
  (hard pity, guarantees, monotone rates).
- `src/simple.rs`: a pull with one fixed character-banner rate table.
- `src/roll.rs`: rates in billionths, the exact comparison of a raw 64-bit
  draw with a rate, and the two trusted calls into rand.
- `src/history.rs`, `src/summary.rs`: statistics of a run and the figures
  of its report.
- `src/settings.rs`, `src/enums.rs`, `src/errors.rs`: the data types.
- `app/`: the command-line program; JSON settings files (rates written as
  fractions) and printing.
