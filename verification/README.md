# payment_engine

A payments engine that reads client transactions (deposits, withdrawals,
disputes, resolves, chargebacks) and computes account balances, with its rules
proved by Verus.

- `src/domain` — `Amount` (fixed point, 4 decimals; parsing and two-decimal
  display with exact contracts), `Account`, `Transaction`.
- `src/text` — character-level helpers (white space, trimming, UTF-8 length).
- `src/ports` — repository traits, each with a mathematical view (`Map`/`Set`).
- `src/adapters` — in-memory repositories over `HashMap`/`HashSet`, and the
  row-to-transaction rule of the input file.
- `src/application` — one use case per transaction kind (each rejects a
  frozen account; deposits and withdrawals also reject a reused id), the
  `TransactionManager`, which owns one set of repositories and hands each
  transaction to the rule (`apply`) of the use case of its kind, and
  `laws.rs`, the proved properties of the engine.
- `app/` — the command line program: CSV input and output with the `csv` and
  `serde` crates, rejection reports on stderr.

```
payment-engine transactions.csv > accounts.csv
```
