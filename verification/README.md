# payments_engine

A payments engine: it reads a CSV stream of client transactions (deposit, withdrawal,
dispute, resolve, chargeback) and produces the final state of every client account.

Layout:

- `src/amount.rs` – `Amount`, a decimal number held as mantissa and scale; sums,
  differences and comparisons are computed by `rust_decimal`.
- `src/types.rs` – accounts (`Client`), recorded transactions, input rows and their types.
- `src/ledger.rs` – the engine's state as maps and what each operation does to it.
- `src/handler.rs` – the engine (`Handler`), whose operations are proved against `ledger.rs`.
- `src/laws.rs` – properties that hold across operations (locked accounts are frozen,
  disputes keep totals, a resolve undoes a dispute, and so on).
- `app/main.rs` – the command-line program: CSV input, printed output.
- `tests/` – the engine's tests.
