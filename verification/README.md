# cstr_treasury

Verified account logic of the CSTR treasury and token programs.

- `src/` is the library, checked by Verus: the account states (`state`),
  events (`events`), error codes (`error`), account keys (`keys`), the
  treasury instructions (`treasury`), the token instruction (`token`) and the
  properties that span instructions (`laws`).
- `app/` is the Anchor glue: account validation, the clock, lamport transfers
  and event emission around the library's functions.
- `tests/` runs the library on concrete accounts.
