# Invoice service

The core of a billing backend, verified with Verus: invoices with line items,
idempotent payments through a payment provider, recovery of payments that the
provider did not answer, signed webhook deliveries, API keys, and a mock
provider.

## Layout

```text
src/
├── auth.rs         API keys
├── concurrency.rs  any number of payments and settlements at once
├── config.rs       settings and their defaults
├── controllers/    what requests may ask for, and their answers
├── crypto.rs       digests, encryption, encodings and password hashes
├── error.rs        API errors
├── http.rs         status codes and replies
├── ids.rs          identifiers
├── interleaving.rs payments and settlements that run side by side
├── ledger.rs       a model of the books, and what holds of them
├── mock_psp.rs     the mock payment provider
├── models.rs       the data shapes
├── records.rs      what is read back of the books
├── services/       invoices, payments, settlement, recovery, webhooks
└── text.rs         texts, decimal numbers and JSON strings
app/                the process: HTTP, the database, timers
tests/              tests of the library
```

The workflows that talk to the database and to the provider are machines: a
function takes the stage of the workflow and what came of its last action, and
returns the next stage and the next action. `app/` performs the actions.
`ledger.rs` runs the same machines against a model of the database and proves,
among other things, that an invoice is paid at most once and that a repeated
request is answered with the very reply of the first. `interleaving.rs` proves
that a payment and a settlement take effect at one moment, whatever others do to
the books while they run, as long as they keep the books in order and respect
the row locks; and that what one commits is within these bounds for all others.
`concurrency.rs` runs any number of them at once, granted their turns by row
locks and unique keys alone, and proves that the books stay in order, that an
invoice is charged again only where an earlier attempt failed, and that none is
paid twice. `records.rs` says what is read back of the books,
by whom and in which order.

All money values are integer cents.
