# dodo_assignment

An invoice and payment service. Invoice amounts are integer USD cents;
payments are admitted asynchronously under an idempotency key and settled by
a background worker that reconciles with a payment processor; business
events are delivered to webhook endpoints with an HMAC signature.

Layout:

- `src/` — the verified library (Verus). It holds the service's decisions:
  request validation, the invoice total, the payment admission protocol
  (`payments::PayFlow`), replay of stored responses, reconciliation with the
  processor (`payment_worker::Reconciliation`), settlement, retry schedules,
  webhook signing, API key issue and authentication, and the mock
  processor's charge rules. `codec` holds the calls into sha2, hmac, hex,
  base64, uuid, serde_json and rand, each behind a stated contract.
- `app/` — the HTTP server (axum), the database work (sqlx on PostgreSQL),
  the processor and webhook HTTP calls (reqwest) and the timers (tokio). It
  runs the library's state machines, performing each action and handing back
  each answer. `app/main.rs mock-psp` runs the mock processor.
- `tests/` — tests of the library on concrete values.

The database schema lives in `./migrations`, read at start-up.
