# streampay

Continuous, per-second payment streams: a deposit is locked and accrues
linearly to a recipient between a start and an end time. The recipient
withdraws what has accrued; the sender can top up the stream or cancel it,
splitting the remainder (accrued to the recipient, unaccrued back to the
sender).

Layout:

- `src/` — the verified library (Verus).
  - `stream.rs`: stream state and the checked accrual math
    (`streamed_at`, `validate_capacity`, `available_amount`, ...).
  - `contract.rs`: each entry point as decisions from loaded state to a
    `Plan` (stream to store, event to publish, payouts to make), and
    `StreamingPayments`, the contract over in-memory storage with every
    token movement and event recorded.
  - `storage.rs`: the stream-id counter and the streams by id.
  - `funds.rs`: accounting of token holdings against what streams owe.
  - `laws.rs`: properties of the library as a whole.
- `tests/` — tests against the library.
- `app/` — the Soroban contract: storage, authorization, token transfers and
  events around the library's decisions.
