# sequence-rs

A client library for the Sequence Platform API whose decision-making core is
verified with Verus.

## Layout

- `src/` — the verified library (`sequence_rs`):
  - `model/` — the API's request and response types, wire names of the
    filter enums, and the input rules of `CreateTransferRequest::validate`.
  - `http/` — classification of responses and failures (`error`), the
    `Retry-After` parser (`retry_after`), the attempt counter and backoff
    rules (`retry`), the fixed-point token bucket (`throttle`), request
    headers as a map (`headers`), and construction of the `reqwest` client
    (`transport`).
  - `client/` — credentials and request headers, endpoint URLs, query
    parameters of the list endpoints, pagination, and `ClientError`.
- `app/` — the asynchronous client built on the core: the `reqwest`
  transport and retry loop, `serde` shapes of every payload, the `Sequence`
  client with one method per endpoint, and the auto-paginating streams.
- `tests/` — tests of the library on concrete values.
