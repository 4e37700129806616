# tracel_client

A client for the Tracel API (console, station and fleet), split in two:

- `src/` is the library, verified with Verus. It holds the wire data model
  and every decision the client makes: which URL, path and query each
  request is addressed to, how credentials become a session and which header
  carries it, how an HTTP answer is classified into a `ClientError`, how
  long an upload may take, and the pacing of the OAuth 2.0 device
  authorization flow (`auth::device::PollSchedule`), with laws such as "the
  poll interval never shrinks", "a wait ends at the first approval or
  error" and "a larger upload never gets a shorter timeout" proved as proof
  functions.
- `app/` is ordinary Rust around it: the `reqwest` transport, JSON encodings
  of the data model (`app/wire.rs`, with conversions in `app/convert.rs`),
  and the clients that send requests, read answers and sleep between polls.

URLs are parsed, resolved and serialized by the `url` crate (through
`reqwest::Url`), UUIDs rendered by the `uuid` crate and strings quoted by
std's `Debug`, each behind a trusted wrapper (`src/address.rs`,
`src/text.rs`) whose contract names or states what it returns. Decimal
numbers are rendered by verified code.
