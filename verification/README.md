# dapr

A verified core of the Dapr SDK for Rust, written with Verus.

- `src/` is the library. Verus proves its functions against their
  contracts, which state how the sidecar address, API tokens and connect timeout are read
  from the environment; how endpoints are sanitized for diagnostics; how
  gRPC requests are shaped (jobs, actor invocations, chunked encryption
  streams); how the HTTP server retries and where it listens; which topic
  handler an event goes to; and the Durable Task helpers that build, name
  and summarize history events, name runtime statuses, and convert trace
  contexts. The few calls into outside crates (`tonic`, `chrono`,
  `prost-types`, `uuid`, `gethostname`, `opentelemetry`) sit behind small
  trusted wrappers whose contracts are stated in their doc comments.
- `tests/` exercises the library on concrete values.
- `app/` holds what the library cannot: environment and network I/O, the
  gRPC client over a transport, the `tonic` interceptor and `tower` layer,
  the HTTP server, the app-callback service, workflows on
  `dapr-durabletask`, and `opentelemetry` spans.
