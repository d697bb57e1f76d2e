# websocket_source_v1

A relay that moves messages from a WebSocket feed or a Yellowstone gRPC
subscription into Kafka, deduplicates Kafka records, and republishes Kafka
records to gRPC subscribers. The library under `src/` holds the relay's
decisions and data formats, each with a contract proved by Verus; `app/` is the
WebSocket-to-Kafka program around it.

Layout of `src/`:

- `decimal` — the decimal grammar of `str::parse` for unsigned integers, and
  decimal formatting; they read each other back.
- `hex`, `digest` — hex text (through `const-hex`) and SHA-256 (through `sha2`).
- `env` — the configuration read from the environment's variables, with the
  first error in reading order.
- `kafka::client` — the `rdkafka` client configuration as a map of settings,
  and merging a configuration section into it.
- `kafka::keys` — record keys: hex digest of the payload (WebSocket relay),
  `<slot>_<hex digest>` (gRPC relay), and the dedup stage's reading of the latter.
- `kafka::relay` — the send loop as a state machine: bounded sends in flight,
  draining on shutdown, failing on the first error.
- `kafka::inbound`, `kafka::consume` — what each loop makes of its messages.
- `kafka::wss` — a feed event stamped with its time and tags.
- `update`, `metrics` — gRPC updates as the relay reads them, their metric
  labels, and the routes of the metrics endpoint.
- `latency` — the one-second message window and the latency arithmetic.
- `action` — the tools of the gRPC/Kafka command line and their sections.
