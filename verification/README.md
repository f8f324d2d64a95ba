# snowdon

Snowflake IDs in Verus: 64-bit identifiers made of a millisecond timestamp, a sequence number
and optional constant parts such as a machine ID, with configurable layouts and epochs, and a
thread-safe generator.

## Layout

- `src/layout.rs`: the `Layout` and `Epoch` traits. Each method is described by a spec function;
  `layout_laws` states what a layout must satisfy (parts read back unchanged, snowflakes ordered
  by their (timestamp, sequence number) pairs).
- `src/classic.rs`: `ClassicLayout` (leading zero bit, 41-bit timestamp, 10-bit machine ID,
  12-bit sequence number), with a proof that it obeys the layout laws and that distinct machine
  IDs give distinct snowflakes.
- `src/snowflake.rs`: `Snowflake<L, E>` and its accessors and comparisons.
- `src/comparator.rs`: `SnowflakeComparator`, which compares snowflakes with timestamps.
- `src/generator.rs`: `Generator<L, E>`, with a blocking (mutex) and a lock-free
  (compare-and-swap) implementation. Each generation performs the step `next_snowflake_result`
  on the value it reads from the shared state; the contracts state the step, not which stored
  value it started from. The laws `lemma_next_snowflake_increases` and
  `lemma_generation_run_increasing` show, on runs of steps that each start from the result of
  the one before, that successive snowflakes strictly increase and that sequence numbers have
  no holes.
- `src/clock.rs`, `src/sync.rs`: the trusted calls into `std::time` and `std::sync::Mutex`.
- `src/decimal.rs`: decimal formatting, proved to read back losslessly.
- `src/error.rs`: the `Error` type and its messages.
- `app/`: `Display`, `std::error::Error` and serde support through copies of the library's types.
- `tests/`: tests of the library.
