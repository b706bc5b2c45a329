# hudi_write

The concurrency side of writing to a Hudi table: configuration, table locks and file-group
optimistic concurrency control. The library is written in Verus, and every decision that it makes
is proved against its contract.

- `src/config` resolves the write settings of a table and refuses unsafe combinations.
- `src/write/lock.rs`, `lease.rs` and `lock_protocol.rs` hold the table lock: what is written to the
  lock file, what a lease is worth, and what the lock guarantees to writers that share it.
- `src/write/heartbeat.rs`, `begin.rs`, `intent.rs`, `timeline.rs`, `validation.rs` and `occ.rs` hold
  optimistic concurrency control: how a transaction begins, what it does to the table, and whether
  it may be committed.
- `src/text.rs`, `time.rs`, `ordered_set.rs`, `registry.rs` and `text_map.rs` are what these build
  on.
- `app` runs the library on a storage: it reads and writes files, waits, and keeps heartbeats going.
- `tests` are ordinary Rust tests.

Public proof functions whose names start with `law_` state what holds across functions.
