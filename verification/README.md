# cacache_ttl

Per-entry time-to-live for the `cacache` disk cache, verified with Verus.

- `src/` is the library: the JSON model of index metadata (`json`), the expiry
  rules (`ttl`), clock and duration arithmetic (`time`), and the steps of a
  read (`read`), a write (`write`) and a listing (`list`). Each step takes the
  outcome of the cache operation it asked for and says what comes next.
  `laws` holds the property that spans a write and a later read.
- `app/` performs the cache operations (`read`, `read_sync`, `list_sync`,
  `write`, `write_sync`), converts between `cacache`'s values and the
  library's, and carries the error type with its `thiserror`/`miette` derives.
- `tests/steps.rs` exercises the steps on built values; `tests/disk.rs` drives
  them against a real cache on disk.
