# databend_core

Decision logic of a columnar query engine, with its behaviour stated in
contracts and proved:

- `columns`: builders of primitive columns.
- `access`: what a server in management mode lets a session do.
- `spill`: the barrier that lets hash-join builders spill together.
- `rule_factory`, `arithmetic`: construction of optimizer rules and
  arithmetic functions.
- `block`, `delete_by_expr`: blocks of rows and deleting the rows a
  predicate selects.
- `pruning`, `row_selection`: pruning of parquet row groups and pages.
- `statistics`: parquet column statistics as table column statistics.
- `parquet_read`, `merge_into`, `http_metrics`, `types`, `error`.

`app/` holds what runs around the library: locks, asynchronous waits and
lookups, conversions from the parquet crate's metadata, and the metrics
re-exports.
