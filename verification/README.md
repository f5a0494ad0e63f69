# adbc_dummy

Builders for the nested Arrow result sets that a database driver returns for
`get_info`, `get_objects` and `get_statistics`, and a dummy driver that serves
such result sets for tests. The library under `src/` is written in Verus: every
function states in its contract what it returns or changes, and Verus proves it.

- `info`, `objects`, `statistics`: the builders.
- `schemas`: the schemas of the result sets.
- `driver`, `reader`, `options`, `option_map`, `error`: the dummy driver.
- `model`, `conform`: what values arrays and record batches hold, and when values
  conform to a schema.
- `groups`, `dense`, `names`: children stored flat by parent, dense unions,
  optional names.
- `arrow`: the calls into the Arrow crates. Their contracts are taken on trust;
  everything else is proved from them.

`app/` adds what stays outside the library: floating-point numbers, Arrow's reader
traits, and panics that environment variables ask for.
