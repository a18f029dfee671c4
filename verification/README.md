# rpc_perf

The configuration and request generation of an RPC load generator, verified
with Verus.

- `src/config/` — the configuration model: run-wide settings (`general.rs`),
  keyspaces, commands and value shapes (`workload.rs`), command-line
  overrides (`arguments.rs`), keyspace generators that draw keys,
  values and requests (`generator.rs`), and the lines that describe a
  configuration at start (`summary.rs`).
- `src/codec.rs` — the requests that are drawn.
- `src/text.rs` — decimal formatting (with zero padding) and parsing.
- `src/random.rs` — the random draws, each made through `rand`.
- `app/` — the command-line program: argument parsing with `clap`, the TOML
  configuration file, address resolution, floating-point settings and
  logging of the configuration.

Notes on scope:

- The request-distribution setting (the refill shape of the request rate
  limiter) is not part of this crate: the rate-limiter crate that defines its
  type is not available, so neither `src/` nor `app/` holds it.
- Key counts are compared with `10^length` in exact integer arithmetic: a
  count needs more than `length` digits exactly when it exceeds `10^length`.
- Drawing an integer value whose length is not 1, 2, 4 or 8 bytes is reported
  as `ValueError::UnsupportedIntegerLength`; the program exits on it.
- The protocol names `pelikan-rds` and `thrift-cache` are known to the
  library, though the command line only offers the other five.
