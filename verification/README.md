# montana

A batch submission and derivation toolkit for an L2 rollup, written in Verus.

- `src/` is the verified library: fee arithmetic (EIP-4844 blob base fee,
  fee bumping), the batch payload framing and its round trip, the batch
  driver's submission decisions, transaction classification and send state,
  compression wrappers, hex parsing of local block sources, the batch runner
  and derivation state machines, and the latency window used by metrics.
- `app/` holds what Verus does not check: async plumbing, RPC and file I/O,
  serde and CLI types, and the floating point reporting.
- `tests/` exercises the library through its public API.

Calls into `alloy` and `flate2` go through small trusted wrappers. Where a
result is a function of the arguments alone (zlib streams, KZG sidecars),
the wrapper ties it to a named function of those arguments; where it rests on
the clock, only what holds of every outcome is stated. Everything built on
them is proved.
