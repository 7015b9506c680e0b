# ram

The control core of AudioMatrix, a networked audio routing system, written
in Verus: each function states what it does in `requires` / `ensures`
clauses and Verus proves it.

## Layout

- `src/` — the verified library: device and node registries, routes and
  their cross-node handling, authentication decisions, the answers of the
  control API, connection and subscription state machines, the ring buffer
  and buffer pool of the audio path, the audio engine that files each
  connection under the destination it feeds, the registry of active
  streams, the routing matrix and snapshot, the persisted configuration, and the textual forms of identifiers and errors.
  The audio processor itself is a trait, `RouteController`, that the
  node's audio side implements; the state's `*_with` operations hand
  routes to it. The `law_*` proof functions state properties that span several
  operations (what a write then a read gives, what an undo restores).
- `tests/` — tests of the library on concrete values.
- `app/` — the runtime around the library: the HTTP and WebSocket API,
  requests to other nodes, the configuration file, and the floating-point
  side of samples, gains and meters.

Samples, gains and volumes that are floats at run time are carried in the
library as the bit patterns of their `f32` values (or, for volumes, as
16.16 fixed point); `app/` converts.
