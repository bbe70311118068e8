# simprint-runtime

The runtime process of Simprint: it speaks a framed binary protocol with the
client over stdio, hosts a per-browser event bus over named pipes, and runs
three modules (environments, browser synchronization, sign-in state).

The decisions of the runtime are a library whose behaviour is stated in
`requires` / `ensures` contracts and proved with Verus:

- `src/infrastructure/eventbus` and `src/infrastructure/ipc`: the frame
  format (encoding, decoding, stream reassembly, with round-trip laws),
  topic and status codes, the browser handshake, the bus registry and the
  routing of browser frames.
- `src/app`: the lifecycle of the runtime host (which requests it accepts
  in which phase and what each outcome leaves behind), request routing, the
  handshake gate of the request loop, and module rollback order.
- `src/services`: the environment kernel's bookkeeping (debugging ports,
  statuses, launch arguments, window-bounds payloads), the sync module's
  roles and notices, and the sign-in store.

`app/` is the executable around the library: tokio, serde, named pipes,
processes, HTTP and timers. It hands the library plain values and acts on
what it returns.

Registries keyed by environment id (connected browsers, debugging ports,
statuses) are vectors whose keys are kept distinct, not hash maps: vstd
gives no specification of a `HashMap` keyed by `String` that proofs could
use, so such a map would leave every lookup unproved. Entries keep the
order in which they were first added, and the all-statuses answer is a
list of `(id, status)` pairs in that order.
