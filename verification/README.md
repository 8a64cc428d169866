# upstream_core

The decision core of a DNS upstream client: the close protocol and response
commit gate shared by every transport, the bootstrap resolver state (single
flight, generations, snapshot selection), the TCP/DoT/DoH connection pools, the
QUIC shared-connection owner for DoQ and DoH3, and the UDP-to-TCP fallback
policy. The functions in `src/` carry contracts checked by Verus, except the
few small wrappers around outside calls (tokio-util's cancellation token,
getrandom, `Instant::now`, `String::from_utf8`), whose contracts are trusted
and say so in their doc comments. The `law_*` proof functions state the
properties that span several calls.

Layout:

- `src/lifecycle.rs`, `src/error.rs`, `src/control.rs`, `src/exchange.rs`,
  `src/addr.rs`, `src/upstream.rs`: the shared vocabulary and the close protocol.
- `src/resolver/`: hostname normalisation, resolution targets, snapshots and the
  bootstrap resolver's single-flight state machine.
- `src/reuse/`: pool keys and the TCP, DoT and DoH pool owners.
- `src/quic.rs`, `src/quic_reuse/`: DoQ framing and error classification, the
  H3 cancellation model, and the QUIC owner map.
- `src/doh3.rs`: the DoH3 response contract: the head bound, the bounded
  body collected chunk by chunk, the completeness check, and the h3 failure
  classes.
- `src/composite.rs`: the UDP/TCP composite policy.
- `app/`: async glue around the library: time-base conversion, address
  conversion, the drain-then-close loop, the one-shot DoQ and DoH3
  exchanges, the serial TCP pool, and the task side of the QUIC owner
  (initializers and teardowns). Not included: the I/O drivers for the DoT
  and DoH pools, the DoQ-reuse exchange, the plain UDP/TCP exchanges and the
  bootstrap resolver. Their decision steps are in `src/`; the DNS message
  encoding and validation they also need, and the DoH response-head media
  checks, come from components that are not part of this crate.
- `tests/`: tests that run the library with the real outside crates linked.

Check with `verus` on `src/lib.rs`; run the tests with `cargo test`.
