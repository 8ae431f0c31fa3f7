# breez_cross_chain

The cross-chain payment logic of a Spark wallet SDK, with its contracts
proved by Verus: routing a send or a receive through a cross-chain provider
(Orchestra, Boltz), the checks and decisions of the prepare flow, the stable
balance conversion queue, the rules that release the `Synced` event, and the
cache codecs.

Layout:

- `src/` — the verified library.
  - `models.rs` — the SDK's data model (payments, events, requests).
  - `error.rs` — the error types and their messages.
  - `text.rs` — decimal rendering and parsing, proved to round-trip.
  - `events.rs` — sync-event merging and the first-`Synced` rule, with their
    laws; event descriptions; listener ids.
  - `persist.rs` — cache keys and value codecs, filter and request
    conversions, with round-trip laws.
  - `cross_chain/` — shared route and amount rules (`mod.rs`), the Orchestra
    provider (`orchestra.rs`: route discovery, quotes, the send and receive
    monitors' decisions) and the Boltz provider (`boltz.rs`).
  - `sdk/` — request validation and the cross-chain prepare decisions.
  - `stable_balance/queue.rs` — the conversion queue: priorities, deferral,
    backoff and persistence effects, with their laws.
- `tests/` — tests run against the compiled library.
- `app/` — the asynchronous runtime around the library: the event emitter,
  the cache over platform storage, the conversion worker, the Orchestra
  monitor passes, the prepare flow and the floating-point fiat conversions.

Wall-clock reads, UUID generation, RFC 3339 parsing and a few standard
library renderings are made through small trusted wrappers whose contracts
state what the library relies on.
