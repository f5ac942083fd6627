# ai_gateway

Routing configuration of an inference gateway, verified with Verus.

- `src/balance.rs`: the balancing strategies of each endpoint type and the
  set of providers that a strategy, or a whole configuration, can send
  requests to.
- `src/listing.rs`: provider lists in the order their items are met, with
  repeats dropped.
- `src/registry.rs`: the registry that finds the converter between two API
  endpoints.
- `src/provider.rs`, `src/endpoints.rs`, `src/weight.rs`: providers, model
  identifiers, API endpoints and decimal weights.
- `src/ne_set.rs`, `src/index_set.rs`: the contracts under which the library
  uses the sets of `nonempty_collections` and `indexmap`.
- `app/`: serializable forms of the configuration (serde, strum, derive_more)
  and conversions to and from the library's types.
- `tests/`: tests of the library.
