# dispatcher

The decision logic of the dispatcher service, written in Verus: the
functions in `src/` carry contracts that the verifier proves. The few calls
into outside crates (`uuid`, `url`, `percent-encoding`, `chrono`, `hashring`,
`rand`, `vec1`, `anyhow`) sit behind small wrappers marked
`#[verifier::external_body]`, whose contracts are trusted, not proved; each
one's doc comment says what it claims of the outside code.

The service redirects clients to the frontends of their tenants, proxies
authorization requests of the other services, creates and converts classes
(webinars, minigroups, p2p classes) with their event and conference rooms,
and drives the postprocessing of their recordings.

Layout:

- `src/` — the verified library, one module per concern: `authz` (rewriting
  authorization requests), `time` (time ranges), `segments` and
  `postprocessing` (recordings), `creation`, `convert`, `rooms` and
  `classes` (classes and their rooms), `events` and `metrics` (broker
  traffic), `accounts` and `properties`, `frontend` and `downloads` (URLs),
  `http` and `requests` (the HTTP layer), `ban`, `completion`, `turn_host`,
  `clients` (answers of the event and conference services), `ids`, `numbers` and `text`
  (identifiers, numbers and strings), `error`, and `outside` (the outside
  types the library names).
- `tests/` — tests of the library.
- `app/` — the service's edges: wire formats, the metrics registry and the
  conversions of outside values.
