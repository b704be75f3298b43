# Data Contract Version Gate

A Flex Gateway policy that gates the data-contract version a request declares
against per-contract (or global) block / deprecate thresholds, with the
decision logic verified in Verus.

- `src/text.rs` — characters of a string, Unicode whitespace, trimming.
- `src/semver.rs` — semver core parsing (`parse`) and comparison (`below`),
  with the spec `parsed_version` and the ordering laws.
- `src/contract.rs` — `Rules`, `Decision`, `resolve_rules`, `evaluate`.
- `src/config.rs` — the policy configuration, `resolve_for`, header names,
  fail mode and `applyTo`.
- `src/filter.rs` — which traffic is gated (`applyTo` `auto` / `mcp` / `all`),
  the action on a request (pass, pass with deprecation, refuse with 426), the
  refusal text and the deprecation response headers.
- `src/json.rs` — the `serde_json` calls that read a request body.
- `app/` — the PDK entry point and filters: reads headers and bodies, writes
  responses, parses the configuration.
