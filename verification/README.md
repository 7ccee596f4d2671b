# olp_storage

The storage rules of an AI gateway's control plane, verified with Verus.

- `src/` is the library. Each module holds the decisions the PostgreSQL and
  Valkey adapters make between their queries: validation of API keys,
  providers, routes and identities; the OIDC login, link and unlink rules;
  model discovery and capability certification; revision diffs; the media job
  lifecycle; the distributed limiter and circuit breaker replies; retention.
  Every function carries a contract that Verus proves. Calls into outside
  crates (uuid, redis, base64, sha2, rand, zeroize) and a few std string
  functions stand behind small trusted wrappers whose contracts state what
  those crates document.
- `tests/` runs the library on concrete values.
- `app/` is the unverified edge: Valkey clients, the maintenance pass's SQL,
  error types with `thiserror`, and the float progress check of media jobs.
