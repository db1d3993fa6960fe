# simprint_server

The request, cache and query logic of the Simprint server, verified with
Verus.

- `src/` is the verified library. It builds the SQL text and parameters of
  the list queries, the Redis keys of the local-API caches and the lifetimes
  of rate counters, and takes the decisions of the authentication,
  permission and machine-code middlewares and of the event sync. Each public
  function states its result in its contract; the laws that relate several
  functions (cache keys that never collide, a key pattern that finds exactly
  one API key's permissions, credentials that read back as written, requests
  that pass every middleware) are proof functions beside them.
- `app/` sends what the library builds: the PostgreSQL statements (sqlx) and
  the Redis commands, with the row and cache types that carry the serde and
  sqlx derives.
- `tests/` runs the library on concrete values.
