# supabase_micro

A Supabase client for embedded targets, written in Verus. PostgREST requests
(path and query string, `apikey` / `Authorization` / `Prefer` headers, full URL)
are built into fixed-capacity `heapless` buffers, and every step is specified
and proved: what each builder call appends, when a buffer is too small and what
it holds then, which headers are sent in which order, and which error a
response status or PostgREST error code means.

Layout:

- `src/` — the verified library. `fixed` wraps `heapless::String` behind
  trusted contracts; `query`, `postgrest`, `client`, `auth`, `error`,
  `response` and `transport::request` hold the verified logic; `laws` states
  properties that span several operations.
- `tests/` — tests on concrete values.
- `app/` — the async `reqwless` transport, JSON decoding with
  `serde-json-core`, and `Display` for the errors.
