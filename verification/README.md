# spire

The core of a crawler and scraper framework, verified with Verus: requests
with routing tags and depths, the queue that fills in their defaults,
flow-control decisions and the deadlines they set, datasets that hand items
out first-in-first-out or last-in-first-out, and the WebDriver browser
backend's configuration, capabilities, errors, pool settings and page visits.

## Layout

- `src/` — the verified library.
  - `context/` — tags, depths, requests, responses, flow control and the
    request queue.
  - `dataset/` — the dataset trait and the in-memory queue and stack.
  - `process/` — the client's settings, the deferred-tag table and the
    run loop's decisions.
  - `browser/` — WebDriver configuration, browser types and their
    capabilities, errors, pool settings, the pool manager's decisions,
    connection statistics and the steps of a page visit.
  - `backend/` — the no-op backend, client and worker.
  - `text.rs`, `time.rs`, `keyed.rs` — text rendering, spans of time, and
    maps kept as lists of pairs.
- `tests/` — tests of the library.
- `app/` — the runtime around it: the asynchronous traits, the `reqwest` and
  `thirtyfour`/`deadpool` backends, type-erased datasets, floating-point
  error rates and the runner loop.
