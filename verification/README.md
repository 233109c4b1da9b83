# pulseon

The verified core of PulseOn, a local-first tracker of training runs and
their metric series. `src/` is checked by Verus; `app/` holds the runtime
around it (DuckDB storage, the metric writer thread, floating-point chart and
comparison math, the Python extension module and the viewer's read worker).

Library modules:

- `text` — blank checks, RFC 3986 percent-encoding (proved injective and free
  of path separators), and the std string calls the rest relies on.
- `model` — run, project and metric identities, run status.
- `engine` — run rows and lifecycle rules, catalog bootstrap statements and
  storage paths, run writer locks and report admission, reporting counters,
  metric read plans, comparison outcomes, timestamps.
- `data` — the Parquet viewport query, its budget, plan and parameters.
- `storage` — aligned metric queries: statements, bound values, bucket counts.
- `sdk` — configuration rules of `pulseon.init` and the exception class of
  each engine failure.
- `viewer` — the viewer core (selection, stale-result handling, catalog
  refresh), the read worker's request queue, budgets and real ranges.
- `chart` — series identities and chart errors.

Laws proved about the library are public proof functions named `law_*`, next
to the functions they speak of.
