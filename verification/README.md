# evo_pro

The verified core of the Evo assistant's back end, written in Verus.

- `src/resources` — resource profiles, adaptation strategies and the resource
  manager, progressive enhancement of features and their fallbacks.
- `src/repositories` — the memory cache and its laws, the disk cache index,
  cache metrics and monitored caches, consistency strategies and change
  propagation, cache warming, glob patterns, SQL query building and task
  validation.
- `src/security` — secure defaults and threat modeling.
- `src/services` — service metrics and validation results, and the decisions
  of the privacy services: analytics consent and anonymization, data usage
  reports, consent, retention, deletion verification, export (with the
  texts of its CSV files) and minimization, and how an operation runs under
  a transaction propagation behavior.
- `app/` — what touches the machine: system resource detection, files of the
  disk cache and of CSV exports, background threads, process-wide state and JSON records.

Times are milliseconds since the Unix epoch and are passed in, so that every
operation is a function of its inputs; the few calls that read the clock or
draw a random identifier are marked as such.
