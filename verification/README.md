# isitonline

A self-hosted service monitor. `src/` is the verified library (Verus); `app/`
is the web service around it (actix-web routes, SQLite through sqlx, the cron
scheduler, outgoing probes with reqwest, server-sent events).

Library modules:

- `probe` — what a probe of a target leads to: up or down by status class,
  whether a change of state is recorded, the response time record, the live
  card and its event name.
- `pages` — monitor cards, the overview tallies, the pending card of a new
  monitor.
- `issues` — open issues ordered newest first (stable), and their lines.
- `elapsed`, `decimal` — "N minutes ago" phrases and decimal notation.
- `jobs` — the registry of scheduled probe jobs by monitor id, and cron
  expression parsing.
- `clients` — live update subscribers and pruning of unresponsive ones.
- `config` — the listening port from its setting.
