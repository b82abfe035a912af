# portfolio_tracker

A self-hosted net-worth tracker: a web server over SQLite, a price feed and a
command-line client. The rules, classifications, parsers and planners they
share form a library whose every function carries a contract proved by Verus.

## Layout

- `src/` — the verified library.
  - `text.rs`, `decimal.rs` — string helpers, std's integer `to_string` and
    `parse`, thousands grouping, the comma-separated label-id lists.
  - `dates.rs` — `YYYY-MM-DD` dates as day numbers (chrono reads and writes
    the text), text order of dates, year bounds.
  - `taxonomy.rs` — asset types to allocation categories, roles, labels.
  - `market.rs` — moving-average signals, the majority vote for the market
    mode, and how a trade aligns with it.
  - `insights.rs` — net-worth delta windows, staleness cards, action texts.
  - `views.rs` — what the editing, expenses, accounts and settings pages
    select and list.
  - `forms.rs`, `records.rs` — cleaning of form and JSON input, records,
    smart deletes, error answers, configuration defaults.
  - `cli.rs`, `json.rs` — the client's command line read into an HTTP
    request (JSON arguments read and re-encoded by serde_json), and how a
    reply is shown.
  - `feed.rs` — the price feed's modes, cycle order, failure handling and
    which fetched prices are stored.
- `tests/` — tests of the library on concrete values.
- `app/` — the programs around the library: HTTP handlers and SQL, the
  outside price services, the feed loop, the client's HTTP calls, and the
  floating-point analytics (drift, concentration, scores).

Laws of the library are public proof functions named `law_*`, next to the
functions they speak of.

## What `app/` serves

`app/` serves the JSON API, the REST API v1 and the form posts of the
editing pages, and also routes `POST /settings` and `/api/v1/settings`
(the settings handlers exist in the server, without a route elsewhere).
The HTML pages, `/guide`, `/api/docs` and `/positions/track` are not
served: their templates, the OpenAPI document and the holding-tracking
handler are not part of this tree; what those pages decide (tabs, year
filters, rows, dropdowns, account sections) is in `src/views.rs`.
Allocation targets are refused when a mode's targets would sum to more
than 100%; the shares are floating-point, so that check is in `app/`.
