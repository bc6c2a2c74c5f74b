# b2b_product_catalog_quote_system_api

The server of a B2B quotation pilot: operators save synthetic quote requests,
price a draft, approve it by hand, freeze a proposal and follow it up.

`src/` is the verified library (Verus):

- `text` — Unicode white space, trimming, blank text, substring search and
  comma splitting, over characters.
- `config` — the configuration read from the environment: the signing
  secret's strength, the port, the defaults and the allowed origins.
- `error` — the refusals the pilot answers with.
- `pilot` — what a saved request must hold, how a repeated save is answered,
  the transitions of a quote and the priced proposal.
- `pilot_laws` — what holds of every transition: only workflow moves, stale
  versions conflict, approval needs a person, approved values and the
  proposal are frozen, tax is rounded half up, saving is idempotent.
- `catalog` — paging and the search pattern of the public catalog.
- `auth` — the bearer token of a request and the first operator's credentials.

`app/` is the HTTP server around it (axum, sqlx, PostgreSQL). It relies on
the modules `db`, `models`, `services` and `routes::admin`, the page
`static/pilot.html` and the `migrations` directory, which are not part of
this crate.

`tests/` runs the library on concrete values.
