# cryptoally_api

The request logic of a read-only market-data API (assets, daily prices, catalog
entries, FX rates) and of its small public site, written in Verus and verified.

- `src/domain`: newtypes (`AssetId`, `Lang`, `FxCurrency`, `Pagination`, API-key
  hashing), calendar dates read from query values, and the domain entities.
- `src/http`: error replies, each route's query parameters and the requests made
  of them, and `exchange`, the state machine every API request runs through: key
  check first, then the database calls the route needs, then the reply.
- `src/infrastructure/sql.rs`: every statement the repositories run, as SQL text
  pieces and bound values.
- `src/site`: HTML escaping, the homepage's live tables, `robots.txt` and
  `sitemap.xml`.
- `app/`: the Vercel/axum program: routing, the Postgres pool and repositories,
  and the loop that carries out what each exchange asks for.

The homepage template (`static/index.html`) is read at run time and is not part of
this repository.
