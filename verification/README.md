# bybe

The logic of a Pathfinder 2e game-master backend (creatures, hazards, items and
shops), written in Verus with its behaviour stated in contracts and proved.

## Layout

- `src/` — the verified library.
  - `text.rs`: decimal rendering, case mapping, parsing, joining, substring search
    and a verified sort of texts.
  - `db/data_providers/raw_query_builder.rs`: the SQL text of every listing, count,
    filter and random draw, each stated as a specification of its text.
  - `db/data_providers/generic_fetcher.rs`: handing a batch of entities the traits
    fetched for them.
  - `db/data_providers/shop_fetcher.rs`: regrouping a shop's items by kind, with
    random copies where a kind's list exceeds its count.
  - `db/bestiary_proxy.rs`, `db/proxy.rs`, `db/db_proxy.rs`: the decisions of the
    creature services that need no database (levels to fetch for weak and elite
    variants, catalogues of variants, key/value filters, paging, grouping by level,
    the values a filter can take).
  - `db/cache.rs`, `db/db_cache.rs`: the distinct values of the creatures' fields,
    and the cache that keeps them once computed.
  - `models/`: creatures (two models: components with optional details, and the
    flat cached model), their variants, level-without-proficiency conversion, role
    scoring against the level scales, filters, items and hazards.
- `tests/` — tests of the library on concrete values.
- `app/` — the program: it rebuilds the creature core tables, runs the queries the
  library builds against PostgreSQL, converts rows into the library's types, and
  hands them to the library.
