# pool_fetcher

Fetches DEX pools (Uniswap V2/V3/V4, Aerodrome, PancakeSwap V4) from their
subgraphs into SQLite, and cleans them into a target table of pools whose
tokens trade in more than one pool.

- `src/` is the library, verified with Verus:
  - `text`: decimal numbers read and written as std does;
  - `json`: JSON values and their compact text;
  - `models`: protocols, subgraph models and the stored pool;
  - `schema`: reading subgraph models from JSON and writing them back;
  - `fetcher`: GraphQL queries, reading a page of pools, and the fetch loop
    as a state machine (`FetchState::step`); a fetch given a start id
    resumes after it, asking only for pools whose id is greater (`id_gt`);
  - `cleaner`: the cleaning of pools;
  - `db`: rebuilding a pool from a stored row;
  - `config`: configuration and proxy URL.
- `app/` is the program: command line, environment, HTTP, SQLite, logging and
  the one floating-point comparison (the value-locked threshold).
- `tests/` runs the library on concrete inputs, comparing JSON text with
  serde_json where the library writes JSON.
