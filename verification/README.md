# ezpr

EZPR keeps the players, tournaments, aliases and placements of a start.gg
power ranking in an SQLite database file, and signs its user into start.gg.

- `src/` is the verified library (Verus):
  - `ezpr_file_format/`: the file format: table descriptions and their
    `CREATE TABLE` statements, typed reading of rows, and the currently
    opened file (new, load, save, close) over SQLite, held in a slot that
    records the steps taken on it;
  - `settings/`: the settings and the decisions of loading them;
  - `queries/`: the start.gg GraphQL request bodies and what is taken from
    their responses;
  - `oauth.rs`, `oauth/`: the OAuth client's endpoints, the authorization
    URL and its CSRF state, the reading of the
    redirect that brings back the authorization code, and the answer to it;
  - `text.rs`: decimal numbers, word splitting and comparing texts.
- `app/` is the program around it: file and network I/O, JSON, the OAuth
  client and the token exchange, and `main`.
- `tests/` runs the library on concrete values.
