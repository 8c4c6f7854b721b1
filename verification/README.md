# my_blockbuster

A movie catalogue served over HTTP: a JSON API that stores movies fetched from
OMDb in SQLite, and HTML pages that use that API.

- `src/` is the verified library (Verus): the records and answers
  (`model`), OMDb's records and their conversion (`omdb`), the insert
  statement and its bound values (`sql`), the decisions of the API handlers
  and the add-movie state machine (`api`), the addresses the page client
  requests (`client`), the pages' inputs (`web`), and decimal numbers in text
  (`text`).
- `app/` is the server around it: Rocket routes, SQLite queries, OMDb and API
  requests, templates, and copies of the records with serde/sqlx/form derives.
- `tests/` exercises the library on concrete values.
