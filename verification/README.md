# sqlz

A library for moving tables between databases, with a PostgreSQL provider.
Its logic is written in Verus and proved against its contracts.

- `src/sqlz/` — the database-independent model: column types (`types`),
  tables, columns and constraints with the migration rules (`schema`), rows and
  batched reads (`query`), migration plans (`migration`), errors (`error`)
  and the interface of a provider (`provider`).
- `src/providers/postgresql/` — what the PostgreSQL provider decides: the
  mapping between PostgreSQL types and generic types (`helper`, `pg_type`),
  how catalog rows become tables, columns and constraints (`introspection`,
  `lookup`), the SQL text the provider sends (`queries`, `sql_text`), and where
  a batched read goes on (`provider`).
- `app/` — the program around the library: the connection to PostgreSQL, the
  queries it runs, and the conversion of values to and from the driver.
- `tests/` — tests of the library on concrete values.
