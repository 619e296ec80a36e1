# SQL Server connection setup for dbt, verified with Verus

The library turns the fields of a SQL Server profile into the options of an
ADBC `mssql` connection, and describes the interactive questions that fill
such a profile.

- `src/mssql.rs`, `src/mssql/fedauth.rs`: the driver's query-string keys and values.
- `src/adapter_config.rs`: the profile fields, a list of `key: value` entries.
- `src/auth/`: resolving a profile (`parse`), building the `mssql://` URI and
  the credentials (`uri`), the provider `SQLServerAuth`, and the properties
  proved of them (`laws`).
- `src/config/`: storing and reading setup answers, the setup questions
  (`fields`), and their properties (`laws`).
- `src/text.rs`: the string operations the rest is built from.

Every executable function in `src/` carries a contract that Verus proves; the
one call whose result is named rather than stated is `str::to_lowercase`.
