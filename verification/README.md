# rust_sp_web

A small web server for sensor reports and machine status, behind a login.

- `src/` is the verified library: number formatting with thousands
  separators (`comm::util`), the SQL text that asks for rows as JSON
  (`comm::db`), the decisions of each page and action (`routes`), and the
  static-file, request-log and database-address logic of the server (`server`).
- `app/` is the program around it: the axum routes, sessions, database
  access, embedded assets, templates and the reading of system metrics.
- `tests/` runs the library on concrete values.
