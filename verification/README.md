# mcp-planify

An MCP server that exposes Planify to-do lists (projects and tasks) as tools.

- `src/` is the verified library (Verus): locating the database (`connection`),
  the SQL statement and bound values each operation runs (`items`, `projects`,
  `sql`), fresh ids and timestamps (`stamps`), errors and their messages
  (`error`), and the request and result types (`params`, `types`).
- `app/` is the program around it: it reads the environment and file system to
  answer the database lookup, holds the SQLite connection, runs the statements
  the library plans, and serves the tools over stdio.
- `tests/` exercise the library, running its statements against in-memory SQLite.
