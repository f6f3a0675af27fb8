# pgdesk

A small desktop client for PostgreSQL: a list of saved connections, a SQL
editor, and a results table.

- `src/` is the verified library (Verus). It holds the application's model
  and rules: the settings and how a connection profile is inserted or
  replaced, the shared state (open connections, the selection), the state
  machine of each panel (the new-connection form and its validation, the
  query panel, the settings dialog), the text handling they need (trimming,
  port parsing, connection URLs, query classification), and the laws that
  tie them together. Each panel's `update` returns an `Effect` that says what
  outside work is to be done.
- `app/` is the program around it: the iced window, the settings file
  (TOML), the OS keychain, and the database driver. It performs the effects
  and feeds their results back as messages.
- `tests/` exercises the library on concrete values.
