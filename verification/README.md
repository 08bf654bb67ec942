# polls

A poll service: clients create polls with options, vote while a poll is open,
end a poll once, and follow a poll's votes over a socket room named after it.

- `src/` is the verified library (Verus): the records (`model`), the
  controller's decisions around its database work (`controller`), what each
  HTTP handler answers and announces (`routes`), the generic error responses
  (`status`), socket subscriptions (`socket`), the settings (`config`),
  decimal room names (`text`), and the properties that hold across them
  (`laws`).
- `app/` is the server around it: axum routes, sea-orm entities and queries,
  socketioxide sockets, and `main`.
- `tests/` runs the library on concrete values.
