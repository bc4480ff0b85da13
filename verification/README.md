# todoproxy

A service that keeps each user's todo list (live tasks and finished tasks),
lets websocket clients edit it, broadcasts every edit to the user's other
sessions, and mirrors each edit on the user's Habitica account.

- `src/` is the library, with its contracts and proofs:
  - `api` — the wire types and the abstract model of a user's task state
    (`apply_spec`);
  - `task_updates` — applying an operation to the state (`apply_operation`),
    planning the Habitica call that mirrors it (`post_operation`), building the
    initial state from Habitica's tasks, and the decisions of a websocket
    session (`SessionState::step`);
  - `task_laws` — properties relating several operations or functions;
  - `habitica_integration::client` — Habitica requests and errors;
  - `handlers` — the service's errors and how outside failures map onto them;
  - `db_types`, `request`, `response`, `utils`.
- `app/` is the server around it: HTTP and websocket plumbing, the database,
  Habitica over HTTP, and JSON copies of the library's types.
- `tests/` exercise the library on concrete values.
