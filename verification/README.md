# tamichat

A small chat server: users register and log in over HTTP, then chat over a
WebSocket. The crate is split in two.

- `src/` is the library, verified with Verus.
  - `text`: Unicode whitespace trimming and UTF-8 byte lengths.
  - `protocol`: the client and server messages, with their mathematical views.
  - `db`: stored rows and the decisions around the message and user tables
    (outcome of a user insert, history order, delivery flags).
  - `auth`: password hashing (argon2), session tokens (jsonwebtoken), and the
    rules of registration and login.
  - `hub`: who is online, and which message goes to whom when users join,
    leave, chat or ask for history.
- `app/` is the server around it: axum routes, the SQLite store (sqlx), the
  socket loop (tokio), and the serde forms of the messages.

Calls into argon2, jsonwebtoken and chrono are made from `src/` through small
trusted wrappers whose contracts name what those crates compute.
