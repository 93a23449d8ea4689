# ory_auth

The decisions of a Leptos site that authenticates with Ory Kratos and
authorises with Ory Keto, written in Verus and proved against their
contracts.

- `src/ids.rs` — element ids shared with the end-to-end tests, and the map
  from Kratos form input names to ids.
- `src/views.rs` — what the home page, the logout button and the logout page
  show, as plain values.
- `src/logout.rs` — the logout flow as a state machine: the caller performs
  each action (HTTP requests to Kratos, clearing cookies) and feeds back the
  outcome. Proved: success only after the flow was requested, its logout URL
  followed and the cookies cleared; a logout finishes once; Kratos is asked
  only with the request's session cookie.
- `src/permissions.rs` — the Keto relation tuples for granting and checking
  permissions on posts, and the verdict on Keto's answer.
- `src/database_calls.rs`, `src/migrations.rs` — the SQL statements sent to
  SQLite; every statement binds exactly one value per placeholder, and
  inserted rows get fresh version-4 UUIDs.
- `app/` — the Leptos components and Axum server functions that render the
  views and carry out the I/O.
