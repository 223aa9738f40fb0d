# dioxus_auth

Authentication and session handling for Dioxus applications, with its logic
verified by Verus.

- `src/` — the verified library: session cookies (`cookie`), bearer and
  cookie transport (`transport`), request-scoped server authentication
  (`server_fn`, `server/`), the client session state machine (`context`,
  `client`, `state`, `hooks`), route guards (`guards`), return-to
  navigation (`return_to`) and cross-tab messages (`sync`). Contracts are
  stated over spec functions on text (`Seq<char>`); the laws the library
  keeps are public proof functions next to the code they are about.
- `tests/` — executable tests of the library.
- `app/` — runtime glue that Verus does not see: serde wire types with
  redacted `Debug`, displayable errors, the tokio blocking boundary, the
  process-wide configuration registry and tower middleware.
