# backend

An authentication and profile service: users sign in with a Firebase ID
token, get a session and an HS256 session token, and read or change their
profile. Error answers are localised from per-language message files.

- `src/` is the verified library (Verus). It holds the error model and its
  HTTP answers, token issuance and checking (over `jsonwebtoken`, `chrono`
  and `uuid`), the message tables and their lookup with default and fallback
  locales, the normalisation of Firebase token claims, profile updates, row
  conversions, and the steps of the sign-in and profile use cases.
- `app/` is the server around it: configuration from the environment,
  Postgres access with `sqlx`, Firebase token verification, Salvo routes,
  handlers and middleware. It performs the I/O and hands the results to the
  library's functions.
- `tests/` exercises the library on concrete values.
