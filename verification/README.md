# dopablocker_backend

Backend of DopaBlocker: accounts authenticated by Firebase, email
verification by six-digit codes, per-user blocklists, parental linking of
children's devices with device tokens, and tampering reports.

## Layout

- `src/` — the library, verified with Verus. It holds the rules of the
  backend: configuration from the environment, email and domain
  normalization, code and token issuing and checking, the authentication
  rules (device tokens only read), the sign-up plan, the parental-link and
  revocation decisions, error translation, and the laws that tie them
  together (an issued device token authenticates as its device, an issued
  code verifies, a domain error survives the database round trip, ...).
  Calls into `sha2`, `hmac`, `subtle`, `rand`, `uuid`, `chrono` and
  `jsonwebtoken` go through small trusted wrappers whose contracts are
  stated next to them.
- `tests/` — tests of the library.
- `app/` — the HTTP server (axum): environment reading, the SQLCipher
  database, SMTP delivery, the Firebase key cache, and the routes. It runs
  the queries and hands their results to the library's decisions.

## Running the server

The server reads `PORT`, `DATABASE_PATH`, `SQLCIPHER_KEY`,
`FIREBASE_PROJECT_ID`, `EMAIL_CODE_SECRET`, `EMAIL_DELIVERY_MODE`
(`smtp` or `log`), `SMTP_HOST`, `SMTP_USERNAME`, `SMTP_PASSWORD`,
`SMTP_FROM`, `SMTP_PORT` and `CORS_ALLOWED_ORIGINS` (comma-separated).
The schema migrations are read at start-up from `MIGRATIONS_DIR`
(default `migrations/`), one `<name>.sql` file per migration.
