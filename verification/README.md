# auth_service

An OAuth authentication service (GitHub login, ES256 JWT sessions with
refresh-token rotation, API keys, rate limiting, IP filters, audit logging),
with its logic written and proved in Verus.

## Layout

- `src/` — the verified library. Every decision the service makes stands
  here with a contract: refresh-token rotation and reuse detection
  (`services/token_service.rs`), brute-force and login-anomaly detection
  (`services/anomaly_detection.rs`), one-time login states
  (`oauth/state.rs`), the rate limiter (`middleware/rate_limit.rs`), token
  encryption (`security/encryption.rs`), API keys (`security/api_key.rs`),
  token claims (`security/jwt.rs`), the answers of the middlewares and
  handlers, and the models. Calls into outside crates (chrono, uuid, sha2,
  hex, base64, aes-gcm, argon2, rand, dashmap, serde_json, oauth2, axum's
  header check) stand behind small trusted wrappers whose contracts say
  what the crates document.
- `tests/` — tests of the library on concrete values.
- `app/` — the HTTP service around the library: configuration, SQLite
  repositories (sqlx), JWT signing and verification (jsonwebtoken), the
  GitHub client (oauth2, reqwest), and the axum middlewares, handlers and
  router. It carries out what the library decides.

The properties that span several operations (a state is consumed once, a
reused refresh token revokes the user's families, failures accumulate into a
lockout, a burst up to the limit passes the rate limiter, and so on) are
public proof functions next to the operations they speak of.
