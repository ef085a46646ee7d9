# paseto_auth

A PASETO (v4.public) and PASERK based authentication service, a scheduler that
rotates its signing key daily, and a resource server that checks access tokens
against the keys the authentication service publishes.

- `src/` is the verified library (Verus): JSend responses, error mapping, payload
  validation, password strength and hashing, token claims and signing, key ids and
  their redis keys, key rotation, the published key list, the resource server's key
  cache and the session decisions of both services. Calls into `rusty_paseto`,
  `ed25519-dalek`, `argon2`, `zxcvbn`, `validator`, `chrono`, `time` and `rand` go through
  small trusted wrappers whose contracts are documented where they stand.
- `app/` is the unverified shell: `main` with the `auth`, `scheduler` and `resource`
  services, the HTTP routes (axum), the database (diesel), redis, the key-list fetch
  (reqwest) and the environment files.
- `tests/` runs the library with the real outside crates linked.
