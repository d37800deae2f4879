# sc_dossier

Read-only access to your own Star Citizen account data from CIG's
game-services backend, authenticated with the RSI launcher's stored session.
Using a non-official client against CIG's backend is against their Terms of
Service; use on your own account at your own risk.

The library in `src/` holds the decisions and decoders, each with a contract
proved by Verus:

- `store` — splitting and decrypting the launcher store (AES-256-CBC,
  PBKDF2-HMAC-SHA512 key from the `app.asar` key text), the streaming search
  for that key text, and reading the credential fields from the store JSON.
- `auth` — environments, mint options, and the three-step mint flow
  (`games/claims` → `games/release` → `games/token`) as a state machine that
  says what to send and takes each reply's envelope.
- `client` — the bearer credential for gRPC requests.
- `blueprints`, `entitlements`, `identity`, `items` — the public record
  types, their decoding from the backend's records, and the paginated (and,
  for items, de-duplicating) walks.
- `json`, `pagination`, `text`, `error` — the JSON model, cursor rules,
  string helpers and the error type.

`app/` is the I/O around it: reading the launcher files, the HTTP exchange,
the gRPC channel and the `Dossier` session object. The RPCs themselves go
through the `GameServices` trait. This crate holds no implementation of it:
one needs tonic client code generated from the backend's protobuf schema
(`sc.external.*`), which is not part of this crate.
