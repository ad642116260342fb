# backend

The authentication service of a small web application (sign-up, log-in with
JSON web tokens, one-time codes by mail, password reset), written as a library
whose decisions are proved with Verus, and a thin server around it.

- `src/` is the library. Each request handler is a sequence of stages: a
  function starts it from the request body and each `step` takes the outcome
  of the last piece of outside work (database, Redis, the token signing
  secret, mail) and gives the next stage and the next piece of work, or the
  answer. The library itself writes token claims as JSON, signs and checks
  tokens (`jsonwebtoken`), hashes passwords (`bcrypt`) and draws codes. The
  contracts state each answer and each piece of work asked for; where an
  outcome rests on the clock or on randomness (token expiry, the salt of a
  hash, the digits of a code) they state what holds of every outcome, and a
  function that takes the outcome says what follows from it.
  `service/auth/laws.rs`, `service/auth/session.rs` and
  `connection/dbconection.rs` prove the properties that span several steps,
  handlers or calls (tokens only for the right password, the mailed code is
  the stored code, a reset needs the stored code and uses it once, the send
  limits over a run of sends, distinct e-mail addresses, a filled connection
  slot stays filled).
- `app/` is the server: actix-web routes and middlewares, the database
  (sea-orm), Redis, SMTP, and the serde forms of the library's types. It
  performs the work each stage asks for and hands the outcome back.
- `tests/` run the library on concrete values.
