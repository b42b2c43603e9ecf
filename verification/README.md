# frameworkx

Reusable server-side building blocks — errors and HTTP envelopes, authentication
providers and verification codes, user accounts, administration, and file storage —
written in Verus: the decisions are executable Rust whose contracts Verus proves.

## Layout

- `src/` — the verified library.
  - `error.rs`, `web.rs`: error kinds, HTTP statuses, response envelopes, server settings.
  - `auth/`: verification-code generation and rate limiting, the code issue/verify
    state machines, the checks of each login provider (e-mail, SMS, password, GitHub,
    WeChat), and the verification of Google and Apple identity tokens.
  - `user/`: account statuses, profile and binding rules, password policy and Argon2
    checks, QR-code scan sessions, request-level checks and the order of a code request.
  - `admin.rs`: query normalisation, status changes and administrator access.
  - `storage/`: naming, quota accounting, upload and deletion state
    machines, direct-upload grants and confirmations with signed temporary credentials,
    image transforms, and the request-level checks and public image reads of the
    storage routes.
- `app/` — ordinary Rust around the library: HTTP routing (axum), PostgreSQL
  repositories (sqlx), object-store and file-system I/O, outgoing HTTP calls and the
  loops that run the library's state machines against them.
- `tests/` — tests of the library, run against the real outside crates.

Work that waits on the outside world (database, object store, HTTP) is driven by state
machines in `src/`: each `step` takes the answer to the last call and returns the next
call or the result, and `next` states that transition exactly. The proof functions named
`law_*` state properties that span several steps or functions.
