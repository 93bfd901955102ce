# auth_service

The logic of an authentication service (registration, sign-in, sign-out and
the guard of authenticated routes), written in Verus with its behaviour stated
in contracts and proved.

- `src/` — the verified library:
  - `password` — the password policy, bcrypt hashing and checking;
  - `validation` — the checks on registration and sign-in bodies and the
    errors they report;
  - `response` — the response envelope, its builders, the refusal of bad JSON
    bodies and the 404/405 answers;
  - `auth` — the bearer token of a request, the steps of the guard, and the
    decisions of registration, sign-in and sign-out;
  - `jwt` — the claims of an access token, signing and checking tokens;
  - `config` — settings from the environment, the key pair, worker threads;
  - `system_config` — settings kept in Redis;
  - `log` — request log entries and the lines written for them;
  - `seed` — the initial roles, permissions, settings and administrator;
  - `enums`, `users` — shared types;
  - `laws` — properties that span several functions, proved.
- `tests/` — tests of the library on concrete values.
- `app/` — the server around the library: HTTP routes and middlewares,
  PostgreSQL and Redis access, the schema migrations, log files, environment
  and key files.
