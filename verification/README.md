# yuban

Server for exchanging texts and their translations and corrections between
the members of groups.

- `src/` is the verified library (Verus): access tokens and the `token`
  cookie that carries them (`token`), password records under argon2
  (`login`) and under salted SHA-256 (`salted`), what the user store decides
  from its rows (`store`), permission rules (`permissions`), request values
  (`params`), statuses and failures (`http`), handler answers (`replies`),
  date text (`dates`), decimal rendering (`decimal`), and start-up (`server`).
  Calls into `base64`, `rust-argon2`, `sha2`, `rand` and a few functions of
  std stand behind the trusted items of `codec`, `login`, `salted` and
  `random`.
- `tests/` runs the library with the real outside crates.
- `app/` is the Rocket server around it: request guards, routes, the MySQL
  queries, and the command line.
