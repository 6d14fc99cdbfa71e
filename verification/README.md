# backend

The account rules of an HTTP backend, verified with Verus.

- `src/` is the verified library: password strength (`password`), the login
  flow with its lockout rule (`login`), the registration flow (`register`),
  the error catalogue of the endpoints (`errors`, and `catalog` for reading a
  catalogue declaration and deriving its status tables), bearer tokens and
  the authenticated caller (`user_auth`), the answers of logout and session
  checks (`session`), the route and documentation tables (`docs`), the
  password-reset migration and the schema it acts on (`schema`) and
  identifiers (`ids`).
- `app/` holds the HTTP server code around it: request extraction, JSON
  bodies, the documentation redirect and the loops that run the login and
  registration flows against an `AuthBackend` (account store, password
  hashing, token signing). No implementation of `AuthBackend` ships here, so
  the binary reports that none is configured and exits.
- `tests/` exercises the library on concrete values.
