# rustdesk_ab

A self-hosted address book server for RustDesk clients, with its rules proved in Verus.

- `src/` — the verified library:
  - `config.rs`: defaults, environment overrides (with a verified port-number reader),
    and the fallbacks for a missing JWT secret or admin password.
  - `routes/auth.rs`: the sliding-window login rate limiter and the login outcome.
  - `routes/ab.rs`: address-book access control (owner, direct and group shares),
    share management checks and the console's list of administered books.
  - `routes/ab_books.rs`: personal books, shared-book profiles, book creation.
  - `routes/ab_legacy.rs`: the legacy whole-book payload and its tag colors.
  - `routes/system.rs`: device registration, sysinfo replies, the online status and
    the step-by-step auto-registration of devices in the administrator's book.
  - `models/`: the data the rules work on.
- `app/` — the server around it: configuration loading, axum routes and the SQLite
  queries, which hand plain values to the library and carry out what it decides.
- `tests/` — tests of the library on concrete values.
