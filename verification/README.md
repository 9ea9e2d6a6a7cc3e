# entry-point

The decision logic of a game backend's HTTP entry point, verified with Verus.

- `src/` is the library: request validation, login-session bookkeeping,
  the prize-wheel draw, mission progress rules, battle-pass claims, card
  payment states and per-user metadata rules. Each public function states
  its result in `ensures`; the `law_*` proof functions state properties
  that span several calls.
- `app/` holds the axum handlers that read and write Postgres and Redis and
  hand the decisions to the library.
- `tests/` runs the library on concrete values.

Calls into `uuid`, `chrono`, `rand`, `regex`, `bcrypt` and a few `std`
string functions go through small trusted wrappers whose contracts say what
the crates document.
