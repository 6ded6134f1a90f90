# phenotype-shared

Shared building blocks for hexagonal services, written in Verus: each
function of the library states what it does in `requires` / `ensures`, and
Verus proves it.

## Layout

- `src/state_machine/` — a forward-only finite state machine over a `State`
  trait, transition validation and guards, use cases over a repository port,
  and proof functions for what holds across transitions (`laws.rs`).
- `src/policy/` — rule-based policy evaluation: facts in an evaluation
  context, `Allow` / `Deny` / `Require` rules matched by regular expressions,
  policies, a policy engine over a `DashMap` whose changes go through
  `&mut self`, and the checks of policy
  configuration files.  `laws.rs` holds what holds across calls.
- `src/ports/` — value types of the port interfaces: identifiers, pagination,
  HTTP requests and responses, log records, events, queue messages and the
  page-by-page count of repositories.
- `src/adapters/` — configurations of the PostgreSQL and Redis adapters, and
  the commands they build.
- `src/nanovms/` — sandbox orchestration: tiers and sandbox configurations,
  the command lines of the `ops` CLI and what is read back from it, an
  in-memory sandbox store, and client decisions.
- `src/common/` — text helpers, timestamps, durations, identifiers and a
  small string-keyed map.
- `app/` — ordinary Rust around the library: async ports, process and
  network I/O, serde and error-display copies of library types.
- `tests/` — the test suite, run against the compiled library.

Calls into `regex`, `dashmap`, `chrono`, `uuid` and `serde_json` go through
small trusted wrappers in `src/`, each with a doc comment saying what its
contract claims of the outside function.
