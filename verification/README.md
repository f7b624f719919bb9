# pds routes

The decisions of a Personal Data Server's HTTP routes (XRPC account creation and migration,
`applyWrites`, account status and usage, the operator admin surface, the agent registration and
claim ceremony, child agents, provider security events), written as a verified library.

- `src/` — one module per route family. Each route is a chain of stages (`flow.rs`); what a
  stage decides on what it read is a function with a contract, and the order of the stages is a
  `Stage` impl. `boundary.rs` holds every call into an outside crate, each with the contract
  the library relies on. `text.rs` and `paging.rs` are the shared string and cursor helpers; `ids.rs` and `clock.rs`
  draw random identifiers and read the clock.
- `tests/` — the unit and scenario tests.
- `app/` — the serving side: serde copies of the wire types, the
  float quota readouts and ID-JAG verification.
