# codex_context

A verified library for the environment context that a coding agent sends to
its model at the start of each turn, and for the pure parts of an agent
identity's runtime state.

- `src/environment_context.rs`: the context, how it is built from a live turn
  or from the record of a past one, how a live turn is diffed against a
  record, and comparison that ignores the shell.
- `src/xml.rs`: the XML rendering of a context.
- `src/path.rs`: comparison of path texts, by `std::path::Path`'s `==`.
- `src/text.rs`: line splitting, joining and string comparisons.
- `src/agent_identity.rs`: the identity's record, its set-once runtime state,
  the account info decoded from the backend, and the account endpoint URL.
- `src/laws.rs`: properties that relate several functions.
- `app/`: serde forms of the context types and the network round trips of
  the agent identity.
