# mon

`mon` is a command line client for Monarch Money that runs GraphQL requests
inside a logged-in browser tab through the bro MCP bridge.

The crate is split in two:

- `src/` is the library, verified with Verus. It holds what the program
  decides: tab selection from bro's listing, the MCP request and answer
  shapes, the page scripts and the polling decisions of a browser request,
  the reading and classification of GraphQL errors, the search and update
  variables, the category resolution and the whole single-transaction update
  (as a state machine whose every step has an exact contract, and a driver
  that runs it over any transport), the table rows, the session document,
  and path resolution. JSON is modelled by `json::JsonValue`.
- `app/` is the program around it: argument parsing, HTTP, files, the
  environment, the clock, and printing.

The laws of the update (the mutation is sent at most once and never in a dry
run, only a read-back in the target category counts as success, every
outcome is reported consistently) are public proof functions in
`src/transaction_update.rs`, and `execute` states them of the calls it
actually makes: they go through a `CallLog`, which records each one.
