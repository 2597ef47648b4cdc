# replicat

A SQLite database replicated with Raft (openraft), with its decision logic
verified in Verus.

- `src/` is the verified library: the decimal rendering of numbers and the SQL
  text that reads a range of the Raft log (`decimal`, `query`), identifiers of
  log entries and votes (`ids`), the messages exchanged between nodes and the
  rules that build and read them (`rpc`, `route`), the client's redirection and
  retry rule (`client`), the connection cache (`network`), the plan that applies
  committed entries to the state machine and the in-memory state it updates
  (`state_machine`), snapshot naming and numbering (`snapshot`), database images
  and the checks on SQLite's serialize/deserialize results (`memory`), storage
  failure classification (`errors`), and the schema (`schema`).
- `app/` holds what runs around it: the SQLite actor thread, the openraft
  storage and network traits, the gRPC client and server, and the serde and
  protobuf forms of the library's messages.
- `tests/` runs the library on concrete values.
