# pumas_core

The verified core of the Pumas model library, written in Verus.

`src/` holds the logic, each function with a `requires`/`ensures` contract
that Verus proves:

- the versioned download store (`downloads.json`): its records and their
  mathematical views (`store_model`, `keyed`), the document invariant
  (`store_invariant`, `store_check`, `store_validate`), and every store
  operation as a function from the document read to the document to publish
  (`store_ops`, `admission`, `admission_queue`, `lifecycle_ops`,
  `relocation_ops`, `inventory`, `store_load`, `store_document`), with the
  outcomes of atomic publication (`publication`, `transitions`) and the
  order in which admissions and revocations publish (`publication_steps`);
- download recovery identifiers and tickets (`recovery_ids`, `recovery_meta`,
  `recovery_ticket`), and finalization of interrupted downloads (`partial`,
  `partial_paths`);
- the local IPC protocol: operations, errors, envelopes, frames and
  parameter decoding (`ipc_protocol`, `ipc_command`), the desktop RPC's bind
  host and CORS origins (`rpc_access`), JSON-RPC envelopes (`json_rpc`) and
  the routing of desktop RPC methods to their handler groups (`rpc_routes`);
- per-destination FIFO serialization of download work (`destination_queue`)
  the decisions of the download task owner (`task_lifecycle`), and its
  table of installed tasks, start gates and projection cells (`task_table`);
- migration report bookkeeping and paths (`migration`), small service
  decisions (`service`), admission of paused fixture downloads (`fixture`),
  and the paths, PID files, arguments and readiness wait of launched
  inference versions (`launcher`);
- `laws`: properties that relate several operations, stated and proved as
  proof functions.

The only outside code the proofs rely on is reached through a few trusted
items: `uuid` (parsing and generating attempt ids), `blake3` (the ticket
digest), `url` (parsing CORS origins), and std's `char::is_alphanumeric` and
`str::to_lowercase` (release-tag slugs).

`app/` is ordinary Rust around the library: the file-backed store with JSON
(de)serialization, atomic publication and the `.downloads.lock` file lock,
blocking IPC frame I/O, the
filesystem side of recovery and partial downloads, fixture admission,
starting a version and tailing its log, and the process environment.
`tests/` exercises the library, including the store's operations against
scripted publication outcomes.
