# diem_core

Verified building blocks of Diem Core, written in Verus.

- `src/` is the verified library:
  - `shuffle` — the Shuffle CLI's home directory layout, its networks
    configuration (a map from names to networks), the developer API URL of a
    network, and the upward search for a project's `Shuffle.toml`;
  - `storage_service` — the storage service's request handler: which storage
    read answers which request, and what the client receives for each outcome;
  - `data_client` — the data client's errors and summaries;
  - `vm_status` and `json_rpc` — how transaction statuses are shown, and the
    check of a call's parameter count;
  - `trusted_peers` — peers keyed by address, and the validator set and
    verifier in canonical address order;
  - `health_checker`, `reconfiguration`, `swarm_config`, `state_store`,
    `generate_format` — a builder's lifecycle, the reconfiguration
    experiment's plan, a swarm's file layout, ledger counter bumps;
  - `keyed`, `paths`, `text` — keyed lists and their maps, paths as text, and
    decimal and hex rendering.
- `app/` reads and writes the files, and converts Diem's own status type.
- `tests/` runs the library on concrete values.
