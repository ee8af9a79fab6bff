# bridge_custody

Custody logic of an MPC node of a Zcash–Solana bridge, verified with Verus.

## Layout

- `src/` — the verified library.
  - `orchard_frost.rs`: Orchard key shards (ask, nsk, shared rivk) derived from a
    FROST share and group key; FVK contributions and their aggregation.
  - `ua_builder.rs`, `tx_builder.rs`: unified addresses and full viewing keys of the
    bridge (ZIP 316), through `orchard` and `zcash_address`.
  - `dkg_coordinator.rs`: node lists, ordering of contributions, and the result of a
    DKG ceremony.
  - `solana_client.rs`: program-derived addresses, instruction layouts and account
    layouts of the bridge program.
  - `attestation_service.rs`, `withdrawal_service.rs`: records, state changes and
    statistics of the two services.
  - `network.rs`, `network_http.rs`: the node network's mailboxes, message framing,
    URLs and retry decisions.
  - `types.rs`, `api.rs`, `enclave_client.rs`, `lightwalletd.rs`, `mpc_node.rs`,
    `solana_listener.rs`: configuration and message types, and what the HTTP
    handlers compute.
  - `bytes.rs`, `hexcodec.rs`, `decimal.rs`, `text.rs`, `crypto.rs`, `timing.rs`:
    byte, text and hash helpers; the calls into outside crates carry their contracts
    here.
- `tests/` — tests of the library.
- `app/` — the node program: configuration file, HTTP clients and servers, the
  service loops, and the FROST ceremonies.
