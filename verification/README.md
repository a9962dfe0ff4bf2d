# Republisher

The republisher reads points from industrial protocols (BACnet/IP, Modbus TCP, OPC UA) and publishes
them over MQTT. This crate holds the decisions of its web daemon as a library that Verus verifies:
every function states in its contract what it returns and what it changes, and the laws that hold
across functions are proof functions beside them.

## Layout

- `src/web/envcfg.rs`: the environment over the stored configuration.
- `src/web/auth.rs`: the credential, the sessions, and the throttle on failed logins.
- `src/web/state.rs`: the daemon's state, and what each worker event does to it.
- `src/web/api.rs`: what each request does and is answered.
- `src/web/dto.rs`, `src/json.rs`: the documents that the browser gets.
- `src/web/mod.rs`, `src/web/assets.rs`: start and stop, routes, and which requests are let through.
- `src/cli.rs`, `src/sample.rs`: the command line, the health probe, and a sample configuration.
- `src/model.rs`, `src/config.rs`, `src/error.rs`, `src/table.rs`, `src/text.rs`: what these are
  built from.
- `tests/`: tests of the library.
- `app/`: the programs around it: HTTP, files, workers, and the protocol core.

## What is not proved

The calls into argon2, subtle, rand and serde_json, and three functions of the standard library, are
taken at the contracts that stand at their wrappers in `src/web/auth.rs`, `src/web/envcfg.rs` and
`src/text.rs`. What the protocol core derives from a point, a sample or a configuration comes in as a
plain value.
