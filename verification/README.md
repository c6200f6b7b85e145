# cache_server

A byte cache served over HTTP (actix-web) and gRPC (tonic).

- `src/` is the verified library: the configuration and how it is loaded
  (`configuration`, `settings`, and `keys`, which keeps out the keys the
  `config` crate cannot store), the HTTP replies (`replies`), the gRPC
  service's lookups, streaming and routing (`rpc`), access control
  (`auth`), header text and decimal numbers (`text`), and the log level
  (`logging`).
- `app/` is the program around it: the servers, the session checks over
  gRPC, reading `Config.toml` and the environment, and the cache store.
- `tests/` runs the library on concrete values.
