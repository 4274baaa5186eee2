# index_config

Loading and checking the configuration of a BitTorrent index.

- `src/metadata.rs`: the application, purpose and schema version a configuration
  declares, their defaults, and which schema version is accepted.
- `src/info.rs`: where a configuration is read from (TOML text or a TOML file).
- `src/sources.rs`: the `figment` configuration sources, declared for Verus with
  the contracts the loader relies on.
- `src/loading.rs`: loading a configuration, with the mandatory-option and
  schema-version checks.
- `src/error.rs`, `src/tsl.rs`: the loading errors; TLS paths and `FREE_PORT`.
- `app/`: reading the process environment, and the serde / display / error-trait
  forms of the library's types.
