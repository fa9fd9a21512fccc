# zallet_database

The decisions Zallet makes when it opens its wallet database, verified with Verus.

- `src/network.rs`: network types and their names.
- `src/error.rs`: why opening fails, and the messages.
- `src/version.rs`: release versions, read and ordered by the `semver` crate.
- `src/compat.rs`: vetting an existing database (network type, compatibility epoch,
  legacy version).
- `src/record.rs`: migration outcomes, and the epoch and version rows recorded after
  migrating.
- `src/open.rs`: `DatabaseOpener`, which asks for each read or write in turn and
  decides on what came of it; with the laws that relate it to the one-shot verdicts.
- `src/schema.rs`: the schema Zallet adds.

`app/` runs the opener against SQLite (`rusqlite`), the `zcash_client_sqlite`
migrator and the system clock.
