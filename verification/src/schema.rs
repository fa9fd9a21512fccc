//! The schema that Zallet adds to the wallet database.

use vstd::prelude::*;

verus! {

/// Identifier (a UUID, as its 128-bit value) of the migration that creates the
/// compatibility metadata table.
pub const COMPATIBILITY_METADATA_MIGRATION_ID: u128 = 0x0b371d41_93c0_4839_b087_b363fe94f028u128;

/// Description of the migration that creates the compatibility metadata table.
pub const COMPATIBILITY_METADATA_MIGRATION_DESCRIPTION: &'static str =
    "Initializes the Zallet database compatibility metadata table.";

/// The table that records the compatibility epochs a database has reached.
pub const TABLE_COMPATIBILITY_METADATA: &'static str =
    "CREATE TABLE ext_zallet_db_compatibility_metadata (
                compatibility_epoch INTEGER NOT NULL,
                migrated TEXT NOT NULL
            )";

} // verus!
