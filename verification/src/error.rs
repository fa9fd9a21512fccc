//! Errors reported while opening the wallet database.

use vstd::prelude::*;
use vstd::string::StringExecFns;
use crate::network::{NetworkType, network_type_name_spec, type_to_str};

verus! {

/// Why the wallet database could not be opened.
#[derive(Clone, Debug, PartialEq, Eq)]
pub enum InitError {
    /// Reading or writing the database failed; carries the storage layer's
    /// description of the failure.
    Storage(String),
    /// The database was created for another network than the configured one.
    NetworkMismatch { database: NetworkType, configured: NetworkType },
    /// The database was written by an alpha release whose format this release
    /// cannot open.
    IncompatibleAlphaDatabase,
    /// A schema migration needs the wallet seed, which is not supported here.
    SeedRequiredMigration,
    /// A schema migration failed; carries the migrator's description.
    Migration(String),
}

/// The error that rejects a database written by an incompatible alpha release.
pub fn incompatible_alpha_database_error() -> (err: InitError)
    ensures
        err == InitError::IncompatibleAlphaDatabase,
{
    InitError::IncompatibleAlphaDatabase
}

pub open spec fn message_spec(err: InitError) -> Seq<char> {
    match err {
        InitError::Storage(detail) => "Failed to initialize the wallet database: "@ + detail@,
        InitError::NetworkMismatch { database, configured } =>
            "The wallet database was created for network type "@ + network_type_name_spec(database)
                + ", but the config is using "@ + network_type_name_spec(configured) + "."@,
        InitError::IncompatibleAlphaDatabase =>
            "This wallet database was created or modified by an incompatible Zallet alpha release. Back it up and start with a fresh Zallet wallet."@,
        InitError::SeedRequiredMigration => "TODO: Support seed-required migrations"@,
        InitError::Migration(detail) => "Failed to migrate the wallet database: "@ + detail@,
    }
}

impl InitError {
    /// A copy of the error.
    pub fn duplicate(&self) -> (copy: InitError)
        ensures
            copy == *self,
    {
        match self {
            InitError::Storage(detail) => InitError::Storage(detail.clone()),
            InitError::NetworkMismatch { database, configured } => InitError::NetworkMismatch {
                database: *database,
                configured: *configured,
            },
            InitError::IncompatibleAlphaDatabase => InitError::IncompatibleAlphaDatabase,
            InitError::SeedRequiredMigration => InitError::SeedRequiredMigration,
            InitError::Migration(detail) => InitError::Migration(detail.clone()),
        }
    }

    /// The human-readable description of the error.
    pub fn message(&self) -> (text: String)
        ensures
            text@ == message_spec(*self),
    {
        match self {
            InitError::Storage(detail) => {
                let mut text = String::from_str("Failed to initialize the wallet database: ");
                text.append(detail.as_str());
                text
            },
            InitError::NetworkMismatch { database, configured } => {
                let mut text = String::from_str("The wallet database was created for network type ");
                text.append(type_to_str(database));
                text.append(", but the config is using ");
                text.append(type_to_str(configured));
                text.append(".");
                text
            },
            InitError::IncompatibleAlphaDatabase => String::from_str(
                "This wallet database was created or modified by an incompatible Zallet alpha release. Back it up and start with a fresh Zallet wallet.",
            ),
            InitError::SeedRequiredMigration => String::from_str("TODO: Support seed-required migrations"),
            InitError::Migration(detail) => {
                let mut text = String::from_str("Failed to migrate the wallet database: ");
                text.append(detail.as_str());
                text
            },
        }
    }
}

} // verus!
