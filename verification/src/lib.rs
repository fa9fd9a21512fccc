//! Opening and vetting the Zallet wallet database.
//!
//! The library holds the decisions that are made when a wallet database is
//! opened: whether an existing database belongs to the configured network,
//! whether it was written by a compatible alpha release, how the outcome of the
//! schema migrations is reported, and which metadata rows are recorded
//! afterwards.  The reads and writes themselves are performed by the caller,
//! which drives [`open::DatabaseOpener`] step by step.

pub mod network;
pub mod error;
pub mod version;
pub mod compat;
pub mod record;
pub mod open;
pub mod schema;
