//! Whether an existing wallet database may be opened by this release.
//!
//! The database records, in `ext_zallet_db_compatibility_metadata`, the
//! compatibility epochs it has reached, and in `ext_zallet_db_version_metadata`
//! the Zallet versions that opened it.  The functions here decide on the rows
//! that were read; the caller performs the reads.

use vstd::prelude::*;
use crate::error::{InitError, incompatible_alpha_database_error};
use crate::network::NetworkType;
use crate::version::{ParsedVersion, semver_accepts, semver_at_least};

verus! {

/// The compatibility epoch of this release.  It is incremented whenever an
/// alpha release introduces a database change that older alphas must not open.
pub const CURRENT_ALPHA_DB_COMPATIBILITY_EPOCH: i64 = 1;

/// Databases without a recorded epoch are accepted only if the last Zallet
/// version recorded in them is at least this one, the release that introduced
/// the current compatibility epoch.
pub const MIN_LEGACY_COMPATIBLE_ZALLET_VERSION: &'static str = "0.1.0-alpha.4";

/// Reads [`MIN_LEGACY_COMPATIBLE_ZALLET_VERSION`]; `None` only if it were not a
/// SemVer version.
pub fn minimum_legacy_compatible_version() -> (minimum: Option<ParsedVersion>)
    ensures
        minimum is Some <==> semver_accepts(MIN_LEGACY_COMPATIBLE_ZALLET_VERSION@),
        minimum matches Some(v) ==> v@ == MIN_LEGACY_COMPATIBLE_ZALLET_VERSION@,
{
    ParsedVersion::parse(MIN_LEGACY_COMPATIBLE_ZALLET_VERSION)
}

// ---------------------------------------------------------------------------
// Network type

pub open spec fn network_verdict(stored: NetworkType, configured: NetworkType) -> Result<(), InitError> {
    if stored == configured {
        Ok(())
    } else {
        Err(InitError::NetworkMismatch { database: stored, configured })
    }
}

/// Checks the network type stored in the database against the configured one.
pub fn verify_wallet_network_type(stored: NetworkType, configured: NetworkType) -> (verdict: Result<(), InitError>)
    ensures
        verdict == network_verdict(stored, configured),
        verdict is Ok <==> stored == configured,
        stored != configured ==> verdict == Err::<(), InitError>(
            InitError::NetworkMismatch { database: stored, configured },
        ),
{
    if stored == configured {
        Ok(())
    } else {
        Err(InitError::NetworkMismatch { database: stored, configured })
    }
}

// ---------------------------------------------------------------------------
// Compatibility epoch and legacy version

pub open spec fn incompatible<T>() -> Result<T, InitError> {
    Err(InitError::IncompatibleAlphaDatabase)
}

/// The latest recorded epoch, from whether the epoch table exists and from the
/// latest row of that table.  Any failed read makes the database incompatible.
pub open spec fn latest_epoch_spec(
    table_exists: Result<bool, String>,
    latest_row: Result<Option<i64>, String>,
) -> Result<Option<i64>, InitError> {
    match table_exists {
        Err(_) => incompatible(),
        Ok(false) => Ok(None),
        Ok(true) => match latest_row {
            Err(_) => incompatible(),
            Ok(row) => Ok(row),
        },
    }
}

/// Determines the latest compatibility epoch recorded in the database.
///
/// `table_exists` is the outcome of looking the epoch table up;
/// `latest_row` that of reading its latest row, which only matters when the
/// table exists.
pub fn latest_compatibility_epoch(
    table_exists: Result<bool, String>,
    latest_row: Result<Option<i64>, String>,
) -> (epoch: Result<Option<i64>, InitError>)
    ensures
        epoch == latest_epoch_spec(table_exists, latest_row),
        table_exists == Ok::<bool, String>(false) ==> epoch == Ok::<Option<i64>, InitError>(None),
        table_exists == Ok::<bool, String>(true) && latest_row is Ok ==> epoch == Ok::<Option<i64>, InitError>(
            latest_row->Ok_0,
        ),
        table_exists is Err || (table_exists == Ok::<bool, String>(true) && latest_row is Err)
            ==> epoch == Err::<Option<i64>, InitError>(InitError::IncompatibleAlphaDatabase),
{
    match table_exists {
        Err(_) => Err(incompatible_alpha_database_error()),
        Ok(false) => Ok(None),
        Ok(true) => match latest_row {
            Err(_) => Err(incompatible_alpha_database_error()),
            Ok(row) => Ok(row),
        },
    }
}

/// The latest recorded Zallet version; a failed read or a missing row makes
/// the database incompatible.
pub open spec fn latest_version_spec(latest_row: Result<Option<String>, String>) -> Result<String, InitError> {
    match latest_row {
        Ok(Some(version)) => Ok(version),
        _ => incompatible(),
    }
}

/// Determines the latest Zallet version recorded in the database, from the
/// outcome of reading the latest row of the version table.
pub fn latest_recorded_zallet_version(latest_row: Result<Option<String>, String>) -> (version: Result<String, InitError>)
    ensures
        version == latest_version_spec(latest_row),
        version is Ok <==> (latest_row is Ok && latest_row->Ok_0 is Some),
        version is Ok ==> version->Ok_0 == latest_row->Ok_0->Some_0,
        version is Err ==> version == Err::<String, InitError>(InitError::IncompatibleAlphaDatabase),
{
    match latest_row {
        Ok(Some(version)) => Ok(version),
        _ => Err(incompatible_alpha_database_error()),
    }
}

/// A recorded epoch is accepted only if it is exactly the current one: lower
/// epochs belong to incompatible older alphas, higher ones to newer alphas
/// whose changes this release may not understand.
pub open spec fn epoch_verdict(epoch: i64) -> Result<(), InitError> {
    if epoch == CURRENT_ALPHA_DB_COMPATIBILITY_EPOCH {
        Ok(())
    } else {
        incompatible()
    }
}

/// A database without a recorded epoch is accepted only if its latest recorded
/// version is a SemVer version at least the minimum one.
pub open spec fn legacy_version_verdict_spec(latest: Seq<char>, minimum: Seq<char>) -> Result<(), InitError> {
    if semver_accepts(latest) && semver_at_least(latest, minimum) {
        Ok(())
    } else {
        incompatible()
    }
}

/// Decides on a recorded compatibility epoch.
pub fn recorded_epoch_verdict(epoch: i64) -> (verdict: Result<(), InitError>)
    ensures
        verdict == epoch_verdict(epoch),
        verdict is Ok <==> epoch == CURRENT_ALPHA_DB_COMPATIBILITY_EPOCH,
{
    if epoch == CURRENT_ALPHA_DB_COMPATIBILITY_EPOCH {
        Ok(())
    } else {
        Err(incompatible_alpha_database_error())
    }
}

/// Decides on a legacy version from what SemVer made of it: `None` when it is
/// not a SemVer version, otherwise whether it is at least the minimum one.
pub fn legacy_comparison_verdict(at_least_minimum: Option<bool>) -> (verdict: Result<(), InitError>)
    ensures
        verdict == (if at_least_minimum == Some(true) { Ok(()) } else { incompatible::<()>() }),
{
    match at_least_minimum {
        Some(true) => Ok(()),
        _ => Err(incompatible_alpha_database_error()),
    }
}

/// Decides on the latest recorded Zallet version of a database that records no
/// compatibility epoch.
///
/// Acceptance is monotone: a SemVer version at least as high as an accepted
/// one is accepted too.
pub fn legacy_version_verdict(latest: &str, minimum: &ParsedVersion) -> (verdict: Result<(), InitError>)
    ensures
        verdict == legacy_version_verdict_spec(latest@, minimum@),
        verdict is Ok <==> semver_accepts(latest@) && semver_at_least(latest@, minimum@),
        verdict is Err ==> verdict == Err::<(), InitError>(InitError::IncompatibleAlphaDatabase),
        forall|lower: Seq<char>|
            #![trigger semver_at_least(latest@, lower), legacy_version_verdict_spec(lower, minimum@)]
            semver_accepts(latest@) && semver_at_least(latest@, lower)
                && legacy_version_verdict_spec(lower, minimum@) is Ok ==> verdict is Ok,
{
    let at_least_minimum = match ParsedVersion::parse(latest) {
        None => None,
        Some(version) => Some(version.at_least(minimum)),
    };
    legacy_comparison_verdict(at_least_minimum)
}

/// The verdict on the alpha compatibility of an existing database.
pub open spec fn alpha_compatibility_spec(
    table_exists: Result<bool, String>,
    latest_epoch_row: Result<Option<i64>, String>,
    latest_version_row: Result<Option<String>, String>,
    minimum: Seq<char>,
) -> Result<(), InitError> {
    match latest_epoch_spec(table_exists, latest_epoch_row) {
        Err(e) => Err(e),
        Ok(Some(epoch)) => epoch_verdict(epoch),
        Ok(None) => match latest_version_spec(latest_version_row) {
            Err(e) => Err(e),
            Ok(version) => legacy_version_verdict_spec(version@, minimum),
        },
    }
}

/// What alpha compatibility demands of a decision on the given reads.
///
/// If looking up the epoch table, or reading its latest row, failed, the
/// database is turned away.  If the table holds an epoch, only the current
/// epoch lets the database in.  If there is no table or it is empty, the
/// database gets in exactly when its latest Zallet version could be read and
/// SemVer finds it at least the minimum.
pub open spec fn alpha_rules_hold(
    table_exists: Result<bool, String>,
    latest_epoch_row: Result<Option<i64>, String>,
    latest_version_row: Result<Option<String>, String>,
    minimum: Seq<char>,
    verdict: Result<(), InitError>,
) -> bool {
    &&& (table_exists is Err || (table_exists == Ok::<bool, String>(true) && latest_epoch_row is Err))
        ==> verdict is Err
    &&& (table_exists == Ok::<bool, String>(true) && latest_epoch_row matches Ok(Some(epoch)))
        ==> (verdict is Ok <==> latest_epoch_row == Ok::<Option<i64>, String>(
            Some(CURRENT_ALPHA_DB_COMPATIBILITY_EPOCH),
        ))
    &&& (table_exists == Ok::<bool, String>(false) || (table_exists == Ok::<bool, String>(true)
        && latest_epoch_row == Ok::<Option<i64>, String>(None))) ==> (verdict is Ok <==> (
        latest_version_row is Ok && latest_version_row->Ok_0 is Some
            && semver_accepts(latest_version_row->Ok_0->Some_0@)
            && semver_at_least(latest_version_row->Ok_0->Some_0@, minimum)))
}

/// The one-shot verdict on alpha compatibility keeps the rules: it rejects on
/// a failed read of the epoch table, accepts a recorded epoch exactly when it
/// is the current one, and otherwise accepts exactly a readable SemVer legacy
/// version at least the minimum.  Every rejection is the incompatibility error.
pub proof fn lemma_alpha_compatibility_rules(
    table_exists: Result<bool, String>,
    latest_epoch_row: Result<Option<i64>, String>,
    latest_version_row: Result<Option<String>, String>,
    minimum: Seq<char>,
)
    ensures
        alpha_rules_hold(
            table_exists,
            latest_epoch_row,
            latest_version_row,
            minimum,
            alpha_compatibility_spec(table_exists, latest_epoch_row, latest_version_row, minimum),
        ),
        alpha_compatibility_spec(table_exists, latest_epoch_row, latest_version_row, minimum) is Err
            ==> alpha_compatibility_spec(table_exists, latest_epoch_row, latest_version_row, minimum)
            == Err::<(), InitError>(InitError::IncompatibleAlphaDatabase),
{
}

/// The network check accepts exactly a database of the configured network,
/// and reports any other as a mismatch naming both networks.
pub proof fn lemma_network_rules(stored: NetworkType, configured: NetworkType)
    ensures
        network_verdict(stored, configured) is Ok <==> stored == configured,
        stored != configured ==> network_verdict(stored, configured) == Err::<(), InitError>(
            InitError::NetworkMismatch { database: stored, configured },
        ),
{
}

/// Vetting an existing database checks the network first: a failed read is a
/// storage error, another network is a mismatch whatever the rest says, and a
/// database of the configured network is judged by the alpha rules alone.
pub proof fn lemma_existing_database_rules(
    stored_network: Result<NetworkType, String>,
    configured: NetworkType,
    table_exists: Result<bool, String>,
    latest_epoch_row: Result<Option<i64>, String>,
    latest_version_row: Result<Option<String>, String>,
    minimum: Seq<char>,
)
    ensures
        ({
            let verdict = existing_database_spec(
                stored_network,
                configured,
                table_exists,
                latest_epoch_row,
                latest_version_row,
                minimum,
            );
            &&& stored_network is Err ==> verdict == Err::<(), InitError>(InitError::Storage(stored_network->Err_0))
            &&& (stored_network is Ok && stored_network->Ok_0 != configured) ==> verdict == Err::<(), InitError>(
                InitError::NetworkMismatch { database: stored_network->Ok_0, configured },
            )
            &&& stored_network == Ok::<NetworkType, String>(configured) ==> alpha_rules_hold(
                table_exists,
                latest_epoch_row,
                latest_version_row,
                minimum,
                verdict,
            )
        }),
{
}

/// Checks that an existing database was written by a compatible release.
///
/// A recorded epoch decides on its own; only without one is the latest
/// recorded Zallet version consulted.  Every way of failing yields
/// [`InitError::IncompatibleAlphaDatabase`].
pub fn verify_alpha_db_compatibility(
    table_exists: Result<bool, String>,
    latest_epoch_row: Result<Option<i64>, String>,
    latest_version_row: Result<Option<String>, String>,
    minimum: &ParsedVersion,
) -> (verdict: Result<(), InitError>)
    ensures
        verdict == alpha_compatibility_spec(table_exists, latest_epoch_row, latest_version_row, minimum@),
        verdict is Err ==> verdict == Err::<(), InitError>(InitError::IncompatibleAlphaDatabase),
        alpha_rules_hold(table_exists, latest_epoch_row, latest_version_row, minimum@, verdict),
{
    match latest_compatibility_epoch(table_exists, latest_epoch_row) {
        Err(e) => Err(e),
        Ok(Some(epoch)) => recorded_epoch_verdict(epoch),
        Ok(None) => match latest_recorded_zallet_version(latest_version_row) {
            Err(e) => Err(e),
            Ok(version) => legacy_version_verdict(version.as_str(), minimum),
        },
    }
}

/// The verdict on an existing database: the network type is checked first, so
/// a database of another network is reported as such whatever its version.
pub open spec fn existing_database_spec(
    stored_network: Result<NetworkType, String>,
    configured: NetworkType,
    table_exists: Result<bool, String>,
    latest_epoch_row: Result<Option<i64>, String>,
    latest_version_row: Result<Option<String>, String>,
    minimum: Seq<char>,
) -> Result<(), InitError> {
    match stored_network {
        Err(detail) => Err(InitError::Storage(detail)),
        Ok(stored) => match network_verdict(stored, configured) {
            Err(e) => Err(e),
            Ok(_) => alpha_compatibility_spec(table_exists, latest_epoch_row, latest_version_row, minimum),
        },
    }
}

/// Verifies that an existing database matches the configured network type and
/// a compatible alpha epoch, before anything is changed in it.
pub fn verify_existing_database(
    stored_network: Result<NetworkType, String>,
    configured: NetworkType,
    table_exists: Result<bool, String>,
    latest_epoch_row: Result<Option<i64>, String>,
    latest_version_row: Result<Option<String>, String>,
    minimum: &ParsedVersion,
) -> (verdict: Result<(), InitError>)
    ensures
        verdict == existing_database_spec(
            stored_network,
            configured,
            table_exists,
            latest_epoch_row,
            latest_version_row,
            minimum@,
        ),
        stored_network matches Ok(stored) ==> (stored != configured ==> verdict == Err::<(), InitError>(
            InitError::NetworkMismatch { database: stored, configured },
        )),
        stored_network is Err ==> verdict == Err::<(), InitError>(InitError::Storage(stored_network->Err_0)),
        stored_network == Ok::<NetworkType, String>(configured) ==> alpha_rules_hold(
            table_exists,
            latest_epoch_row,
            latest_version_row,
            minimum@,
            verdict,
        ),
{
    match stored_network {
        Err(detail) => Err(InitError::Storage(detail)),
        Ok(stored) => match verify_wallet_network_type(stored, configured) {
            Err(e) => Err(e),
            Ok(()) => verify_alpha_db_compatibility(table_exists, latest_epoch_row, latest_version_row, minimum),
        },
    }
}

} // verus!
