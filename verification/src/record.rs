//! What is recorded in a database once its schema is up to date.

use vstd::prelude::*;
use crate::compat::{CURRENT_ALPHA_DB_COMPATIBILITY_EPOCH, alpha_compatibility_spec};
use crate::error::InitError;

verus! {

// ---------------------------------------------------------------------------
// Schema migrations

/// How running the schema migrations ended.
#[derive(Clone, Debug, PartialEq, Eq)]
pub enum MigrationOutcome {
    /// Every migration was applied.
    Completed,
    /// A migration needs the wallet seed.
    SeedRequired,
    /// Migrating failed otherwise; carries the migrator's description.
    Failed(String),
}

pub open spec fn migration_result_spec(outcome: MigrationOutcome) -> Result<(), InitError> {
    match outcome {
        MigrationOutcome::Completed => Ok(()),
        MigrationOutcome::SeedRequired => Err(InitError::SeedRequiredMigration),
        MigrationOutcome::Failed(detail) => Err(InitError::Migration(detail)),
    }
}

/// Reports the outcome of the schema migrations.
pub fn migration_result(outcome: MigrationOutcome) -> (result: Result<(), InitError>)
    ensures
        result == migration_result_spec(outcome),
        result is Ok <==> outcome is Completed,
        outcome is SeedRequired ==> result == Err::<(), InitError>(InitError::SeedRequiredMigration),
        outcome is Failed ==> result == Err::<(), InitError>(InitError::Migration(outcome->Failed_0)),
{
    match outcome {
        MigrationOutcome::Completed => Ok(()),
        MigrationOutcome::SeedRequired => Err(InitError::SeedRequiredMigration),
        MigrationOutcome::Failed(detail) => Err(InitError::Migration(detail)),
    }
}

// ---------------------------------------------------------------------------
// Compatibility epoch

/// A database must be marked with the current epoch unless it already records
/// that epoch or a later one.
pub open spec fn needs_epoch_record(latest: Option<i64>) -> bool {
    match latest {
        None => true,
        Some(epoch) => epoch < CURRENT_ALPHA_DB_COMPATIBILITY_EPOCH,
    }
}

pub open spec fn epoch_to_record_spec(latest_row: Result<Option<i64>, String>) -> Result<Option<i64>, InitError> {
    match latest_row {
        Err(detail) => Err(InitError::Storage(detail)),
        Ok(latest) => if needs_epoch_record(latest) {
            Ok(Some(CURRENT_ALPHA_DB_COMPATIBILITY_EPOCH))
        } else {
            Ok(None)
        },
    }
}

/// Decides, from the outcome of reading the latest recorded compatibility
/// epoch, which epoch row to insert: `Ok(Some(epoch))` when the current epoch
/// must be recorded, `Ok(None)` when nothing is to be written.
pub fn record_current_compatibility_epoch(latest_row: Result<Option<i64>, String>) -> (to_record: Result<Option<i64>, InitError>)
    ensures
        to_record == epoch_to_record_spec(latest_row),
        latest_row is Err ==> to_record == Err::<Option<i64>, InitError>(InitError::Storage(latest_row->Err_0)),
        latest_row is Ok ==> to_record is Ok,
        to_record matches Ok(Some(epoch)) ==> epoch == CURRENT_ALPHA_DB_COMPATIBILITY_EPOCH,
        latest_row is Ok ==> (to_record->Ok_0 is Some <==> (latest_row->Ok_0 is None
            || latest_row->Ok_0->Some_0 < CURRENT_ALPHA_DB_COMPATIBILITY_EPOCH)),
{
    match latest_row {
        Err(detail) => Err(InitError::Storage(detail)),
        Ok(latest) => {
            let needed = match latest {
                None => true,
                Some(epoch) => epoch < CURRENT_ALPHA_DB_COMPATIBILITY_EPOCH,
            };
            if needed {
                Ok(Some(CURRENT_ALPHA_DB_COMPATIBILITY_EPOCH))
            } else {
                Ok(None)
            }
        },
    }
}

/// The latest recorded epoch once recording is done.
pub open spec fn epoch_after_record(latest: Option<i64>) -> Option<i64> {
    if needs_epoch_record(latest) {
        Some(CURRENT_ALPHA_DB_COMPATIBILITY_EPOCH)
    } else {
        latest
    }
}

/// A database that records no epoch, or one no later than the current one
/// (every database this release accepts or creates), records exactly the
/// current epoch once it is marked; marking it again writes nothing; and a
/// later check of its alpha compatibility accepts it, whatever Zallet version
/// it records.
pub proof fn lemma_marked_database_is_current(
    latest: Option<i64>,
    latest_version_row: Result<Option<String>, String>,
    minimum: Seq<char>,
)
    requires
        latest matches Some(epoch) ==> epoch <= CURRENT_ALPHA_DB_COMPATIBILITY_EPOCH,
    ensures
        epoch_after_record(latest) == Some(CURRENT_ALPHA_DB_COMPATIBILITY_EPOCH),
        epoch_to_record_spec(Ok(epoch_after_record(latest))) == Ok::<Option<i64>, InitError>(None),
        alpha_compatibility_spec(Ok(true), Ok(epoch_after_record(latest)), latest_version_row, minimum)
            == Ok::<(), InitError>(()),
{
}

// ---------------------------------------------------------------------------
// Zallet version

/// A row of the version table: the Zallet version that opened the database,
/// with the git revision it was built from and whether that tree was clean,
/// where known.
#[derive(Clone, Debug, PartialEq, Eq)]
pub struct VersionRecord {
    pub version: String,
    pub git_revision: Option<String>,
    pub clean: Option<bool>,
}

impl VersionRecord {
    /// A copy of the row.
    pub fn duplicate(&self) -> (copy: VersionRecord)
        ensures
            copy == *self,
    {
        let git_revision = match &self.git_revision {
            Some(revision) => Some(revision.clone()),
            None => None,
        };
        VersionRecord { version: self.version.clone(), git_revision, clean: self.clean }
    }
}

pub open spec fn optional_text(text: Option<String>) -> Option<Seq<char>> {
    match text {
        Some(t) => Some(t@),
        None => None,
    }
}

/// Two rows describe the same build.
pub open spec fn same_build(row: VersionRecord, current: VersionRecord) -> bool {
    &&& row.version@ == current.version@
    &&& optional_text(row.git_revision) == optional_text(current.git_revision)
    &&& row.clean == current.clean
}

/// The row that describes the running build: the git revision and cleanliness
/// are known only when the build carries a commit hash.
pub open spec fn current_record_spec(record: VersionRecord, pkg_version: Seq<char>, commit_hash: Seq<char>, git_clean: bool) -> bool {
    &&& record.version@ == pkg_version
    &&& if commit_hash.len() == 0 {
        record.git_revision is None && record.clean is None
    } else {
        optional_text(record.git_revision) == Some(commit_hash) && record.clean == Some(git_clean)
    }
}

/// Builds the version row for the running build.
pub fn current_version_record(pkg_version: &str, commit_hash: &str, git_clean: bool) -> (record: VersionRecord)
    ensures
        current_record_spec(record, pkg_version@, commit_hash@, git_clean),
        record.version@ == pkg_version@,
        commit_hash@.len() == 0 ==> record.git_revision is None && record.clean is None,
        commit_hash@.len() != 0 ==> record.git_revision is Some && record.git_revision->Some_0@ == commit_hash@
            && record.clean == Some(git_clean),
{
    let version = pkg_version.to_owned();
    if commit_hash.is_empty() {
        VersionRecord { version, git_revision: None, clean: None }
    } else {
        VersionRecord { version, git_revision: Some(commit_hash.to_owned()), clean: Some(git_clean) }
    }
}

pub open spec fn record_is_current_spec(latest: Option<VersionRecord>, current: VersionRecord) -> bool {
    match latest {
        Some(row) => same_build(row, current),
        None => false,
    }
}

/// Whether the latest version row already describes the running build; if not,
/// a row for it is to be inserted.
pub fn version_record_is_current(latest: &Option<VersionRecord>, current: &VersionRecord) -> (is_current: bool)
    ensures
        is_current == record_is_current_spec(*latest, *current),
        is_current <==> (latest is Some && latest->Some_0.version@ == current.version@
            && latest->Some_0.clean == current.clean
            && ((latest->Some_0.git_revision is None && current.git_revision is None)
                || (latest->Some_0.git_revision is Some && current.git_revision is Some
                    && latest->Some_0.git_revision->Some_0@ == current.git_revision->Some_0@))),
{
    match latest {
        None => false,
        Some(row) => {
            let same_revision = match (&row.git_revision, &current.git_revision) {
                (Some(a), Some(b)) => *a == *b,
                (None, None) => true,
                _ => false,
            };
            let same_clean = match (row.clean, current.clean) {
                (Some(a), Some(b)) => a == b,
                (None, None) => true,
                _ => false,
            };
            row.version == current.version && same_revision && same_clean
        },
    }
}

/// The latest version row describes the running build exactly when it has the
/// same version text, the same clean flag, and either no git revision on both
/// sides or the same revision text; in particular another commit, another
/// version or another clean flag is not the running build.
pub proof fn lemma_record_is_current_rules(latest: Option<VersionRecord>, current: VersionRecord)
    ensures
        record_is_current_spec(latest, current) <==> (latest is Some && latest->Some_0.version@ == current.version@
            && latest->Some_0.clean == current.clean
            && ((latest->Some_0.git_revision is None && current.git_revision is None)
                || (latest->Some_0.git_revision is Some && current.git_revision is Some
                    && latest->Some_0.git_revision->Some_0@ == current.git_revision->Some_0@))),
{
}

/// The epoch to record is the current one, and it is recorded exactly when
/// the latest recorded epoch is missing or older; a failed read is a storage
/// error.
pub proof fn lemma_epoch_to_record_rules(latest_row: Result<Option<i64>, String>)
    ensures
        latest_row is Err ==> epoch_to_record_spec(latest_row) == Err::<Option<i64>, InitError>(
            InitError::Storage(latest_row->Err_0),
        ),
        latest_row is Ok ==> epoch_to_record_spec(latest_row) is Ok,
        epoch_to_record_spec(latest_row) matches Ok(Some(epoch)) ==> epoch == CURRENT_ALPHA_DB_COMPATIBILITY_EPOCH,
        latest_row is Ok ==> (epoch_to_record_spec(latest_row)->Ok_0 is Some <==> (latest_row->Ok_0 is None
            || latest_row->Ok_0->Some_0 < CURRENT_ALPHA_DB_COMPATIBILITY_EPOCH)),
        needs_epoch_record(None),
        forall|epoch: i64| #[trigger] needs_epoch_record(Some(epoch)) <==> epoch < CURRENT_ALPHA_DB_COMPATIBILITY_EPOCH,
{
}

/// Once the row of the running build is inserted, it is the latest row, and a
/// later open of the same build inserts no further row; a row of any other
/// build leads to a new row.
pub proof fn lemma_version_record_once(current: VersionRecord, other: VersionRecord)
    ensures
        record_is_current_spec(Some(current), current),
        !same_build(other, current) ==> !record_is_current_spec(Some(other), current),
        !record_is_current_spec(None, current),
{
}

} // verus!
