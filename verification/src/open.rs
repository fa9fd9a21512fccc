//! The steps of opening the wallet database.
//!
//! Opening alternates reads and writes of the database with decisions.  A
//! [`DatabaseOpener`] makes the decisions: it names the next thing to do as an
//! [`OpenAction`], and the caller performs it and reports what came of it as an
//! [`OpenEvent`].  An existing database is vetted (network type first, then
//! alpha compatibility) before the schema migrations run, so that a rejected
//! database is left untouched.

use vstd::prelude::*;
use crate::compat::{
    CURRENT_ALPHA_DB_COMPATIBILITY_EPOCH, MIN_LEGACY_COMPATIBLE_ZALLET_VERSION,
    minimum_legacy_compatible_version, epoch_verdict, existing_database_spec,
    latest_version_spec, latest_recorded_zallet_version, legacy_version_verdict,
    legacy_version_verdict_spec, network_verdict, recorded_epoch_verdict, verify_wallet_network_type,
};
use crate::error::{InitError, incompatible_alpha_database_error};
use crate::network::NetworkType;
use crate::record::{
    MigrationOutcome, VersionRecord, migration_result, migration_result_spec, needs_epoch_record,
    record_current_compatibility_epoch, record_is_current_spec, version_record_is_current,
};
use crate::record::same_build;
use crate::version::{ParsedVersion, semver_accepts, semver_at_least};

verus! {

/// Where opening the database stands.
#[derive(Clone, Debug, PartialEq, Eq)]
pub enum OpenPhase {
    /// Waiting to learn whether the database file exists.
    CheckingExistence,
    /// Existing database: waiting for the network type it records.
    ReadingNetworkType,
    /// Existing database: waiting to learn whether it has the epoch table.
    CheckingCompatibilityTable,
    /// Existing database: waiting for the latest recorded epoch.
    ReadingCompatibilityEpoch,
    /// Existing database without an epoch: waiting for the latest recorded
    /// Zallet version.
    ReadingLegacyVersion,
    /// Waiting for the schema migrations to run.
    Migrating,
    /// Waiting for the latest recorded epoch, after migrating.
    ReadingRecordedEpoch,
    /// Waiting for the current epoch to be recorded.
    RecordingEpoch,
    /// Waiting for the latest version row.
    ReadingVersionRecord,
    /// Waiting for the row of the running build to be recorded.
    RecordingVersion,
    /// The database is open.
    Opened,
    /// Opening failed.
    Failed(InitError),
}

/// What came of the last action.
#[derive(Debug, PartialEq, Eq)]
pub enum OpenEvent {
    /// Whether the database file exists.
    Existence(Result<bool, String>),
    /// The network type the database records.
    NetworkType(Result<NetworkType, String>),
    /// Whether the epoch table exists.
    CompatibilityTable(Result<bool, String>),
    /// The latest row of the epoch table, if any.
    CompatibilityEpoch(Result<Option<i64>, String>),
    /// The version of the latest row of the version table, if any.
    LegacyVersion(Result<Option<String>, String>),
    /// How the schema migrations ended.
    Migrations(MigrationOutcome),
    /// The latest row of the epoch table, if any, after migrating.
    RecordedEpoch(Result<Option<i64>, String>),
    /// Whether the epoch row was inserted.
    EpochRecorded(Result<(), String>),
    /// The latest row of the version table, if any.
    VersionRecord(Result<Option<VersionRecord>, String>),
    /// Whether the version row was inserted.
    VersionRecorded(Result<(), String>),
}

/// What the caller is to do next.
#[derive(Debug, PartialEq, Eq)]
pub enum OpenAction {
    CheckExistence,
    ReadNetworkType,
    CheckCompatibilityTable,
    ReadCompatibilityEpoch,
    ReadLegacyVersion,
    RunMigrations,
    ReadRecordedEpoch,
    /// Insert a row with this epoch into the epoch table.
    RecordEpoch(i64),
    ReadVersionRecord,
    /// Insert this row into the version table.
    RecordVersion(VersionRecord),
    /// Opening is over, with this result.
    Finish(Result<(), InitError>),
}

/// What the decisions depend on besides the events.
pub struct OpenConfig {
    /// The configured network type.
    pub network: NetworkType,
    /// The oldest Zallet version whose databases are accepted without a
    /// recorded epoch.
    pub minimum: ParsedVersion,
    /// The version row of the running build.
    pub current: VersionRecord,
}

/// The plain values of an [`OpenConfig`].
pub struct OpenConfigView {
    pub network: NetworkType,
    pub minimum: Seq<char>,
    pub current: VersionRecord,
}

impl View for OpenConfig {
    type V = OpenConfigView;

    open spec fn view(&self) -> OpenConfigView {
        OpenConfigView { network: self.network, minimum: self.minimum@, current: self.current }
    }
}

/// The action a phase waits on.
pub open spec fn awaited_action(phase: OpenPhase, config: OpenConfigView) -> OpenAction {
    match phase {
        OpenPhase::CheckingExistence => OpenAction::CheckExistence,
        OpenPhase::ReadingNetworkType => OpenAction::ReadNetworkType,
        OpenPhase::CheckingCompatibilityTable => OpenAction::CheckCompatibilityTable,
        OpenPhase::ReadingCompatibilityEpoch => OpenAction::ReadCompatibilityEpoch,
        OpenPhase::ReadingLegacyVersion => OpenAction::ReadLegacyVersion,
        OpenPhase::Migrating => OpenAction::RunMigrations,
        OpenPhase::ReadingRecordedEpoch => OpenAction::ReadRecordedEpoch,
        OpenPhase::RecordingEpoch => OpenAction::RecordEpoch(CURRENT_ALPHA_DB_COMPATIBILITY_EPOCH),
        OpenPhase::ReadingVersionRecord => OpenAction::ReadVersionRecord,
        OpenPhase::RecordingVersion => OpenAction::RecordVersion(config.current),
        OpenPhase::Opened => OpenAction::Finish(Ok(())),
        OpenPhase::Failed(e) => OpenAction::Finish(Err(e)),
    }
}

/// The phase that follows `phase` on `event`.  An event that the phase does not
/// wait on changes nothing; in particular a finished open stays finished.
pub open spec fn next_phase(phase: OpenPhase, event: OpenEvent, config: OpenConfigView) -> OpenPhase {
    match (phase, event) {
        (OpenPhase::CheckingExistence, OpenEvent::Existence(found)) => match found {
            Err(detail) => OpenPhase::Failed(InitError::Storage(detail)),
            Ok(true) => OpenPhase::ReadingNetworkType,
            Ok(false) => OpenPhase::Migrating,
        },
        (OpenPhase::ReadingNetworkType, OpenEvent::NetworkType(stored)) => match stored {
            Err(detail) => OpenPhase::Failed(InitError::Storage(detail)),
            Ok(stored) => match network_verdict(stored, config.network) {
                Err(e) => OpenPhase::Failed(e),
                Ok(_) => OpenPhase::CheckingCompatibilityTable,
            },
        },
        (OpenPhase::CheckingCompatibilityTable, OpenEvent::CompatibilityTable(exists)) => match exists {
            Err(_) => OpenPhase::Failed(InitError::IncompatibleAlphaDatabase),
            Ok(true) => OpenPhase::ReadingCompatibilityEpoch,
            Ok(false) => OpenPhase::ReadingLegacyVersion,
        },
        (OpenPhase::ReadingCompatibilityEpoch, OpenEvent::CompatibilityEpoch(row)) => match row {
            Err(_) => OpenPhase::Failed(InitError::IncompatibleAlphaDatabase),
            Ok(None) => OpenPhase::ReadingLegacyVersion,
            Ok(Some(epoch)) => match epoch_verdict(epoch) {
                Err(e) => OpenPhase::Failed(e),
                Ok(_) => OpenPhase::Migrating,
            },
        },
        (OpenPhase::ReadingLegacyVersion, OpenEvent::LegacyVersion(row)) => match latest_version_spec(row) {
            Err(e) => OpenPhase::Failed(e),
            Ok(version) => match legacy_version_verdict_spec(version@, config.minimum) {
                Err(e) => OpenPhase::Failed(e),
                Ok(_) => OpenPhase::Migrating,
            },
        },
        (OpenPhase::Migrating, OpenEvent::Migrations(outcome)) => match migration_result_spec(outcome) {
            Err(e) => OpenPhase::Failed(e),
            Ok(_) => OpenPhase::ReadingRecordedEpoch,
        },
        (OpenPhase::ReadingRecordedEpoch, OpenEvent::RecordedEpoch(row)) => match row {
            Err(detail) => OpenPhase::Failed(InitError::Storage(detail)),
            Ok(latest) => if needs_epoch_record(latest) {
                OpenPhase::RecordingEpoch
            } else {
                OpenPhase::ReadingVersionRecord
            },
        },
        (OpenPhase::RecordingEpoch, OpenEvent::EpochRecorded(done)) => match done {
            Err(detail) => OpenPhase::Failed(InitError::Storage(detail)),
            Ok(_) => OpenPhase::ReadingVersionRecord,
        },
        (OpenPhase::ReadingVersionRecord, OpenEvent::VersionRecord(row)) => match row {
            Err(detail) => OpenPhase::Failed(InitError::Storage(detail)),
            Ok(latest) => if record_is_current_spec(latest, config.current) {
                OpenPhase::Opened
            } else {
                OpenPhase::RecordingVersion
            },
        },
        (OpenPhase::RecordingVersion, OpenEvent::VersionRecorded(done)) => match done {
            Err(detail) => OpenPhase::Failed(InitError::Storage(detail)),
            Ok(_) => OpenPhase::Opened,
        },
        _ => phase,
    }
}

/// Makes the decisions of opening the wallet database.
pub struct DatabaseOpener {
    config: OpenConfig,
    phase: OpenPhase,
}

impl DatabaseOpener {
    pub closed spec fn config(&self) -> OpenConfigView {
        self.config@
    }

    pub closed spec fn phase(&self) -> OpenPhase {
        self.phase
    }

    /// Starts opening; the first action is to check whether the database exists.
    pub fn new(config: OpenConfig) -> (opener: DatabaseOpener)
        ensures
            opener.config() == config@,
            opener.phase() == OpenPhase::CheckingExistence,
    {
        DatabaseOpener { config, phase: OpenPhase::CheckingExistence }
    }

    /// Starts opening for this release: the minimum legacy version is
    /// [`MIN_LEGACY_COMPATIBLE_ZALLET_VERSION`].  `None` only if that constant
    /// were not a SemVer version.
    pub fn for_release(network: NetworkType, current: VersionRecord) -> (opener: Option<DatabaseOpener>)
        ensures
            opener is Some <==> semver_accepts(MIN_LEGACY_COMPATIBLE_ZALLET_VERSION@),
            opener matches Some(o) ==> {
                &&& o.config().network == network
                &&& o.config().minimum == MIN_LEGACY_COMPATIBLE_ZALLET_VERSION@
                &&& o.config().current == current
                &&& o.phase() == OpenPhase::CheckingExistence
            },
    {
        match minimum_legacy_compatible_version() {
            None => None,
            Some(minimum) => Some(DatabaseOpener::new(OpenConfig { network, minimum, current })),
        }
    }

    /// Where opening stands.
    pub fn current_phase(&self) -> (phase: OpenPhase)
        ensures
            phase == self.phase(),
    {
        match &self.phase {
            OpenPhase::CheckingExistence => OpenPhase::CheckingExistence,
            OpenPhase::ReadingNetworkType => OpenPhase::ReadingNetworkType,
            OpenPhase::CheckingCompatibilityTable => OpenPhase::CheckingCompatibilityTable,
            OpenPhase::ReadingCompatibilityEpoch => OpenPhase::ReadingCompatibilityEpoch,
            OpenPhase::ReadingLegacyVersion => OpenPhase::ReadingLegacyVersion,
            OpenPhase::Migrating => OpenPhase::Migrating,
            OpenPhase::ReadingRecordedEpoch => OpenPhase::ReadingRecordedEpoch,
            OpenPhase::RecordingEpoch => OpenPhase::RecordingEpoch,
            OpenPhase::ReadingVersionRecord => OpenPhase::ReadingVersionRecord,
            OpenPhase::RecordingVersion => OpenPhase::RecordingVersion,
            OpenPhase::Opened => OpenPhase::Opened,
            OpenPhase::Failed(e) => OpenPhase::Failed(e.duplicate()),
        }
    }

    /// The action the current phase waits on.
    pub fn pending_action(&self) -> (action: OpenAction)
        ensures
            action == awaited_action(self.phase(), self.config()),
            self.phase() is RecordingVersion ==> action == OpenAction::RecordVersion(self.config().current),
            self.phase() is RecordingEpoch ==> action == OpenAction::RecordEpoch(CURRENT_ALPHA_DB_COMPATIBILITY_EPOCH),
    {
        match &self.phase {
            OpenPhase::CheckingExistence => OpenAction::CheckExistence,
            OpenPhase::ReadingNetworkType => OpenAction::ReadNetworkType,
            OpenPhase::CheckingCompatibilityTable => OpenAction::CheckCompatibilityTable,
            OpenPhase::ReadingCompatibilityEpoch => OpenAction::ReadCompatibilityEpoch,
            OpenPhase::ReadingLegacyVersion => OpenAction::ReadLegacyVersion,
            OpenPhase::Migrating => OpenAction::RunMigrations,
            OpenPhase::ReadingRecordedEpoch => OpenAction::ReadRecordedEpoch,
            OpenPhase::RecordingEpoch => OpenAction::RecordEpoch(CURRENT_ALPHA_DB_COMPATIBILITY_EPOCH),
            OpenPhase::ReadingVersionRecord => OpenAction::ReadVersionRecord,
            OpenPhase::RecordingVersion => OpenAction::RecordVersion(self.config.current.duplicate()),
            OpenPhase::Opened => OpenAction::Finish(Ok(())),
            OpenPhase::Failed(e) => OpenAction::Finish(Err(e.duplicate())),
        }
    }

    /// Takes in what came of the last action and returns the next one.
    pub fn step(&mut self, event: OpenEvent) -> (action: OpenAction)
        ensures
            final(self).config() == old(self).config(),
            final(self).phase() == next_phase(old(self).phase(), event, old(self).config()),
            action == awaited_action(final(self).phase(), final(self).config()),
    {
        let next: Option<OpenPhase> = match (&self.phase, event) {
            (OpenPhase::CheckingExistence, OpenEvent::Existence(found)) => match found {
                Err(detail) => Some(OpenPhase::Failed(InitError::Storage(detail))),
                Ok(true) => Some(OpenPhase::ReadingNetworkType),
                Ok(false) => Some(OpenPhase::Migrating),
            },
            (OpenPhase::ReadingNetworkType, OpenEvent::NetworkType(stored)) => match stored {
                Err(detail) => Some(OpenPhase::Failed(InitError::Storage(detail))),
                Ok(stored) => match verify_wallet_network_type(stored, self.config.network) {
                    Err(e) => Some(OpenPhase::Failed(e)),
                    Ok(()) => Some(OpenPhase::CheckingCompatibilityTable),
                },
            },
            (OpenPhase::CheckingCompatibilityTable, OpenEvent::CompatibilityTable(exists)) => match exists {
                Err(_) => Some(OpenPhase::Failed(incompatible_alpha_database_error())),
                Ok(true) => Some(OpenPhase::ReadingCompatibilityEpoch),
                Ok(false) => Some(OpenPhase::ReadingLegacyVersion),
            },
            (OpenPhase::ReadingCompatibilityEpoch, OpenEvent::CompatibilityEpoch(row)) => match row {
                Err(_) => Some(OpenPhase::Failed(incompatible_alpha_database_error())),
                Ok(None) => Some(OpenPhase::ReadingLegacyVersion),
                Ok(Some(epoch)) => match recorded_epoch_verdict(epoch) {
                    Err(e) => Some(OpenPhase::Failed(e)),
                    Ok(()) => Some(OpenPhase::Migrating),
                },
            },
            (OpenPhase::ReadingLegacyVersion, OpenEvent::LegacyVersion(row)) => match latest_recorded_zallet_version(row) {
                Err(e) => Some(OpenPhase::Failed(e)),
                Ok(version) => match legacy_version_verdict(version.as_str(), &self.config.minimum) {
                    Err(e) => Some(OpenPhase::Failed(e)),
                    Ok(()) => Some(OpenPhase::Migrating),
                },
            },
            (OpenPhase::Migrating, OpenEvent::Migrations(outcome)) => match migration_result(outcome) {
                Err(e) => Some(OpenPhase::Failed(e)),
                Ok(()) => Some(OpenPhase::ReadingRecordedEpoch),
            },
            (OpenPhase::ReadingRecordedEpoch, OpenEvent::RecordedEpoch(row)) => match record_current_compatibility_epoch(row) {
                Err(e) => Some(OpenPhase::Failed(e)),
                Ok(Some(_)) => Some(OpenPhase::RecordingEpoch),
                Ok(None) => Some(OpenPhase::ReadingVersionRecord),
            },
            (OpenPhase::RecordingEpoch, OpenEvent::EpochRecorded(done)) => match done {
                Err(detail) => Some(OpenPhase::Failed(InitError::Storage(detail))),
                Ok(()) => Some(OpenPhase::ReadingVersionRecord),
            },
            (OpenPhase::ReadingVersionRecord, OpenEvent::VersionRecord(row)) => match row {
                Err(detail) => Some(OpenPhase::Failed(InitError::Storage(detail))),
                Ok(latest) => if version_record_is_current(&latest, &self.config.current) {
                    Some(OpenPhase::Opened)
                } else {
                    Some(OpenPhase::RecordingVersion)
                },
            },
            (OpenPhase::RecordingVersion, OpenEvent::VersionRecorded(done)) => match done {
                Err(detail) => Some(OpenPhase::Failed(InitError::Storage(detail))),
                Ok(()) => Some(OpenPhase::Opened),
            },
            _ => None,
        };
        if let Some(next) = next {
            self.phase = next;
        }
        self.pending_action()
    }
}

/// The phase reached from `phase` after the events, in order.
pub open spec fn run(phase: OpenPhase, events: Seq<OpenEvent>, config: OpenConfigView) -> OpenPhase
    decreases events.len(),
{
    if events.len() == 0 {
        phase
    } else {
        run(next_phase(phase, events[0], config), events.drop_first(), config)
    }
}

/// The phase an existing database reaches once it has been vetted.
pub open spec fn vetted_phase(verdict: Result<(), InitError>) -> OpenPhase {
    match verdict {
        Ok(_) => OpenPhase::Migrating,
        Err(e) => OpenPhase::Failed(e),
    }
}

/// A finished open stays finished: whatever is reported afterwards, an opened
/// database stays opened and a failure stays the same failure (so nothing,
/// and in particular no migration, is asked for after a rejection).
pub proof fn lemma_finished_open_is_final(phase: OpenPhase, events: Seq<OpenEvent>, config: OpenConfigView)
    requires
        phase is Opened || phase is Failed,
    ensures
        run(phase, events, config) == phase,
    decreases events.len(),
{
    if events.len() > 0 {
        lemma_finished_open_is_final(next_phase(phase, events[0], config), events.drop_first(), config);
    }
}

/// Vetting an existing database step by step, reading only what is needed,
/// ends where the all-at-once verdict [`crate::compat::verify_existing_database`]
/// says: the migrations are asked for exactly when that verdict accepts the
/// database, and otherwise opening fails with the verdict's error.  Reports
/// that the machine does not wait for (the epoch row of a database without the
/// epoch table, the legacy version of a database with a recorded epoch) are
/// ignored.
pub proof fn lemma_stepwise_vetting_agrees(
    stored_network: Result<NetworkType, String>,
    table_exists: Result<bool, String>,
    latest_epoch_row: Result<Option<i64>, String>,
    latest_version_row: Result<Option<String>, String>,
    config: OpenConfigView,
)
    ensures
        run(
            OpenPhase::CheckingExistence,
            seq![
                OpenEvent::Existence(Ok(true)),
                OpenEvent::NetworkType(stored_network),
                OpenEvent::CompatibilityTable(table_exists),
                OpenEvent::CompatibilityEpoch(latest_epoch_row),
                OpenEvent::LegacyVersion(latest_version_row),
            ],
            config,
        ) == vetted_phase(
            existing_database_spec(
                stored_network,
                config.network,
                table_exists,
                latest_epoch_row,
                latest_version_row,
                config.minimum,
            ),
        ),
{
    reveal_with_fuel(run, 6);
    let events = seq![
        OpenEvent::Existence(Ok(true)),
        OpenEvent::NetworkType(stored_network),
        OpenEvent::CompatibilityTable(table_exists),
        OpenEvent::CompatibilityEpoch(latest_epoch_row),
        OpenEvent::LegacyVersion(latest_version_row),
    ];
    assert(events.drop_first() =~= seq![events[1], events[2], events[3], events[4]]);
    assert(events.drop_first().drop_first() =~= seq![events[2], events[3], events[4]]);
    assert(events.drop_first().drop_first().drop_first() =~= seq![events[3], events[4]]);
    assert(events.drop_first().drop_first().drop_first().drop_first() =~= seq![events[4]]);
}

/// A database that does not exist yet is not vetted: the migrations are the
/// first thing asked for.
pub proof fn lemma_fresh_database_migrates_first(config: OpenConfigView)
    ensures
        next_phase(OpenPhase::CheckingExistence, OpenEvent::Existence(Ok(false)), config) == OpenPhase::Migrating,
        awaited_action(OpenPhase::Migrating, config) == OpenAction::RunMigrations,
{
}

/// The phases in which an existing database is vetted.
pub open spec fn is_vetting(phase: OpenPhase) -> bool {
    ||| phase is ReadingNetworkType
    ||| phase is CheckingCompatibilityTable
    ||| phase is ReadingCompatibilityEpoch
    ||| phase is ReadingLegacyVersion
}

/// Whether an action changes the database.
pub open spec fn changes_database(action: OpenAction) -> bool {
    ||| action is RunMigrations
    ||| action is RecordEpoch
    ||| action is RecordVersion
}

/// While an existing database is vetted, only reads are asked for, and vetting
/// ends either in failure or in the migrations: nothing is changed in a
/// database before it has been accepted.
pub proof fn lemma_vetting_only_reads(phase: OpenPhase, event: OpenEvent, config: OpenConfigView)
    requires
        is_vetting(phase),
    ensures
        !changes_database(awaited_action(phase, config)),
        is_vetting(next_phase(phase, event, config)) || next_phase(phase, event, config) is Migrating
            || next_phase(phase, event, config) is Failed,
{
}

/// The actions asked for from `phase` on, as the events come in: the one the
/// phase waits on, then those of the phases that follow.
pub open spec fn asked(phase: OpenPhase, events: Seq<OpenEvent>, config: OpenConfigView) -> Seq<OpenAction>
    decreases events.len(),
{
    if events.len() == 0 {
        seq![awaited_action(phase, config)]
    } else {
        seq![awaited_action(phase, config)] + asked(next_phase(phase, events[0], config), events.drop_first(), config)
    }
}

/// The reports of a database left by a successful open of the same build:
/// it exists and records the configured network, its latest epoch is the
/// current one, its migrations are done, and its latest version row is
/// `latest_row`.
pub open spec fn reopen_events(config: OpenConfigView, latest_row: VersionRecord) -> Seq<OpenEvent> {
    seq![
        OpenEvent::Existence(Ok(true)),
        OpenEvent::NetworkType(Ok(config.network)),
        OpenEvent::CompatibilityTable(Ok(true)),
        OpenEvent::CompatibilityEpoch(Ok(Some(CURRENT_ALPHA_DB_COMPATIBILITY_EPOCH))),
        OpenEvent::Migrations(MigrationOutcome::Completed),
        OpenEvent::RecordedEpoch(Ok(Some(CURRENT_ALPHA_DB_COMPATIBILITY_EPOCH))),
        OpenEvent::VersionRecord(Ok(Some(latest_row))),
    ]
}

/// Opening a database again, as a successful open by the same build left it,
/// succeeds and writes no row: neither an epoch nor a version row is asked
/// to be recorded.
pub proof fn lemma_reopen_writes_nothing(config: OpenConfigView, latest_row: VersionRecord)
    requires
        same_build(latest_row, config.current),
    ensures
        run(OpenPhase::CheckingExistence, reopen_events(config, latest_row), config) == OpenPhase::Opened,
        forall|k: int|
            0 <= k < asked(OpenPhase::CheckingExistence, reopen_events(config, latest_row), config).len() ==> {
                let action = #[trigger] asked(OpenPhase::CheckingExistence, reopen_events(config, latest_row), config)[k];
                !(action is RecordEpoch) && !(action is RecordVersion)
            },
{
    reveal_with_fuel(run, 8);
    reveal_with_fuel(asked, 8);
    let e = reopen_events(config, latest_row);
    assert(e.drop_first() =~= e.subrange(1, 7));
    assert(e.subrange(1, 7).drop_first() =~= e.subrange(2, 7));
    assert(e.subrange(2, 7).drop_first() =~= e.subrange(3, 7));
    assert(e.subrange(3, 7).drop_first() =~= e.subrange(4, 7));
    assert(e.subrange(4, 7).drop_first() =~= e.subrange(5, 7));
    assert(e.subrange(5, 7).drop_first() =~= e.subrange(6, 7));
    assert(e.subrange(6, 7).drop_first() =~= e.subrange(7, 7));
    let actions = asked(OpenPhase::CheckingExistence, e, config);
    assert(actions =~= seq![
        OpenAction::CheckExistence,
        OpenAction::ReadNetworkType,
        OpenAction::CheckCompatibilityTable,
        OpenAction::ReadCompatibilityEpoch,
        OpenAction::RunMigrations,
        OpenAction::ReadRecordedEpoch,
        OpenAction::ReadVersionRecord,
        OpenAction::Finish(Ok(())),
    ]);
}

/// Vetting decides as the original does: another network is a mismatch
/// naming both networks; a recorded epoch lets the database through exactly
/// when it is the current one; without one, the latest recorded version lets
/// it through exactly when it was read and is a SemVer version at least the
/// minimum; every other outcome of the compatibility reads is the
/// incompatibility error.
pub proof fn lemma_vetting_decisions(phase: OpenPhase, event: OpenEvent, config: OpenConfigView)
    ensures
        ({
            let next = next_phase(phase, event, config);
            &&& phase is ReadingNetworkType ==> (event matches OpenEvent::NetworkType(Ok(stored)) ==> {
                &&& next == OpenPhase::CheckingCompatibilityTable <==> stored == config.network
                &&& stored != config.network ==> next == OpenPhase::Failed(
                    InitError::NetworkMismatch { database: stored, configured: config.network },
                )
            })
            &&& phase is CheckingCompatibilityTable ==> (event matches OpenEvent::CompatibilityTable(found) ==> {
                &&& found is Err ==> next == OpenPhase::Failed(InitError::IncompatibleAlphaDatabase)
                &&& found == Ok::<bool, String>(true) ==> next == OpenPhase::ReadingCompatibilityEpoch
                &&& found == Ok::<bool, String>(false) ==> next == OpenPhase::ReadingLegacyVersion
            })
            &&& phase is ReadingCompatibilityEpoch ==> (event matches OpenEvent::CompatibilityEpoch(row) ==> {
                &&& row is Err ==> next == OpenPhase::Failed(InitError::IncompatibleAlphaDatabase)
                &&& row == Ok::<Option<i64>, String>(None) ==> next == OpenPhase::ReadingLegacyVersion
                &&& (row is Ok && row->Ok_0 is Some) ==> (next == OpenPhase::Migrating
                    <==> row->Ok_0->Some_0 == CURRENT_ALPHA_DB_COMPATIBILITY_EPOCH)
                &&& (row is Ok && row->Ok_0 is Some && row->Ok_0->Some_0 != CURRENT_ALPHA_DB_COMPATIBILITY_EPOCH)
                    ==> next == OpenPhase::Failed(InitError::IncompatibleAlphaDatabase)
            })
            &&& phase is ReadingLegacyVersion ==> (event matches OpenEvent::LegacyVersion(row) ==> {
                &&& next == OpenPhase::Migrating <==> (row is Ok && row->Ok_0 is Some
                    && semver_accepts(row->Ok_0->Some_0@)
                    && semver_at_least(row->Ok_0->Some_0@, config.minimum))
                &&& next != OpenPhase::Migrating ==> next == OpenPhase::Failed(InitError::IncompatibleAlphaDatabase)
            })
        }),
{
}

/// After vetting: the migration outcome is reported as the original maps it;
/// the current epoch is recorded exactly when the latest recorded epoch is
/// missing or older; opening ends without a new version row exactly when the
/// latest row has the running build's version text, clean flag and git
/// revision text (or no revision on both sides), and otherwise a row is
/// recorded; a failed read or write is a storage error.
pub proof fn lemma_recording_decisions(phase: OpenPhase, event: OpenEvent, config: OpenConfigView)
    ensures
        ({
            let next = next_phase(phase, event, config);
            &&& phase is CheckingExistence ==> (event matches OpenEvent::Existence(found) ==> {
                &&& found == Ok::<bool, String>(true) ==> next == OpenPhase::ReadingNetworkType
                &&& found == Ok::<bool, String>(false) ==> next == OpenPhase::Migrating
                &&& found is Err ==> next == OpenPhase::Failed(InitError::Storage(found->Err_0))
            })
            &&& phase is Migrating ==> (event matches OpenEvent::Migrations(outcome) ==> {
                &&& outcome is Completed ==> next == OpenPhase::ReadingRecordedEpoch
                &&& outcome is SeedRequired ==> next == OpenPhase::Failed(InitError::SeedRequiredMigration)
                &&& outcome is Failed ==> next == OpenPhase::Failed(InitError::Migration(outcome->Failed_0))
            })
            &&& phase is ReadingRecordedEpoch ==> (event matches OpenEvent::RecordedEpoch(row) ==> {
                &&& row is Err ==> next == OpenPhase::Failed(InitError::Storage(row->Err_0))
                &&& row is Ok ==> (next == OpenPhase::RecordingEpoch <==> (row->Ok_0 is None
                    || row->Ok_0->Some_0 < CURRENT_ALPHA_DB_COMPATIBILITY_EPOCH))
                &&& (row is Ok && next != OpenPhase::RecordingEpoch) ==> next == OpenPhase::ReadingVersionRecord
            })
            &&& phase is RecordingEpoch ==> (event matches OpenEvent::EpochRecorded(done) ==> {
                &&& done is Ok ==> next == OpenPhase::ReadingVersionRecord
                &&& done is Err ==> next == OpenPhase::Failed(InitError::Storage(done->Err_0))
            })
            &&& phase is ReadingVersionRecord ==> (event matches OpenEvent::VersionRecord(row) ==> {
                &&& row is Err ==> next == OpenPhase::Failed(InitError::Storage(row->Err_0))
                &&& row is Ok ==> (next == OpenPhase::Opened <==> (row->Ok_0 is Some
                    && row->Ok_0->Some_0.version@ == config.current.version@
                    && row->Ok_0->Some_0.clean == config.current.clean
                    && ((row->Ok_0->Some_0.git_revision is None && config.current.git_revision is None)
                        || (row->Ok_0->Some_0.git_revision is Some && config.current.git_revision is Some
                            && row->Ok_0->Some_0.git_revision->Some_0@ == config.current.git_revision->Some_0@))))
                &&& (row is Ok && next != OpenPhase::Opened) ==> next == OpenPhase::RecordingVersion
            })
            &&& phase is RecordingVersion ==> (event matches OpenEvent::VersionRecorded(done) ==> {
                &&& done is Ok ==> next == OpenPhase::Opened
                &&& done is Err ==> next == OpenPhase::Failed(InitError::Storage(done->Err_0))
            })
        }),
{
}

/// The writes asked for carry what the original inserts: the current epoch,
/// and the running build's own row (its version, git revision and clean flag
/// as configured); a finished open reports its result.
pub proof fn lemma_requested_writes(config: OpenConfigView, err: InitError)
    ensures
        awaited_action(OpenPhase::RecordingEpoch, config) == OpenAction::RecordEpoch(CURRENT_ALPHA_DB_COMPATIBILITY_EPOCH),
        awaited_action(OpenPhase::RecordingVersion, config) == OpenAction::RecordVersion(config.current),
        awaited_action(OpenPhase::Opened, config) == OpenAction::Finish(Ok(())),
        awaited_action(OpenPhase::Failed(err), config) == OpenAction::Finish(Err(err)),
{
}

} // verus!
