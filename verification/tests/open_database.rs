use zallet_database::compat::{minimum_legacy_compatible_version, CURRENT_ALPHA_DB_COMPATIBILITY_EPOCH};
use zallet_database::error::InitError;
use zallet_database::network::NetworkType;
use zallet_database::open::{DatabaseOpener, OpenAction, OpenConfig, OpenEvent, OpenPhase};
use zallet_database::record::{current_version_record, MigrationOutcome, VersionRecord};

const PKG_VERSION: &str = "0.1.0-alpha.5";

fn test_config(network: NetworkType) -> OpenConfig {
    OpenConfig {
        network,
        minimum: minimum_legacy_compatible_version()
            .expect("minimum compatible Zallet version is valid SemVer"),
        current: current_version_record(PKG_VERSION, "", false),
    }
}

/// Plays the part of a wallet database as it was left by `create_wallet_db`:
/// it answers each action the opener asks for, and records what was written.
struct FakeDatabase {
    exists: bool,
    network: NetworkType,
    compatibility_epochs: Option<Vec<i64>>,
    versions: Vec<String>,
    migrated: bool,
}

impl FakeDatabase {
    fn new(network: NetworkType, version: Option<&str>, compatibility_epoch: Option<i64>) -> Self {
        FakeDatabase {
            exists: true,
            network,
            compatibility_epochs: compatibility_epoch.map(|e| vec![e]),
            versions: version.map(|v| vec![v.to_string()]).unwrap_or_default(),
            migrated: false,
        }
    }

    fn answer(&mut self, action: &OpenAction) -> OpenEvent {
        match action {
            OpenAction::CheckExistence => OpenEvent::Existence(Ok(self.exists)),
            OpenAction::ReadNetworkType => OpenEvent::NetworkType(Ok(self.network)),
            OpenAction::CheckCompatibilityTable => {
                OpenEvent::CompatibilityTable(Ok(self.compatibility_epochs.is_some()))
            }
            OpenAction::ReadCompatibilityEpoch => OpenEvent::CompatibilityEpoch(match &self.compatibility_epochs {
                Some(epochs) => Ok(epochs.last().copied()),
                None => Err("no such table: ext_zallet_db_compatibility_metadata".to_string()),
            }),
            OpenAction::ReadLegacyVersion => OpenEvent::LegacyVersion(Ok(self.versions.last().cloned())),
            OpenAction::RunMigrations => {
                self.migrated = true;
                if self.compatibility_epochs.is_none() {
                    self.compatibility_epochs = Some(vec![]);
                }
                OpenEvent::Migrations(MigrationOutcome::Completed)
            }
            OpenAction::ReadRecordedEpoch => OpenEvent::RecordedEpoch(Ok(self
                .compatibility_epochs
                .as_ref()
                .and_then(|e| e.last().copied()))),
            OpenAction::RecordEpoch(epoch) => {
                self.compatibility_epochs.get_or_insert_with(Vec::new).push(*epoch);
                OpenEvent::EpochRecorded(Ok(()))
            }
            OpenAction::ReadVersionRecord => OpenEvent::VersionRecord(Ok(self.versions.last().map(|v| VersionRecord {
                version: v.clone(),
                git_revision: None,
                clean: None,
            }))),
            OpenAction::RecordVersion(row) => {
                self.versions.push(row.version.clone());
                OpenEvent::VersionRecorded(Ok(()))
            }
            OpenAction::Finish(_) => panic!("no event answers a finished open"),
        }
    }

    fn latest_recorded_compatibility_epoch(&self) -> Option<i64> {
        self.compatibility_epochs.as_ref().and_then(|e| e.last().copied())
    }

    fn latest_recorded_version(&self) -> Option<String> {
        self.versions.last().cloned()
    }
}

fn open_database(config: OpenConfig, db: &mut FakeDatabase) -> Result<(), InitError> {
    let mut opener = DatabaseOpener::new(config);
    let mut action = opener.pending_action();
    loop {
        if let OpenAction::Finish(result) = action {
            return result;
        }
        let event = db.answer(&action);
        action = opener.step(event);
    }
}

#[test]
fn legacy_alpha_3_database_is_rejected_before_migrations() {
    let mut db = FakeDatabase::new(NetworkType::Test, Some("0.1.0-alpha.3"), None);
    let err = open_database(test_config(NetworkType::Test), &mut db)
        .expect_err("legacy alpha.3 database must be rejected");
    assert!(
        err.message().contains("fresh Zallet wallet"),
        "unexpected error: {:?}",
        err
    );
    assert!(
        !db.migrated && db.compatibility_epochs.is_none(),
        "compatibility migration should not run before rejecting the database",
    );
    assert_eq!(db.latest_recorded_version(), Some("0.1.0-alpha.3".to_string()));
}

#[test]
fn legacy_alpha_4_database_is_allowed_and_marked_current() {
    let mut db = FakeDatabase::new(NetworkType::Test, Some("0.1.0-alpha.4"), None);
    open_database(test_config(NetworkType::Test), &mut db).unwrap();
    assert_eq!(
        db.latest_recorded_compatibility_epoch(),
        Some(CURRENT_ALPHA_DB_COMPATIBILITY_EPOCH),
    );
}

#[test]
fn current_compatibility_epoch_is_allowed_even_with_alpha_3_version() {
    let mut db = FakeDatabase::new(
        NetworkType::Test,
        Some("0.1.0-alpha.3"),
        Some(CURRENT_ALPHA_DB_COMPATIBILITY_EPOCH),
    );
    open_database(test_config(NetworkType::Test), &mut db).unwrap();
}

#[test]
fn future_compatibility_epoch_is_rejected() {
    let mut db = FakeDatabase::new(
        NetworkType::Test,
        Some("0.1.0-alpha.4"),
        Some(CURRENT_ALPHA_DB_COMPATIBILITY_EPOCH + 1),
    );
    let err = open_database(test_config(NetworkType::Test), &mut db)
        .expect_err("future compatibility epoch must be rejected");
    assert!(
        err.message().contains("fresh Zallet wallet"),
        "unexpected error: {:?}",
        err
    );
}

#[test]
fn malformed_legacy_version_is_rejected() {
    let mut db = FakeDatabase::new(NetworkType::Test, Some("not-a-version"), None);
    let err = open_database(test_config(NetworkType::Test), &mut db)
        .expect_err("malformed version must be rejected");
    assert!(
        err.message().contains("fresh Zallet wallet"),
        "unexpected error: {:?}",
        err
    );
}

#[test]
fn missing_legacy_version_is_rejected() {
    let mut db = FakeDatabase::new(NetworkType::Test, None, None);
    let err = open_database(test_config(NetworkType::Test), &mut db)
        .expect_err("missing version must be rejected");
    assert!(
        err.message().contains("fresh Zallet wallet"),
        "unexpected error: {:?}",
        err
    );
}

#[test]
fn network_mismatch_still_reports_network_error() {
    let mut db = FakeDatabase::new(NetworkType::Main, Some("0.1.0-alpha.4"), None);
    let err = open_database(test_config(NetworkType::Test), &mut db)
        .expect_err("network mismatch must be rejected");
    assert!(
        err.message()
            .contains("The wallet database was created for network type"),
        "unexpected error: {:?}",
        err
    );
}

// ---------------------------------------------------------------------------
// Further scenarios of the opener.

#[test]
fn fresh_database_is_migrated_and_marked() {
    let mut db = FakeDatabase::new(NetworkType::Test, None, None);
    db.exists = false;
    let mut opener = DatabaseOpener::new(test_config(NetworkType::Test));
    assert_eq!(opener.pending_action(), OpenAction::CheckExistence);
    assert_eq!(opener.step(OpenEvent::Existence(Ok(false))), OpenAction::RunMigrations);
    assert_eq!(
        opener.step(OpenEvent::Migrations(MigrationOutcome::Completed)),
        OpenAction::ReadRecordedEpoch
    );
    assert_eq!(
        opener.step(OpenEvent::RecordedEpoch(Ok(None))),
        OpenAction::RecordEpoch(CURRENT_ALPHA_DB_COMPATIBILITY_EPOCH)
    );
    assert_eq!(opener.step(OpenEvent::EpochRecorded(Ok(()))), OpenAction::ReadVersionRecord);
    assert_eq!(
        opener.step(OpenEvent::VersionRecord(Ok(None))),
        OpenAction::RecordVersion(current_version_record(PKG_VERSION, "", false))
    );
    assert_eq!(opener.step(OpenEvent::VersionRecorded(Ok(()))), OpenAction::Finish(Ok(())));
    assert_eq!(opener.current_phase(), OpenPhase::Opened);
    // A finished open ignores further reports.
    assert_eq!(opener.step(OpenEvent::Existence(Ok(true))), OpenAction::Finish(Ok(())));

    open_database(test_config(NetworkType::Test), &mut db).unwrap();
    assert_eq!(db.latest_recorded_compatibility_epoch(), Some(CURRENT_ALPHA_DB_COMPATIBILITY_EPOCH));
    assert_eq!(db.latest_recorded_version(), Some(PKG_VERSION.to_string()));
}

#[test]
fn reopening_writes_nothing_new() {
    let mut db = FakeDatabase::new(NetworkType::Regtest, Some("0.1.0-alpha.4"), None);
    open_database(test_config(NetworkType::Regtest), &mut db).unwrap();
    let epochs = db.compatibility_epochs.clone();
    let versions = db.versions.clone();
    open_database(test_config(NetworkType::Regtest), &mut db).unwrap();
    assert_eq!(db.compatibility_epochs, epochs);
    assert_eq!(db.versions, versions);
    assert_eq!(epochs, Some(vec![CURRENT_ALPHA_DB_COMPATIBILITY_EPOCH]));
}

#[test]
fn older_compatibility_epoch_is_rejected() {
    let mut db = FakeDatabase::new(NetworkType::Test, Some("0.1.0-alpha.4"), Some(0));
    assert_eq!(
        open_database(test_config(NetworkType::Test), &mut db),
        Err(InitError::IncompatibleAlphaDatabase)
    );
    assert!(!db.migrated);
}

#[test]
fn empty_epoch_table_falls_back_to_legacy_version() {
    let mut db = FakeDatabase::new(NetworkType::Test, Some("0.1.0"), None);
    db.compatibility_epochs = Some(vec![]);
    open_database(test_config(NetworkType::Test), &mut db).unwrap();
    assert_eq!(db.latest_recorded_compatibility_epoch(), Some(CURRENT_ALPHA_DB_COMPATIBILITY_EPOCH));
}

#[test]
fn storage_failures_are_reported() {
    let mut opener = DatabaseOpener::new(test_config(NetworkType::Test));
    assert_eq!(
        opener.step(OpenEvent::Existence(Err("permission denied".to_string()))),
        OpenAction::Finish(Err(InitError::Storage("permission denied".to_string())))
    );
    let mut opener = DatabaseOpener::new(test_config(NetworkType::Test));
    opener.step(OpenEvent::Existence(Ok(true)));
    assert_eq!(
        opener.step(OpenEvent::NetworkType(Err("no such table".to_string()))),
        OpenAction::Finish(Err(InitError::Storage("no such table".to_string())))
    );
}

#[test]
fn failed_compatibility_reads_make_the_database_incompatible() {
    let mut opener = DatabaseOpener::new(test_config(NetworkType::Test));
    opener.step(OpenEvent::Existence(Ok(true)));
    opener.step(OpenEvent::NetworkType(Ok(NetworkType::Test)));
    assert_eq!(
        opener.step(OpenEvent::CompatibilityTable(Err("disk I/O error".to_string()))),
        OpenAction::Finish(Err(InitError::IncompatibleAlphaDatabase))
    );

    let mut opener = DatabaseOpener::new(test_config(NetworkType::Test));
    opener.step(OpenEvent::Existence(Ok(true)));
    opener.step(OpenEvent::NetworkType(Ok(NetworkType::Test)));
    opener.step(OpenEvent::CompatibilityTable(Ok(false)));
    assert_eq!(
        opener.step(OpenEvent::LegacyVersion(Err("disk I/O error".to_string()))),
        OpenAction::Finish(Err(InitError::IncompatibleAlphaDatabase))
    );
}

#[test]
fn migration_failures_are_reported() {
    for (outcome, expected) in [
        (MigrationOutcome::SeedRequired, InitError::SeedRequiredMigration),
        (
            MigrationOutcome::Failed("broken".to_string()),
            InitError::Migration("broken".to_string()),
        ),
    ] {
        let mut opener = DatabaseOpener::new(test_config(NetworkType::Main));
        assert_eq!(opener.step(OpenEvent::Existence(Ok(false))), OpenAction::RunMigrations);
        assert_eq!(opener.step(OpenEvent::Migrations(outcome)), OpenAction::Finish(Err(expected)));
    }
}

#[test]
fn write_failures_are_reported() {
    let mut opener = DatabaseOpener::new(test_config(NetworkType::Main));
    opener.step(OpenEvent::Existence(Ok(false)));
    opener.step(OpenEvent::Migrations(MigrationOutcome::Completed));
    opener.step(OpenEvent::RecordedEpoch(Ok(Some(0))));
    assert_eq!(
        opener.step(OpenEvent::EpochRecorded(Err("readonly database".to_string()))),
        OpenAction::Finish(Err(InitError::Storage("readonly database".to_string())))
    );
}

#[test]
fn unexpected_events_are_ignored() {
    let mut opener = DatabaseOpener::new(test_config(NetworkType::Test));
    assert_eq!(opener.step(OpenEvent::VersionRecorded(Ok(()))), OpenAction::CheckExistence);
    assert_eq!(opener.current_phase(), OpenPhase::CheckingExistence);
}

#[test]
fn opener_for_this_release() {
    let current = current_version_record(PKG_VERSION, "", false);
    let mut opener = DatabaseOpener::for_release(NetworkType::Test, current)
        .expect("minimum compatible Zallet version is valid SemVer");
    assert_eq!(opener.pending_action(), OpenAction::CheckExistence);
    opener.step(OpenEvent::Existence(Ok(true)));
    opener.step(OpenEvent::NetworkType(Ok(NetworkType::Test)));
    opener.step(OpenEvent::CompatibilityTable(Ok(false)));
    // The minimum itself is accepted; the release just before it is not.
    assert_eq!(
        opener.step(OpenEvent::LegacyVersion(Ok(Some("0.1.0-alpha.4".to_string())))),
        OpenAction::RunMigrations
    );
    let mut opener = DatabaseOpener::for_release(
        NetworkType::Test,
        current_version_record(PKG_VERSION, "", false),
    )
    .unwrap();
    opener.step(OpenEvent::Existence(Ok(true)));
    opener.step(OpenEvent::NetworkType(Ok(NetworkType::Test)));
    opener.step(OpenEvent::CompatibilityTable(Ok(false)));
    assert_eq!(
        opener.step(OpenEvent::LegacyVersion(Ok(Some("0.1.0-alpha.3".to_string())))),
        OpenAction::Finish(Err(InitError::IncompatibleAlphaDatabase))
    );
}

#[test]
fn reopen_asks_for_no_write() {
    let current = current_version_record(PKG_VERSION, "abc", true);
    let mut opener = DatabaseOpener::for_release(NetworkType::Main, current.clone()).unwrap();
    let events = vec![
        OpenEvent::Existence(Ok(true)),
        OpenEvent::NetworkType(Ok(NetworkType::Main)),
        OpenEvent::CompatibilityTable(Ok(true)),
        OpenEvent::CompatibilityEpoch(Ok(Some(CURRENT_ALPHA_DB_COMPATIBILITY_EPOCH))),
        OpenEvent::Migrations(MigrationOutcome::Completed),
        OpenEvent::RecordedEpoch(Ok(Some(CURRENT_ALPHA_DB_COMPATIBILITY_EPOCH))),
        OpenEvent::VersionRecord(Ok(Some(current))),
    ];
    let mut actions = vec![opener.pending_action()];
    for event in events {
        actions.push(opener.step(event));
    }
    assert_eq!(
        actions,
        vec![
            OpenAction::CheckExistence,
            OpenAction::ReadNetworkType,
            OpenAction::CheckCompatibilityTable,
            OpenAction::ReadCompatibilityEpoch,
            OpenAction::RunMigrations,
            OpenAction::ReadRecordedEpoch,
            OpenAction::ReadVersionRecord,
            OpenAction::Finish(Ok(())),
        ]
    );
}
