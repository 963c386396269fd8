use dummy_client::amount::Amount;
use dummy_client::db::eq_ignoring_case;
use dummy_client::db::DatabaseVersion;
use dummy_client::db::DbKeyPrefix;
use dummy_client::init::ApiVersion;
use dummy_client::init::ClientMigration;
use dummy_client::init::DummyClientInit;
use dummy_client::init::DumpEntry;
use dummy_client::init::DumpValue;

fn funds_line(n: u64) -> DumpEntry {
    DumpEntry { label: "Dummy Funds".to_string(), value: DumpValue::Funds(Amount::from_msats(n)) }
}

fn name_line(name: &str) -> DumpEntry {
    DumpEntry { label: "Dummy Name".to_string(), value: DumpValue::Name(name.to_string()) }
}

fn names(list: &[&str]) -> Vec<String> {
    list.iter().map(|s| s.to_string()).collect()
}

fn dump(funds: Option<u64>, name: Option<&str>, tables: &[&str]) -> Vec<DumpEntry> {
    DummyClientInit.dump_database(
        funds.map(Amount::from_msats),
        name.map(|s| s.to_string()),
        &names(tables),
    )
}

#[test]
fn dump_without_a_filter_shows_every_table() {
    assert_eq!(dump(Some(5), Some("x"), &[]), vec![funds_line(5), name_line("x")]);
}

#[test]
fn dump_shows_only_records_that_are_there() {
    assert_eq!(dump(None, Some("x"), &[]), vec![name_line("x")]);
    assert_eq!(dump(Some(0), None, &[]), vec![funds_line(0)]);
    assert_eq!(dump(None, None, &[]), vec![]);
}

#[test]
fn dump_filter_selects_tables() {
    assert_eq!(dump(Some(5), Some("x"), &["clientfunds"]), vec![funds_line(5)]);
    assert_eq!(dump(Some(5), Some("x"), &["clientname"]), vec![name_line("x")]);
    assert_eq!(
        dump(Some(5), Some("x"), &["clientname", "clientfunds"]),
        vec![funds_line(5), name_line("x")]
    );
    assert_eq!(dump(Some(5), Some("x"), &["other"]), vec![]);
    assert_eq!(dump(Some(5), Some("x"), &[""]), vec![]);
    assert_eq!(dump(Some(5), Some("x"), &["clientfund"]), vec![]);
    assert_eq!(dump(Some(5), Some("x"), &["clientfundss"]), vec![]);
}

#[test]
fn dump_filter_ignores_case() {
    assert_eq!(dump(Some(5), Some("x"), &["ClientFunds"]), vec![funds_line(5)]);
    assert_eq!(dump(Some(5), Some("x"), &["CLIENTNAME"]), vec![name_line("x")]);
    assert_eq!(dump(Some(5), Some("x"), &["cLiEnTfUnDs", "nope"]), vec![funds_line(5)]);
}

#[test]
fn case_is_ignored_for_ascii_letters_only() {
    assert!(eq_ignoring_case("ClientFunds", "clientfunds"));
    assert!(eq_ignoring_case("", ""));
    assert!(eq_ignoring_case("a-Z_9", "A-z_9"));
    assert!(!eq_ignoring_case("ab", "abc"));
    assert!(!eq_ignoring_case("@", "`"));
    assert!(!eq_ignoring_case("[", "{"));
    assert!(!eq_ignoring_case("\u{c4}", "\u{e4}"));
    assert!(!eq_ignoring_case("\u{212a}", "k"));
    assert!(eq_ignoring_case("\u{e4}B", "\u{e4}b"));
}

#[test]
fn table_names_and_selection() {
    assert_eq!(DbKeyPrefix::ClientFunds.name(), "ClientFunds");
    assert_eq!(DbKeyPrefix::ClientName.name(), "ClientName");
    assert!(DbKeyPrefix::ClientFunds.selected(&names(&[])));
    assert!(DbKeyPrefix::ClientFunds.selected(&names(&["x", "clientfunds"])));
    assert!(!DbKeyPrefix::ClientFunds.selected(&names(&["clientname"])));
    assert!(DbKeyPrefix::ClientName.selected(&names(&["clientname"])));
}

#[test]
fn api_version_is_zero_zero() {
    assert_eq!(DummyClientInit.supported_api_versions(), vec![ApiVersion { major: 0, minor: 0 }]);
}

#[test]
fn migrations_start_from_versions_zero_and_one() {
    assert_eq!(
        DummyClientInit.get_database_migrations(),
        vec![
            (DatabaseVersion(0), ClientMigration::MigrateToV1),
            (DatabaseVersion(1), ClientMigration::MigrateState),
        ]
    );
}

#[test]
fn migrations_that_were_applied_are_skipped() {
    assert_eq!(
        DummyClientInit.pending_migrations(DatabaseVersion(0)),
        vec![ClientMigration::MigrateToV1, ClientMigration::MigrateState]
    );
    assert_eq!(
        DummyClientInit.pending_migrations(DatabaseVersion(1)),
        vec![ClientMigration::MigrateState]
    );
    assert_eq!(DummyClientInit.pending_migrations(DatabaseVersion(2)), vec![]);
    assert_eq!(DummyClientInit.pending_migrations(DatabaseVersion(u64::MAX)), vec![]);
}
