use jobless::paths::AppPaths;
use jobless::storage::{database_directory, migration_step, Database, Migration, MigrationStep, StorageError};

#[test]
fn opens_in_memory_without_touching_disk() {
    let database = Database::open_in_memory().unwrap();
    assert_eq!(database.path(), ":memory:");
}

#[test]
fn applies_each_migration_once() {
    let mut database = Database::open_in_memory().unwrap();
    let migrations = [Migration {
        version: 1,
        name: "create_test_table",
        sql: "CREATE TABLE test_migration (id INTEGER PRIMARY KEY);",
    }];

    database.apply_migrations(&migrations).unwrap();
    database.apply_migrations(&migrations).unwrap();

    let count: i64 = database
        .connection()
        .query_row("SELECT COUNT(*) FROM schema_migrations", [], |row| row.get(0))
        .unwrap();
    assert_eq!(count, 1);
}

#[test]
fn configures_foreign_keys_and_wal() {
    let root = tempfile::tempdir().unwrap();
    let db_dir = tempfile::Builder::new().prefix("db").rand_bytes(0).tempdir_in(root.path()).unwrap();
    let file = db_dir.path().join("jobless.sqlite3");
    let database = Database::open(&file.to_string_lossy()).unwrap();
    let connection = database.connection();

    let foreign_keys: i64 = connection.query_row("PRAGMA foreign_keys", [], |row| row.get(0)).unwrap();
    let journal_mode: String = connection.query_row("PRAGMA journal_mode", [], |row| row.get(0)).unwrap();

    assert_eq!(foreign_keys, 1);
    assert_eq!(journal_mode.to_lowercase(), "wal");
    assert_eq!(database.path(), file.to_string_lossy());
}

#[test]
fn a_failing_migration_names_itself_and_is_not_recorded() {
    let mut database = Database::open_in_memory().unwrap();
    let migrations = [
        Migration { version: 1, name: "first", sql: "CREATE TABLE first_table (id INTEGER);" },
        Migration { version: 2, name: "broken", sql: "CREATE TABLE first_table (id INTEGER);" },
    ];
    match database.apply_migrations(&migrations) {
        Err(StorageError::Migration { version, name, .. }) => {
            assert_eq!(version, 2);
            assert_eq!(name, "broken");
        }
        other => panic!("expected a migration error, got {other:?}"),
    }
    let count: i64 = database
        .connection()
        .query_row("SELECT COUNT(*) FROM schema_migrations", [], |row| row.get(0))
        .unwrap();
    assert_eq!(count, 1);
}

#[test]
fn opening_from_paths_uses_the_database_file() {
    let root = tempfile::tempdir().unwrap();
    let data = tempfile::Builder::new().prefix("data").rand_bytes(0).tempdir_in(root.path()).unwrap();
    tempfile::Builder::new().prefix("db").rand_bytes(0).tempdir_in(data.path()).unwrap().keep();
    let text = |p: &std::path::Path| p.to_string_lossy().into_owned();
    let paths = AppPaths::from_normalized(text(root.path()), text(&root.path().join("c.toml")), text(data.path()), text(root.path()));
    let database = Database::open_from_paths(&paths).unwrap();
    assert_eq!(database.path(), paths.database_file);
}

#[test]
fn a_missing_directory_is_a_sqlite_error() {
    let root = tempfile::tempdir().unwrap();
    let file = root.path().join("absent/jobless.sqlite3");
    assert!(matches!(Database::open(&file.to_string_lossy()), Err(StorageError::Sqlite(_))));
}

#[test]
fn each_migration_step_is_decided_by_its_answers() {
    let m = Migration { version: 3, name: "third", sql: "SELECT 1;" };
    assert_eq!(migration_step(true, Ok(()), &m), MigrationStep::Skip);
    assert_eq!(migration_step(true, Err("ignored".to_string()), &m), MigrationStep::Skip);
    assert_eq!(migration_step(false, Ok(()), &m), MigrationStep::Applied);
    assert_eq!(
        migration_step(false, Err("disk I/O error".to_string()), &m),
        MigrationStep::Failed(StorageError::Migration {
            version: 3,
            name: "third".to_string(),
            message: "disk I/O error".to_string()
        })
    );
}

#[test]
fn storage_errors_read_as_messages() {
    let error = StorageError::Migration { version: 12, name: "add_jobs".to_string(), message: "syntax error".to_string() };
    assert_eq!(error.message(), "migration 12 `add_jobs` failed: syntax error");
    assert_eq!(StorageError::Sqlite("locked".to_string()).message(), "SQLite error: locked");
}

#[test]
fn a_directory_that_could_not_be_made_is_reported() {
    assert_eq!(database_directory("/data/db/jobless.sqlite3"), Some("/data/db".to_string()));
    assert_eq!(database_directory("/"), None);
    let result = Database::open_in_created_directory("/data/db/jobless.sqlite3", Err("denied".to_string()));
    match result {
        Err(error) => assert_eq!(
            error,
            StorageError::CreateDirectory { path: "/data/db".to_string(), message: "denied".to_string() }
        ),
        Ok(_) => panic!("nothing is opened when the directory could not be made"),
    }
}

#[test]
fn a_made_directory_is_opened_as_usual() {
    let root = tempfile::tempdir().unwrap();
    let file = root.path().join("jobless.sqlite3");
    let database = Database::open_in_created_directory(&file.to_string_lossy(), Ok(())).unwrap();
    assert_eq!(database.path(), file.to_string_lossy());
    let journal_mode: String = database.connection().query_row("PRAGMA journal_mode", [], |row| row.get(0)).unwrap();
    assert_eq!(journal_mode.to_lowercase(), "wal");
}
