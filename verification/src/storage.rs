//! The SQLite database of the client and its schema migrations.
use vstd::prelude::*;

use crate::paths::{opt_view, parent_path, path_eq, path_parent, paths_equal, AppPaths};
use crate::sqlite::{
    begin_transaction, commit_transaction, connection_open, connection_open_in_memory, execute_batch,
    pragma_update, query_has_row, rollback_transaction, set_busy_timeout, transaction_execute,
    transaction_execute_batch, DbEvent, SqliteConnection, SqliteLog,
};
use crate::text::{append_signed, joined, signed_digits};
use vstd::string::StringExecFns;

verus! {

/// One step of the schema.
#[derive(Debug, Clone, Copy)]
pub struct Migration {
    pub version: i64,
    pub name: &'static str,
    pub sql: &'static str,
}

/// The migrations of the schema, oldest first.
pub const MIGRATIONS: [Migration; 0] = [];

/// Why the database could not be opened or brought up to date.
#[derive(Debug, Clone, PartialEq, Eq)]
pub enum StorageError {
    CreateDirectory { path: String, message: String },
    Sqlite(String),
    /// A migration failed; its version and name, and the SQLite message.
    Migration { version: i64, name: String, message: String },
    LockPoisoned,
}

/// How a storage error reads.
pub open spec fn storage_message(e: StorageError) -> Seq<char> {
    match e {
        StorageError::CreateDirectory { path, message } => "failed to create data directory `"@ + path@
            + "`: "@ + message@,
        StorageError::Sqlite(m) => "SQLite error: "@ + m@,
        StorageError::Migration { version, name, message } => "migration "@ + signed_digits(version as int)
            + " `"@ + name@ + "` failed: "@ + message@,
        StorageError::LockPoisoned => "database lock poisoned"@,
    }
}

impl StorageError {
    /// The error as it is shown.
    pub fn message(&self) -> (r: String)
        ensures
            r@ == storage_message(*self),
    {
        match self {
            StorageError::CreateDirectory { path, message } => {
                let mut text = joined("failed to create data directory `", path.as_str());
                text.append("`: ");
                text.append(message.as_str());
                text
            },
            StorageError::Sqlite(m) => joined("SQLite error: ", m.as_str()),
            StorageError::Migration { version, name, message } => {
                let mut text = "migration ".to_string();
                append_signed(&mut text, *version);
                text.append(" `");
                text.append(name.as_str());
                text.append("` failed: ");
                text.append(message.as_str());
                text
            },
            StorageError::LockPoisoned => "database lock poisoned".to_string(),
        }
    }
}

/// The name of the in-memory database.
pub const MEMORY_PATH: &'static str = ":memory:";

/// The table that records which migrations have been applied.
pub const SCHEMA_MIGRATIONS_SQL: &'static str = "CREATE TABLE IF NOT EXISTS schema_migrations (
                version INTEGER PRIMARY KEY,
                name TEXT NOT NULL,
                applied_at TEXT NOT NULL DEFAULT CURRENT_TIMESTAMP
            );";

/// Asks whether a migration version (`?1`) is recorded.
pub const MIGRATION_RECORDED_SQL: &'static str = "SELECT 1 FROM schema_migrations WHERE version = ?1";

/// Records a migration: its version (`?1`) and name (`?2`).
pub const RECORD_MIGRATION_SQL: &'static str = "INSERT INTO schema_migrations (version, name) VALUES (?1, ?2)";

/// The lookup of `m`'s version, with its answer.
pub open spec fn lookup_of(m: Migration, answer: Result<bool, Seq<char>>) -> DbEvent {
    DbEvent::Lookup { sql: MIGRATION_RECORDED_SQL@, version: m.version, answer }
}

/// Migration `m`'s SQL run inside the open transaction, with its answer.
pub open spec fn migration_batch(m: Migration, answer: Result<(), Seq<char>>) -> DbEvent {
    DbEvent::TransactionBatch { sql: m.sql@, answer }
}

/// Migration `m` recorded inside the open transaction, with its answer.
pub open spec fn migration_record(m: Migration, answer: Result<(), Seq<char>>) -> DbEvent {
    DbEvent::TransactionExecute { sql: RECORD_MIGRATION_SQL@, version: m.version, name: m.name@, answer }
}

/// The exchanges that apply migration `m`: it is looked up and not found,
/// a transaction is opened, its SQL runs, it is recorded, and the
/// transaction is committed.
pub open spec fn applied_events(m: Migration) -> Seq<DbEvent> {
    seq![
        lookup_of(m, Ok(false)),
        DbEvent::Begin { answer: Ok(()) },
        migration_batch(m, Ok(())),
        migration_record(m, Ok(())),
        DbEvent::Commit { answer: Ok(()) },
    ]
}

/// `ev` are the exchanges of a run over `ms` in which every step succeeded:
/// each migration is looked up in turn; one found recorded is skipped
/// (nothing of it runs), one not found is applied.
pub open spec fn run_completes(ms: Seq<Migration>, ev: Seq<DbEvent>) -> bool
    decreases ms.len(),
{
    if ms.len() == 0 {
        ev.len() == 0
    } else {
        ||| ev.len() >= 1 && ev.last() == lookup_of(ms.last(), Ok(true)) && run_completes(
            ms.drop_last(),
            ev.drop_last(),
        )
        ||| ev.len() >= 5 && ev.subrange(ev.len() - 5, ev.len() as int) == applied_events(ms.last())
            && run_completes(ms.drop_last(), ev.take(ev.len() - 5))
    }
}

/// `e` is a SQLite error with message `msg`.
pub open spec fn sqlite_error_is(e: StorageError, msg: Seq<char>) -> bool {
    e matches StorageError::Sqlite(t) && t@ == msg
}

/// `e` is the error of migration `m` failing with message `msg`.
pub open spec fn migration_error_is(e: StorageError, m: Migration, msg: Seq<char>) -> bool {
    match e {
        StorageError::Migration { version, name, message } => version == m.version && name@ == m.name@
            && message@ == msg,
        _ => false,
    }
}

/// `event` is the lookup of `m` failing, reported as `e`.
pub open spec fn lookup_failed(m: Migration, event: DbEvent, e: StorageError) -> bool {
    match event {
        DbEvent::Lookup { sql, version, answer: Err(msg) } => sql == MIGRATION_RECORDED_SQL@ && version
            == m.version && sqlite_error_is(e, msg),
        _ => false,
    }
}

/// `event` is a failure to open a transaction, reported as `e`.
pub open spec fn begin_failed(event: DbEvent, e: StorageError) -> bool {
    match event {
        DbEvent::Begin { answer: Err(msg) } => sqlite_error_is(e, msg),
        _ => false,
    }
}

/// `event` is `m`'s SQL failing, reported as an error naming `m`.
pub open spec fn batch_failed(m: Migration, event: DbEvent, e: StorageError) -> bool {
    match event {
        DbEvent::TransactionBatch { sql, answer: Err(msg) } => sql == m.sql@ && migration_error_is(e, m, msg),
        _ => false,
    }
}

/// `event` is `m`'s record failing, reported as an error naming `m`.
pub open spec fn record_failed(m: Migration, event: DbEvent, e: StorageError) -> bool {
    match event {
        DbEvent::TransactionExecute { sql, version, name, answer: Err(msg) } => sql == RECORD_MIGRATION_SQL@
            && version == m.version && name == m.name@ && migration_error_is(e, m, msg),
        _ => false,
    }
}

/// `event` is the commit failing, reported as an error naming `m`.
pub open spec fn commit_failed(m: Migration, event: DbEvent, e: StorageError) -> bool {
    match event {
        DbEvent::Commit { answer: Err(msg) } => migration_error_is(e, m, msg),
        _ => false,
    }
}

/// `ev` are the exchanges of a step on `m` that failed with `e`: the lookup
/// failed; or `m` was not recorded and opening its transaction failed; or
/// its SQL or its record failed, and the transaction was rolled back; or the
/// commit failed. Every failure after the lookup names `m`.
pub open spec fn step_fails(m: Migration, ev: Seq<DbEvent>, e: StorageError) -> bool {
    let opened = seq![lookup_of(m, Ok(false)), DbEvent::Begin { answer: Ok(()) }];
    ||| ev.len() == 1 && lookup_failed(m, ev[0], e)
    ||| ev.len() == 2 && ev[0] == lookup_of(m, Ok(false)) && begin_failed(ev[1], e)
    ||| ev.len() == 4 && ev.take(2) == opened && batch_failed(m, ev[2], e) && ev[3] is Rollback
    ||| ev.len() == 5 && ev.take(3) == opened.push(migration_batch(m, Ok(()))) && record_failed(m, ev[3], e)
        && ev[4] is Rollback
    ||| ev.len() == 5 && ev.take(4) == applied_events(m).take(4) && commit_failed(m, ev[4], e)
}

/// `event` is a failure to create the bookkeeping table, reported as `e`.
pub open spec fn creation_failed(event: DbEvent, e: StorageError) -> bool {
    match event {
        DbEvent::Batch { sql, answer: Err(msg) } => sql == SCHEMA_MIGRATIONS_SQL@ && sqlite_error_is(e, msg),
        _ => false,
    }
}

/// `ev` are the exchanges of a run of `ms` that ended with `r`: the
/// bookkeeping table is created first; then the migrations are taken in
/// order until one fails, and none after it is looked at.
pub open spec fn migration_run(ms: Seq<Migration>, ev: Seq<DbEvent>, r: Result<(), StorageError>) -> bool {
    let created = DbEvent::Batch { sql: SCHEMA_MIGRATIONS_SQL@, answer: Ok(()) };
    match r {
        Ok(()) => ev.len() >= 1 && ev[0] == created && run_completes(ms, ev.drop_first()),
        Err(e) => {
            ||| ev.len() == 1 && creation_failed(ev[0], e)
            ||| ev.len() >= 1 && ev[0] == created && exists|j: int, k: int|
                0 <= j < ms.len() && 1 <= k <= ev.len() && run_completes(ms.take(j), ev.subrange(1, k))
                    && step_fails(ms[j], ev.skip(k), e)
        },
    }
}

/// `r` is the database at `path`, opened, configured and up to date, or the
/// SQLite error that stopped that.
pub open spec fn opened_as(path: Seq<char>, r: Result<Database, StorageError>) -> bool {
    match r {
        Ok(d) => {
            &&& d.wf()
            &&& d.spec_path() == path
            &&& d.spec_log().path() == path
            &&& d.spec_log().busy_timeout_ms() == Some(5_000u64)
            &&& d.spec_log().pragmas() == configured_pragmas(path)
            &&& migration_run(MIGRATIONS@, d.spec_log().events(), Ok(()))
        },
        Err(e) => e is Sqlite,
    }
}

/// The directory the database file at `path` lives in, which has to exist
/// before the file is opened; `None` for a path without one.
pub fn database_directory(path: &str) -> (r: Option<String>)
    ensures
        opt_view(r) == path_parent(path@),
{
    parent_path(path)
}

/// The pragmas a configured database at `path` has set: foreign keys on,
/// then write-ahead logging unless it is in memory.
pub open spec fn configured_pragmas(path: Seq<char>) -> Seq<(Seq<char>, Seq<char>)> {
    if path_eq(path, MEMORY_PATH@) {
        seq![("foreign_keys"@, "ON"@)]
    } else {
        seq![("foreign_keys"@, "ON"@), ("journal_mode"@, "WAL"@)]
    }
}

/// What becomes of one migration once its lookup and, when it ran, its
/// transaction have answered.
#[derive(Debug, Clone, PartialEq, Eq)]
pub enum MigrationStep {
    /// It was recorded already: it is not run.
    Skip,
    /// It ran and was committed.
    Applied,
    /// It failed: the run stops with this error.
    Failed(StorageError),
}

/// A recorded migration is skipped; one that ran is applied when its
/// transaction succeeded, else the run fails with an error naming it.
pub fn migration_step(recorded: bool, outcome: Result<(), String>, m: &Migration) -> (r: MigrationStep)
    ensures
        recorded ==> r == MigrationStep::Skip,
        !recorded && outcome is Ok ==> r == MigrationStep::Applied,
        !recorded && outcome is Err ==> (r matches MigrationStep::Failed(e) && migration_error_is(
            e,
            *m,
            outcome->Err_0@,
        )),
{
    if recorded {
        return MigrationStep::Skip;
    }
    match outcome {
        Ok(()) => MigrationStep::Applied,
        Err(message) => MigrationStep::Failed(
            StorageError::Migration { version: m.version, name: m.name.to_string(), message },
        ),
    }
}

/// How one migration's transaction ended: its error message, if any.
enum TransactionEnd {
    BeginFailed(String),
    Done(Result<(), String>),
}

/// The client's SQLite database.
pub struct Database {
    connection: SqliteConnection,
    log: SqliteLog,
    path: String,
}

impl Database {
    /// The record kept is the record of this connection.
    pub closed spec fn wf(&self) -> bool {
        self.connection.id() == self.log.id()
    }

    pub closed spec fn spec_path(&self) -> Seq<char> {
        self.path@
    }

    /// What was done on the connection.
    pub closed spec fn spec_log(&self) -> SqliteLog {
        self.log
    }

    /// The open connection.
    pub closed spec fn spec_connection(&self) -> rusqlite::Connection {
        self.connection.raw()
    }

    /// Opens the database file at `path` (its directory must exist),
    /// configures it and brings its schema up to date.
    pub fn open(path: &str) -> (r: Result<Self, StorageError>)
        ensures
            opened_as(path@, r),
    {
        let (connection, log) = match connection_open(path) {
            Ok(opened) => opened,
            Err(message) => return Err(StorageError::Sqlite(message)),
        };
        let mut database = Database { connection, log, path: path.to_string() };
        database.configure()?;
        database.apply_migrations(&MIGRATIONS)?;
        assert(database.log.events().skip(0) =~= database.log.events());
        Ok(database)
    }

    /// Opens the database file at `path` once its directory has been made:
    /// `created` is how making `database_directory(path)` went. A failure to
    /// make it is `CreateDirectory`, naming that directory, and nothing is
    /// opened; a path without a directory, or a directory made, is opened as
    /// `open` opens it.
    pub fn open_in_created_directory(path: &str, created: Result<(), String>) -> (r: Result<Self, StorageError>)
        ensures
            match (path_parent(path@), created) {
                (Some(dir), Err(m)) => r matches Err(StorageError::CreateDirectory { path: p, message: q })
                    && p@ == dir && q == m,
                _ => opened_as(path@, r),
            },
    {
        match (parent_path(path), created) {
            (Some(dir), Err(message)) => Err(StorageError::CreateDirectory { path: dir, message }),
            _ => Self::open(path),
        }
    }

    /// Opens the database file of the application paths.
    pub fn open_from_paths(paths: &AppPaths) -> (r: Result<Self, StorageError>)
        ensures
            opened_as(paths.database_file@, r),
    {
        Self::open(paths.database_file.as_str())
    }

    /// Opens a private database in memory, configured and up to date.
    pub fn open_in_memory() -> (r: Result<Self, StorageError>)
        ensures
            r matches Ok(d) ==> {
                &&& d.wf()
                &&& d.spec_path() == MEMORY_PATH@
                &&& d.spec_log().path() == MEMORY_PATH@
                &&& d.spec_log().busy_timeout_ms() == Some(5_000u64)
                &&& d.spec_log().pragmas() == configured_pragmas(MEMORY_PATH@)
                &&& migration_run(MIGRATIONS@, d.spec_log().events(), Ok(()))
            },
            r matches Err(e) ==> e is Sqlite,
    {
        let (connection, log) = match connection_open_in_memory() {
            Ok(opened) => opened,
            Err(message) => return Err(StorageError::Sqlite(message)),
        };
        proof {
            reveal_strlit(":memory:");
        }
        let mut database = Database { connection, log, path: MEMORY_PATH.to_string() };
        database.configure()?;
        database.apply_migrations(&MIGRATIONS)?;
        assert(database.log.events().skip(0) =~= database.log.events());
        Ok(database)
    }

    /// Where the database lives (`:memory:` for the in-memory one).
    pub fn path(&self) -> (r: &str)
        ensures
            r@ == self.spec_path(),
    {
        self.path.as_str()
    }

    /// The open connection of this database, for queries of its own; what
    /// is done through it is not in the record of the connection.
    pub fn connection(&self) -> (r: &rusqlite::Connection)
        ensures
            *r == self.spec_connection(),
    {
        self.connection.raw_connection()
    }

    /// Waits up to 5 s for locks, enforces foreign keys, and uses
    /// write-ahead logging for a database on disk. Stops at the first
    /// setting refused.
    fn configure(&mut self) -> (r: Result<(), StorageError>)
        requires
            old(self).wf(),
        ensures
            final(self).wf(),
            final(self).spec_path() == old(self).spec_path(),
            final(self).spec_log().path() == old(self).spec_log().path(),
            final(self).spec_log().events() == old(self).spec_log().events(),
            r is Ok ==> final(self).spec_log().busy_timeout_ms() == Some(5_000u64)
                && final(self).spec_log().pragmas() == old(self).spec_log().pragmas()
                + configured_pragmas(old(self).spec_path()),
            r matches Err(e) ==> e is Sqlite,
    {
        if let Err(message) = set_busy_timeout(&self.connection, &mut self.log, 5_000) {
            return Err(StorageError::Sqlite(message));
        }
        if let Err(message) = pragma_update(&self.connection, &mut self.log, "foreign_keys", "ON") {
            return Err(StorageError::Sqlite(message));
        }
        if !paths_equal(self.path.as_str(), MEMORY_PATH) {
            if let Err(message) = pragma_update(&self.connection, &mut self.log, "journal_mode", "WAL") {
                return Err(StorageError::Sqlite(message));
            }
        }
        assert(self.log.pragmas() =~= old(self).log.pragmas() + configured_pragmas(old(self).path@));
        Ok(())
    }

    /// Runs migration `m` in a transaction of its own: its SQL, then its
    /// record, then the commit; a failing statement rolls the transaction
    /// back.
    fn run_in_transaction(&mut self, m: &Migration) -> (r: TransactionEnd)
        requires
            old(self).wf(),
        ensures
            final(self).wf(),
            final(self).spec_path() == old(self).spec_path(),
            final(self).spec_log().same_settings(&old(self).spec_log()),
            ({
                let before = old(self).spec_log().events();
                let after = final(self).spec_log().events();
                &&& after.len() >= before.len()
                &&& after.take(before.len() as int) == before
                &&& match r {
                    TransactionEnd::BeginFailed(msg) => after.skip(before.len() as int) == seq![
                        DbEvent::Begin { answer: Err(msg@) },
                    ],
                    TransactionEnd::Done(Ok(())) => after.skip(before.len() as int) == applied_events(*m).skip(1),
                    TransactionEnd::Done(Err(msg)) => {
                        let tail = after.skip(before.len() as int);
                        ||| tail.len() == 3 && tail.take(1) == applied_events(*m).subrange(1, 2)
                            && tail[1] == migration_batch(*m, Err(msg@)) && tail[2] is Rollback
                        ||| tail.len() == 4 && tail.take(2) == applied_events(*m).subrange(1, 3)
                            && tail[2] == migration_record(*m, Err(msg@)) && tail[3] is Rollback
                        ||| tail.len() == 4 && tail.take(3) == applied_events(*m).subrange(1, 4)
                            && tail[3] == (DbEvent::Commit { answer: Err(msg@) })
                    },
                }
            }),
    {
        let ghost before = self.log.events();
        let transaction = match begin_transaction(&mut self.connection, &mut self.log) {
            Ok(transaction) => transaction,
            Err(message) => {
                assert(self.log.events().skip(before.len() as int) =~= seq![
                    DbEvent::Begin { answer: Err(message@) },
                ]);
                assert(self.log.events().take(before.len() as int) =~= before);
                return TransactionEnd::BeginFailed(message);
            },
        };
        if let Err(message) = transaction_execute_batch(&transaction, &mut self.log, m.sql) {
            let _ = rollback_transaction(transaction, &mut self.log);
            proof {
                let tail = self.log.events().skip(before.len() as int);
                assert(tail.take(1) =~= applied_events(*m).subrange(1, 2));
                assert(self.log.events().take(before.len() as int) =~= before);
            }
            return TransactionEnd::Done(Err(message));
        }
        if let Err(message) = transaction_execute(
            &transaction,
            &mut self.log,
            RECORD_MIGRATION_SQL,
            m.version,
            m.name,
        ) {
            let _ = rollback_transaction(transaction, &mut self.log);
            proof {
                let tail = self.log.events().skip(before.len() as int);
                assert(tail.take(2) =~= applied_events(*m).subrange(1, 3));
                assert(self.log.events().take(before.len() as int) =~= before);
            }
            return TransactionEnd::Done(Err(message));
        }
        let outcome = commit_transaction(transaction, &mut self.log);
        proof {
            let tail = self.log.events().skip(before.len() as int);
            assert(self.log.events().take(before.len() as int) =~= before);
            if outcome is Ok {
                assert(tail =~= applied_events(*m).skip(1));
            } else {
                assert(tail.take(3) =~= applied_events(*m).subrange(1, 4));
            }
        }
        TransactionEnd::Done(outcome)
    }

    /// Applies, in order, each migration that `schema_migrations` does not
    /// record yet, each in a transaction of its own that also records it.
    /// A failing step is reported with its migration's version and name, and
    /// stops the run.
    pub fn apply_migrations(&mut self, migrations: &[Migration]) -> (r: Result<(), StorageError>)
        requires
            old(self).wf(),
        ensures
            final(self).wf(),
            final(self).spec_path() == old(self).spec_path(),
            final(self).spec_log().same_settings(&old(self).spec_log()),
            old(self).spec_log().events().len() <= final(self).spec_log().events().len(),
            final(self).spec_log().events().take(old(self).spec_log().events().len() as int)
                == old(self).spec_log().events(),
            migration_run(
                migrations@,
                final(self).spec_log().events().skip(old(self).spec_log().events().len() as int),
                r,
            ),
    {
        let ghost start = self.log.events().len();
        let created = execute_batch(&self.connection, &mut self.log, SCHEMA_MIGRATIONS_SQL);
        if let Err(message) = created {
            proof {
                assert(self.log.events().skip(start as int) =~= seq![
                    DbEvent::Batch { sql: SCHEMA_MIGRATIONS_SQL@, answer: Err(message@) },
                ]);
                assert(self.log.events().take(start as int) =~= old(self).log.events());
            }
            return Err(StorageError::Sqlite(message));
        }
        let ghost base = self.log.events().len();
        assert(self.log.events().take(start as int) =~= old(self).log.events());
        assert(migrations@.take(0) =~= Seq::<Migration>::empty());
        assert(self.log.events().skip(base as int) =~= Seq::<DbEvent>::empty());
        let mut i: usize = 0;
        while i < migrations.len()
            invariant
                i <= migrations@.len(),
                base == start + 1,
                self.wf(),
                self.path@ == old(self).path@,
                self.log.same_settings(&old(self).log),
                start == old(self).log.events().len(),
                base <= self.log.events().len(),
                self.log.events().take(start as int) == old(self).log.events(),
                self.log.events()[start as int] == (DbEvent::Batch {
                    sql: SCHEMA_MIGRATIONS_SQL@,
                    answer: Ok(()),
                }),
                run_completes(migrations@.take(i as int), self.log.events().skip(base as int)),
            decreases migrations@.len() - i,
        {
            let migration = migrations[i];
            assert(migrations@[i as int] == migration);
            let ghost before = self.log.events();
            let recorded = query_has_row(&self.connection, &mut self.log, MIGRATION_RECORDED_SQL, migration.version);
            let recorded = match recorded {
                Ok(recorded) => recorded,
                Err(message) => {
                    proof {
                        let ev = self.log.events().skip(start as int);
                        let k = before.len() - start;
                        assert(ev.subrange(1, k) =~= before.skip(base as int));
                        assert(ev.skip(k) =~= seq![
                            DbEvent::Lookup {
                                sql: MIGRATION_RECORDED_SQL@,
                                version: migration.version,
                                answer: Err(message@),
                            },
                        ]);
                        assert(step_fails(migration, ev.skip(k), StorageError::Sqlite(message)));
                        assert(ev[0] == self.log.events()[start as int]);
                        assert(self.log.events().take(start as int) =~= before.take(start as int));
                    }
                    return Err(StorageError::Sqlite(message));
                },
            };
            let ghost looked = self.log.events();
            proof {
                assert(looked =~= before.push(lookup_of(migration, Ok(recorded))));
                let done = migrations@.take(i + 1);
                assert(done.drop_last() =~= migrations@.take(i as int));
                assert(done.last() == migration);
            }
            if recorded {
                let step = migration_step(true, Ok(()), &migration);
                assert(step == MigrationStep::Skip);
                proof {
                    let ev = self.log.events().skip(base as int);
                    assert(ev.drop_last() =~= before.skip(base as int));
                    assert(self.log.events().take(start as int) =~= before.take(start as int));
                }
            } else {
                match self.run_in_transaction(&migration) {
                    TransactionEnd::BeginFailed(message) => {
                        proof {
                            let ev = self.log.events().skip(start as int);
                            let k = before.len() - start;
                            assert(self.log.events() =~= looked + seq![DbEvent::Begin { answer: Err(message@) }]);
                            assert(ev.subrange(1, k) =~= before.skip(base as int));
                            assert(ev.skip(k) =~= seq![
                                lookup_of(migration, Ok(false)),
                                DbEvent::Begin { answer: Err(message@) },
                            ]);
                            assert(step_fails(migration, ev.skip(k), StorageError::Sqlite(message)));
                            assert(ev[0] == self.log.events()[start as int]);
                            assert(self.log.events().take(start as int) =~= before.take(start as int));
                        }
                        return Err(StorageError::Sqlite(message));
                    },
                    TransactionEnd::Done(outcome) => {
                        let ghost after = self.log.events();
                        proof {
                            assert(after =~= looked + after.skip(looked.len() as int));
                            assert(after.take(start as int) =~= before.take(start as int));
                            assert(after.subrange((start + 1) as int, before.len() as int) =~= before.skip(base as int));
                        }
                        match migration_step(false, outcome, &migration) {
                            MigrationStep::Failed(error) => {
                                proof {
                                    let ev = after.skip(start as int);
                                    let k = before.len() - start;
                                    let tail = ev.skip(k);
                                    let rest = after.skip(looked.len() as int);
                                    assert(tail =~= seq![lookup_of(migration, Ok(false))] + rest);
                                    assert(ev.subrange(1, k) =~= before.skip(base as int));
                                    assert(tail.take(2) =~= seq![lookup_of(migration, Ok(false))] + rest.take(1));
                                    assert(tail.take(3) =~= seq![lookup_of(migration, Ok(false))] + rest.take(2));
                                    assert(rest.len() == 4 ==> tail.take(4) =~= seq![lookup_of(migration, Ok(false))]
                                        + rest.take(3));
                                    assert(applied_events(migration).take(4) =~= seq![lookup_of(migration, Ok(false))]
                                        + applied_events(migration).subrange(1, 4));
                                    assert(seq![lookup_of(migration, Ok(false)), DbEvent::Begin { answer: Ok(()) }]
                                        =~= seq![lookup_of(migration, Ok(false))] + applied_events(migration).subrange(1, 2));
                                    assert(seq![lookup_of(migration, Ok(false)), DbEvent::Begin { answer: Ok(()) }].push(
                                        migration_batch(migration, Ok(())),
                                    ) =~= seq![lookup_of(migration, Ok(false))] + applied_events(migration).subrange(1, 3));
                                    assert(step_fails(migration, tail, error));
                                    assert(ev[0] == after[start as int]);
                                }
                                return Err(error);
                            },
                            _ => {
                                proof {
                                    let ev = after.skip(base as int);
                                    assert(after.len() == before.len() + 5);
                                    assert(ev.take(ev.len() - 5) =~= before.skip(base as int));
                                    assert(ev.subrange(ev.len() - 5, ev.len() as int) =~= seq![
                                        lookup_of(migration, Ok(false)),
                                    ] + after.skip(looked.len() as int));
                                    assert(applied_events(migration) =~= seq![lookup_of(migration, Ok(false))]
                                        + applied_events(migration).skip(1));
                                }
                            },
                        }
                    },
                }
            }
            i = i + 1;
        }
        proof {
            assert(migrations@.take(migrations@.len() as int) =~= migrations@);
            let ev = self.log.events().skip(start as int);
            assert(ev.drop_first() =~= self.log.events().skip(base as int));
        }
        Ok(())
    }
}

/// Every configured database enforces foreign keys, in memory or on disk,
/// and that is set first; write-ahead logging is set exactly for databases
/// that are not the in-memory one.
pub proof fn every_database_enforces_foreign_keys(path: Seq<char>)
    ensures
        configured_pragmas(path).len() >= 1,
        configured_pragmas(path)[0] == ("foreign_keys"@, "ON"@),
        configured_pragmas(path).contains(("journal_mode"@, "WAL"@)) <==> !path_eq(path, MEMORY_PATH@),
{
    if !path_eq(path, MEMORY_PATH@) {
        assert(configured_pragmas(path)[1] == ("journal_mode"@, "WAL"@));
    } else {
        assert("foreign_keys"@ != "journal_mode"@) by {
            reveal_strlit("foreign_keys");
            reveal_strlit("journal_mode");
            assert("foreign_keys"@[0] != "journal_mode"@[0]);
        }
        assert(!configured_pragmas(path).contains(("journal_mode"@, "WAL"@))) by {
            if configured_pragmas(path).contains(("journal_mode"@, "WAL"@)) {
                let k = choose|k: int|
                    0 <= k < configured_pragmas(path).len() && configured_pragmas(path)[k] == (
                        "journal_mode"@,
                        "WAL"@,
                    );
                assert(k == 0);
            }
        }
    }
}

} // verus!
