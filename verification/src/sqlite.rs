//! SQLite as the library sees it: a connection, its transactions, and a
//! record of every exchange made with them. Only the calls into SQLite below
//! add to that record.
use vstd::prelude::*;

verus! {

/// `rusqlite::Connection`: an open SQLite database.
#[verifier::external_type_specification]
#[verifier::external_body]
pub struct ExConnection(rusqlite::Connection);

/// `rusqlite::Transaction`: a transaction on a connection.
#[verifier::external_type_specification]
#[verifier::external_body]
pub struct ExTransaction<'conn>(rusqlite::Transaction<'conn>);

/// One exchange with SQLite, with its answer.
pub enum DbEvent {
    /// A batch run on the connection.
    Batch { sql: Seq<char>, answer: Result<(), Seq<char>> },
    /// A query run with `version` as its parameter; whether it gave a row.
    Lookup { sql: Seq<char>, version: i64, answer: Result<bool, Seq<char>> },
    /// A transaction was opened.
    Begin { answer: Result<(), Seq<char>> },
    /// A batch run inside the open transaction.
    TransactionBatch { sql: Seq<char>, answer: Result<(), Seq<char>> },
    /// A statement run inside the open transaction with `version` and
    /// `name` as its parameters.
    TransactionExecute { sql: Seq<char>, version: i64, name: Seq<char>, answer: Result<(), Seq<char>> },
    /// The open transaction was committed.
    Commit { answer: Result<(), Seq<char>> },
    /// The open transaction was rolled back.
    Rollback { answer: Result<(), Seq<char>> },
}

/// The view of an answer that carries an error message.
pub open spec fn answer_view<T>(r: Result<T, String>) -> Result<T, Seq<char>> {
    match r {
        Ok(v) => Ok(v),
        Err(m) => Err(m@),
    }
}

/// The view of an answer, its value dropped.
pub open spec fn outcome_view<T>(r: Result<T, String>) -> Result<(), Seq<char>> {
    match r {
        Ok(_) => Ok(()),
        Err(m) => Err(m@),
    }
}

/// An open SQLite connection.
pub struct SqliteConnection {
    inner: rusqlite::Connection,
    id: Ghost<int>,
}

impl SqliteConnection {
    /// The name that ties the connection to its record and its
    /// transactions. Opening a connection says only that its record carries
    /// the same name, so a record can be proved to be of a connection only
    /// when both came from one opening.
    pub closed spec fn id(&self) -> int {
        self.id@
    }

    pub closed spec fn raw(&self) -> rusqlite::Connection {
        self.inner
    }

    /// The underlying connection.
    pub(crate) fn raw_connection(&self) -> (r: &rusqlite::Connection)
        ensures
            *r == self.raw(),
    {
        &self.inner
    }
}

/// A transaction open on a connection.
pub struct SqliteTransaction<'conn> {
    inner: rusqlite::Transaction<'conn>,
    id: Ghost<int>,
}

impl<'conn> SqliteTransaction<'conn> {
    /// The name of the connection the transaction is open on.
    pub closed spec fn id(&self) -> int {
        self.id@
    }
}

/// What was done on one connection: the path it was opened on, the busy
/// timeout set, the pragmas accepted (in order), and every exchange made.
pub struct SqliteLog {
    id: Ghost<int>,
    path: Ghost<Seq<char>>,
    busy_timeout_ms: Ghost<Option<u64>>,
    pragmas: Ghost<Seq<(Seq<char>, Seq<char>)>>,
    events: Ghost<Seq<DbEvent>>,
}

impl SqliteLog {
    /// The name of the connection recorded.
    pub closed spec fn id(&self) -> int {
        self.id@
    }

    pub closed spec fn path(&self) -> Seq<char> {
        self.path@
    }

    pub closed spec fn busy_timeout_ms(&self) -> Option<u64> {
        self.busy_timeout_ms@
    }

    pub closed spec fn pragmas(&self) -> Seq<(Seq<char>, Seq<char>)> {
        self.pragmas@
    }

    pub closed spec fn events(&self) -> Seq<DbEvent> {
        self.events@
    }

    /// Nothing but the events changed.
    pub open spec fn same_settings(&self, other: &SqliteLog) -> bool {
        &&& self.id() == other.id()
        &&& self.path() == other.path()
        &&& self.busy_timeout_ms() == other.busy_timeout_ms()
        &&& self.pragmas() == other.pragmas()
    }
}

/// `rusqlite::Connection::open`: a connection on `path`, with nothing done
/// on it yet.
#[verifier::external_body]
pub(crate) fn connection_open(path: &str) -> (r: Result<(SqliteConnection, SqliteLog), String>)
    ensures
        r matches Ok((c, log)) ==> log.id() == c.id() && log.path() == path@ && log.busy_timeout_ms() is None
            && log.pragmas().len() == 0 && log.events().len() == 0,
{
    match rusqlite::Connection::open(path) {
        Ok(inner) => Ok((
            SqliteConnection { inner, id: Ghost(0int) },
            SqliteLog {
                id: Ghost(0int),
                path: Ghost(path@),
                busy_timeout_ms: Ghost(None),
                pragmas: Ghost(Seq::empty()),
                events: Ghost(Seq::empty()),
            },
        )),
        Err(error) => Err(error.to_string()),
    }
}

/// `rusqlite::Connection::open_in_memory`: a connection on a private
/// in-memory database (named `:memory:`), with nothing done on it yet.
#[verifier::external_body]
pub(crate) fn connection_open_in_memory() -> (r: Result<(SqliteConnection, SqliteLog), String>)
    ensures
        r matches Ok((c, log)) ==> log.id() == c.id() && log.path() == ":memory:"@ && log.busy_timeout_ms() is None
            && log.pragmas().len() == 0 && log.events().len() == 0,
{
    match rusqlite::Connection::open_in_memory() {
        Ok(inner) => Ok((
            SqliteConnection { inner, id: Ghost(0int) },
            SqliteLog {
                id: Ghost(0int),
                path: Ghost(":memory:"@),
                busy_timeout_ms: Ghost(None),
                pragmas: Ghost(Seq::empty()),
                events: Ghost(Seq::empty()),
            },
        )),
        Err(error) => Err(error.to_string()),
    }
}

/// `rusqlite::Connection::busy_timeout`, in milliseconds; it panics on a
/// timeout that does not fit in an `i32`, hence the bound. Once accepted, the
/// timeout is the one set.
#[verifier::external_body]
pub(crate) fn set_busy_timeout(connection: &SqliteConnection, log: &mut SqliteLog, millis: u64) -> (r: Result<
    (),
    String,
>)
    requires
        connection.id() == old(log).id(),
        millis <= 2147483647,
    ensures
        final(log).id() == old(log).id(),
        final(log).busy_timeout_ms() == if r is Ok {
            Some(millis)
        } else {
            old(log).busy_timeout_ms()
        },
        final(log).path() == old(log).path(),
        final(log).pragmas() == old(log).pragmas(),
        final(log).events() == old(log).events(),
{
    connection.inner.busy_timeout(std::time::Duration::from_millis(millis)).map_err(|error| error.to_string())
}

/// `rusqlite::Connection::pragma_update` in the main schema; an accepted
/// pragma is added to those set.
#[verifier::external_body]
pub(crate) fn pragma_update(connection: &SqliteConnection, log: &mut SqliteLog, name: &str, value: &str) -> (r:
    Result<(), String>)
    requires
        connection.id() == old(log).id(),
    ensures
        final(log).id() == old(log).id(),
        final(log).pragmas() == if r is Ok {
            old(log).pragmas().push((name@, value@))
        } else {
            old(log).pragmas()
        },
        final(log).path() == old(log).path(),
        final(log).busy_timeout_ms() == old(log).busy_timeout_ms(),
        final(log).events() == old(log).events(),
{
    connection.inner.pragma_update(None, name, value).map_err(|error| error.to_string())
}

/// `rusqlite::Connection::execute_batch`.
#[verifier::external_body]
pub(crate) fn execute_batch(connection: &SqliteConnection, log: &mut SqliteLog, sql: &str) -> (r: Result<
    (),
    String,
>)
    requires
        connection.id() == old(log).id(),
    ensures
        final(log).events() == old(log).events().push(DbEvent::Batch { sql: sql@, answer: answer_view(r) }),
        final(log).same_settings(&*old(log)),
{
    connection.inner.execute_batch(sql).map_err(|error| error.to_string())
}

/// `rusqlite::Connection::query_row` with `OptionalExtension::optional`:
/// runs `sql` with `version` as its parameter and tells whether it gave a
/// row.
#[verifier::external_body]
pub(crate) fn query_has_row(connection: &SqliteConnection, log: &mut SqliteLog, sql: &str, version: i64) -> (r:
    Result<bool, String>)
    requires
        connection.id() == old(log).id(),
    ensures
        final(log).events() == old(log).events().push(
            DbEvent::Lookup { sql: sql@, version, answer: answer_view(r) },
        ),
        final(log).same_settings(&*old(log)),
{
    rusqlite::OptionalExtension::optional(connection.inner.query_row(sql, [version], |_| Ok(())))
        .map(|row| row.is_some())
        .map_err(|error| error.to_string())
}

/// `rusqlite::Connection::transaction`: opens a transaction.
#[verifier::external_body]
pub(crate) fn begin_transaction<'c>(connection: &'c mut SqliteConnection, log: &mut SqliteLog) -> (r: Result<
    SqliteTransaction<'c>,
    String,
>)
    requires
        old(connection).id() == old(log).id(),
    ensures
        final(log).events() == old(log).events().push(DbEvent::Begin { answer: outcome_view(r) }),
        final(log).same_settings(&*old(log)),
        final(connection).id() == old(connection).id(),
        r matches Ok(t) ==> t.id() == old(connection).id(),
{
    let id = connection.id;
    match connection.inner.transaction() {
        Ok(inner) => Ok(SqliteTransaction { inner, id }),
        Err(error) => Err(error.to_string()),
    }
}

/// `rusqlite::Connection::execute_batch` inside a transaction.
#[verifier::external_body]
pub(crate) fn transaction_execute_batch(transaction: &SqliteTransaction<'_>, log: &mut SqliteLog, sql: &str) -> (r:
    Result<(), String>)
    requires
        transaction.id() == old(log).id(),
    ensures
        final(log).events() == old(log).events().push(
            DbEvent::TransactionBatch { sql: sql@, answer: answer_view(r) },
        ),
        final(log).same_settings(&*old(log)),
{
    transaction.inner.execute_batch(sql).map_err(|error| error.to_string())
}

/// `rusqlite::Connection::execute` inside a transaction, with `version` and
/// `name` as its two parameters.
#[verifier::external_body]
pub(crate) fn transaction_execute(
    transaction: &SqliteTransaction<'_>,
    log: &mut SqliteLog,
    sql: &str,
    version: i64,
    name: &str,
) -> (r: Result<(), String>)
    requires
        transaction.id() == old(log).id(),
    ensures
        final(log).events() == old(log).events().push(
            DbEvent::TransactionExecute { sql: sql@, version, name: name@, answer: outcome_view(r) },
        ),
        final(log).same_settings(&*old(log)),
{
    transaction.inner.execute(sql, (version, name)).map(|_| ()).map_err(|error| error.to_string())
}

/// `rusqlite::Transaction::commit`.
#[verifier::external_body]
pub(crate) fn commit_transaction(transaction: SqliteTransaction<'_>, log: &mut SqliteLog) -> (r: Result<(), String>)
    requires
        transaction.id() == old(log).id(),
    ensures
        final(log).events() == old(log).events().push(DbEvent::Commit { answer: answer_view(r) }),
        final(log).same_settings(&*old(log)),
{
    transaction.inner.commit().map_err(|error| error.to_string())
}

/// `rusqlite::Transaction::rollback`.
#[verifier::external_body]
pub(crate) fn rollback_transaction(transaction: SqliteTransaction<'_>, log: &mut SqliteLog) -> (r: Result<
    (),
    String,
>)
    requires
        transaction.id() == old(log).id(),
    ensures
        final(log).events() == old(log).events().push(DbEvent::Rollback { answer: answer_view(r) }),
        final(log).same_settings(&*old(log)),
{
    transaction.inner.rollback().map_err(|error| error.to_string())
}

} // verus!
