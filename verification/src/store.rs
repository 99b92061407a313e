use vstd::prelude::*;

use crate::Credential;
use crate::StoreError;
use crate::listing::ListEntry;
use crate::listing::entries_view;
use crate::model::Db;
use crate::model::empty_db;
use crate::model::field_category;
use crate::model::field_password;
use crate::model::field_username;
use crate::model::listing_of;

verus! {

#[verifier::external_type_specification]
#[verifier::external_body]
pub struct ExConnection(rusqlite::Connection);

/// What the backing database holds: every persisted credential, keyed by its
/// globally unique name. The store assumes the single-user model of its
/// design: one process holds the connection, and nothing else writes the
/// file while it does.
pub uninterp spec fn db_of(conn: rusqlite::Connection) -> Db;

/// Relies on rusqlite::Connection::open: opens the database file at `path`,
/// creating it when absent. Nothing is known of the rows the file holds.
#[verifier::external_body]
fn open_connection(path: &str) -> (r: Result<rusqlite::Connection, StoreError>)
{
    rusqlite::Connection::open(path).map_err(|_| StoreError::StorageFailure)
}

/// Relies on rusqlite::Connection::execute running CREATE TABLE: on success
/// the credentials table exists and holds no rows; on failure (the table is
/// already there, or the database is unusable) the single failed SQLite
/// statement changes nothing.
#[verifier::external_body]
fn exec_create_table(conn: &mut rusqlite::Connection) -> (r: Result<(), StoreError>)
    ensures
        r is Ok ==> db_of(*final(conn)) == empty_db(),
        r is Err ==> db_of(*final(conn)) == db_of(*old(conn)),
{
    conn.execute(
        "CREATE TABLE credentials (
            id              INTEGER PRIMARY KEY,
            name            TEXT UNIQUE NOT NULL,
            category        TEXT,
            username        TEXT,
            password        TEXT
        )",
        (),
    ).map(|_| ()).map_err(|_| StoreError::StorageFailure)
}

/// Relies on rusqlite::Connection::execute running INSERT: on success one
/// new row with the given fields is added, which the UNIQUE constraint on
/// name permits only when the name was absent; a failed statement changes
/// nothing, and a constraint violation is reported only for a name already
/// present.
#[verifier::external_body]
fn exec_insert(
    conn: &mut rusqlite::Connection,
    name: &str,
    category: &str,
    username: &str,
    password: &str,
) -> (r: Result<(), StoreError>)
    ensures
        r is Ok ==> !db_of(*old(conn)).contains_key(name@) && db_of(*final(conn)) == db_of(
            *old(conn),
        ).insert(name@, (category@, username@, password@)),
        r is Err ==> db_of(*final(conn)) == db_of(*old(conn)),
        r matches Err(e) && e == StoreError::DuplicateName ==> db_of(*old(conn)).contains_key(
            name@,
        ),
        r matches Err(e) ==> e != StoreError::NotFound,
{
    match conn.execute(
        "INSERT INTO credentials (name, category, username, password) values (?1, ?2, ?3, ?4)",
        (name, category, username, password),
    ) {
        Ok(_) => Ok(()),
        Err(rusqlite::Error::SqliteFailure(f, _)) if f.code
            == rusqlite::ErrorCode::ConstraintViolation => Err(StoreError::DuplicateName),
        Err(_) => Err(StoreError::StorageFailure),
    }
}

/// Relies on rusqlite::Connection::query_row over SELECT count(*): the
/// number of rows whose name equals `name`, which is nonzero exactly when
/// the name is present.
#[verifier::external_body]
fn query_name_count(conn: &rusqlite::Connection, name: &str) -> (r: Result<i64, StoreError>)
    ensures
        r matches Ok(k) ==> (k != 0 <==> db_of(*conn).contains_key(name@)),
{
    conn.query_row("SELECT count(*) FROM credentials WHERE name = ?1", (name,), |row| row.get(0))
        .map_err(|_| StoreError::StorageFailure)
}

/// Relies on rusqlite::Connection::query_row over SELECT by name: yields the
/// one matching row's columns (rusqlite::Row::get reads each), and reports
/// QueryReturnedNoRows exactly when no row carries the name.
#[verifier::external_body]
fn query_credential(conn: &rusqlite::Connection, name: &str) -> (r: Result<Credential, StoreError>)
    ensures
        r matches Ok(c) ==> db_of(*conn).contains_key(name@) && c.name@ == name@ && db_of(*conn)[
            name@
        ] == (c.category@, c.username@, c.password@),
        r matches Err(e) && e == StoreError::NotFound ==> !db_of(*conn).contains_key(name@),
        r matches Err(e) ==> e != StoreError::DuplicateName,
{
    match conn.query_row(
        "SELECT id, name, category, username, password FROM credentials WHERE name = ?1",
        (name,),
        |row| Ok(Credential {
            id: row.get(0)?,
            name: row.get(1)?,
            category: row.get(2)?,
            username: row.get(3)?,
            password: row.get(4)?,
        }),
    ) {
        Ok(c) => Ok(c),
        Err(rusqlite::Error::QueryReturnedNoRows) => Err(StoreError::NotFound),
        Err(_) => Err(StoreError::StorageFailure),
    }
}

/// Relies on rusqlite::Statement::query_map over SELECT ... ORDER BY
/// category, name: every row of the table appears exactly once with its
/// stored category and name, ordered ascending by category and then name
/// (SQLite's BINARY collation, byte order on UTF-8 text, which agrees with
/// code-point order).
#[verifier::external_body]
fn select_all_entries(conn: &rusqlite::Connection) -> (r: Result<Vec<ListEntry>, StoreError>)
    ensures
        r matches Ok(v) ==> listing_of(db_of(*conn), None, entries_view(v@)),
{
    conn.prepare("SELECT category, name FROM credentials ORDER BY category, name")
        .and_then(|mut stmt| {
            stmt.query_map((), |row| Ok(ListEntry { category: row.get(0)?, name: row.get(1)? }))?
                .collect::<Result<Vec<ListEntry>, rusqlite::Error>>()
        })
        .map_err(|_| StoreError::StorageFailure)
}

/// Relies on rusqlite::Statement::query_map over SELECT ... WHERE category
/// = ?1 ORDER BY category, name: exactly the rows whose category equals the
/// filter, each once, ordered as in select_all_entries.
#[verifier::external_body]
fn select_entries_in_category(conn: &rusqlite::Connection, category: &str) -> (r: Result<
    Vec<ListEntry>,
    StoreError,
>)
    ensures
        r matches Ok(v) ==> listing_of(db_of(*conn), Some(category@), entries_view(v@)),
{
    conn.prepare(
        "SELECT category, name FROM credentials WHERE category = ?1 ORDER BY category, name",
    )
        .and_then(|mut stmt| {
            stmt.query_map(
                (category,),
                |row| Ok(ListEntry { category: row.get(0)?, name: row.get(1)? }),
            )?.collect::<Result<Vec<ListEntry>, rusqlite::Error>>()
        })
        .map_err(|_| StoreError::StorageFailure)
}

/// The credential store: owns the connection to the backing database and
/// every read or write of persisted credentials.
pub struct Store {
    conn: rusqlite::Connection,
}

impl Store {
    /// The store's mathematical content: each persisted credential's
    /// category, username and password, keyed by its unique name.
    pub closed spec fn db(self) -> Db {
        db_of(self.conn)
    }

    /// Opens (creating if necessary) the backing file and, unless the file
    /// already existed with its schema, creates the credentials table. A
    /// store bootstrapped over a fresh file holds no credentials; over an
    /// already-initialized file only the open is performed, so the rows it
    /// holds are left as they were.
    pub fn bootstrap(path: &str, already_initialized: bool) -> (r: Result<Store, StoreError>)
        ensures
            r matches Ok(s) ==> (!already_initialized ==> s.db() == empty_db()),
    {
        let conn = match open_connection(path) {
            Ok(c) => c,
            Err(e) => {
                return Err(e);
            },
        };
        let mut store = Store { conn };
        if !already_initialized {
            match exec_create_table(&mut store.conn) {
                Ok(()) => Ok(store),
                Err(e) => Err(e),
            }
        } else {
            Ok(store)
        }
    }

    /// Whether a credential named `name` is present. A present name is
    /// always reported as present; `false` comes only for a name that is
    /// truly absent (when the backing database cannot be read at all, the
    /// check answers `true` and the caller declines to insert, never the
    /// other way round).
    pub fn name_exists(&self, name: &str) -> (r: bool)
        ensures
            self.db().contains_key(name@) ==> r,
            !r ==> !self.db().contains_key(name@),
    {
        match query_name_count(&self.conn, name) {
            Ok(k) => k != 0,
            Err(_) => true,
        }
    }

    /// Appends one new credential. Success is possible only for a name not
    /// yet present, and then the store afterward holds exactly the old
    /// credentials plus the new one; any failure leaves the store unchanged,
    /// and a duplicate-name failure is reported only for a name already
    /// taken.
    pub fn insert(&mut self, name: &str, category: &str, username: &str, password: &str) -> (r:
        Result<(), StoreError>)
        ensures
            r is Ok ==> !old(self).db().contains_key(name@) && final(self).db() == old(
                self,
            ).db().insert(name@, (category@, username@, password@)),
            r is Err ==> final(self).db() == old(self).db(),
            r matches Err(e) && e == StoreError::DuplicateName ==> old(self).db().contains_key(
                name@,
            ),
            r matches Err(e) ==> e != StoreError::NotFound,
    {
        exec_insert(&mut self.conn, name, category, username, password)
    }

    /// Exact-match lookup. A returned credential carries the requested name
    /// and exactly the category, username and password stored under it; a
    /// not-found failure is reported only for a name that is truly absent.
    pub fn get_by_name(&self, name: &str) -> (r: Result<Credential, StoreError>)
        ensures
            r matches Ok(c) ==> self.db().contains_key(name@) && c.name@ == name@
                && c.category@ == field_category(self.db()[name@]) && c.username@
                == field_username(self.db()[name@]) && c.password@ == field_password(
                self.db()[name@],
            ),
            r matches Err(e) && e == StoreError::NotFound ==> !self.db().contains_key(name@),
            r matches Err(e) ==> e != StoreError::DuplicateName,
    {
        query_credential(&self.conn, name)
    }

    /// Category-ordered enumeration. Under `None` every credential appears
    /// exactly once; under `Some(c)` exactly those whose category equals `c`
    /// (so an empty-string filter selects the uncategorized ones). The rows
    /// come ascending by category and then by name.
    pub fn list(&self, category: Option<&str>) -> (r: Result<Vec<ListEntry>, StoreError>)
        ensures
            r matches Ok(v) ==> match category {
                Some(c) => listing_of(self.db(), Some(c@), entries_view(v@)),
                None => listing_of(self.db(), None, entries_view(v@)),
            },
    {
        match category {
            Some(c) => select_entries_in_category(&self.conn, c),
            None => select_all_entries(&self.conn),
        }
    }
}

} // verus!

