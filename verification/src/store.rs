//! The secret store: a persistent mapping from secret name to ciphertext
//! blob, kept in one SQLite table of (name, ciphertext) pairs. Name
//! uniqueness is an application-level invariant: the insert here demands
//! that the name is absent, and the vault operations check before they
//! insert. The store is modelled by [`table_of`], the map that a
//! connection serves; every statement run against the table says in its
//! contract what it does to that map. A failed statement comes out as its
//! message text.

use vstd::prelude::*;

verus! {

use crate::Error;

#[verifier::external_type_specification]
#[verifier::external_body]
pub struct ExConnection(rusqlite::Connection);

/// The vault table that `conn` serves: for each live secret name, the
/// ciphertext blob stored under it.
pub uninterp spec fn table_of(conn: rusqlite::Connection) -> Map<Seq<char>, Seq<u8>>;

/// Relies on rusqlite::Connection::open: it opens the SQLite database at
/// the given path, creating the file when it is absent. What it returns
/// depends on the disk, so nothing more is stated.
#[verifier::external_body]
fn open_db(p_path: &str) -> Result<rusqlite::Connection, String> {
    match rusqlite::Connection::open(p_path) {
        Ok(conn) => Ok(conn),
        Err(err) => Err(format!("{}", err)),
    }
}

/// Relies on rusqlite::Connection::execute running CREATE TABLE IF NOT
/// EXISTS: it only creates the table when it is absent and never touches
/// existing rows, so the served mapping is unchanged.
#[verifier::external_body]
fn create_table(p_conn: &mut rusqlite::Connection) -> (r: Result<(), String>)
    ensures
        table_of(*final(p_conn)) == table_of(*old(p_conn)),
{
    match p_conn.execute("CREATE TABLE IF NOT EXISTS passwords (name TEXT, password BLOB);", ()) {
        Ok(_) => Ok(()),
        Err(err) => Err(format!("{}", err)),
    }
}

/// Relies on rusqlite's Connection::prepare and Statement::exists on
/// SELECT ... WHERE name = ?: whether some row carries the name.
#[verifier::external_body]
pub(crate) fn db_exists(p_conn: &rusqlite::Connection, p_name: &str) -> (r: Result<bool, String>)
    ensures
        r matches Ok(b) ==> b == table_of(*p_conn).contains_key(p_name@),
{
    let mut statement = match p_conn.prepare("SELECT name FROM passwords WHERE name = ?") {
        Ok(statement) => statement,
        Err(err) => return Err(format!("{}", err)),
    };
    match statement.exists([p_name]) {
        Ok(answer) => Ok(answer),
        Err(err) => Err(format!("{}", err)),
    }
}

/// Relies on rusqlite::Connection::execute running INSERT INTO passwords:
/// it adds the one row and nothing else, and on failure changes nothing.
#[verifier::external_body]
pub(crate) fn db_insert(p_conn: &mut rusqlite::Connection, p_name: &str, p_blob: &[u8]) -> (r:
    Result<(), String>)
    requires
        !table_of(*old(p_conn)).contains_key(p_name@),
    ensures
        r is Ok ==> table_of(*final(p_conn)) == table_of(*old(p_conn)).insert(p_name@, p_blob@),
        r is Err ==> table_of(*final(p_conn)) == table_of(*old(p_conn)),
{
    match p_conn.execute("INSERT INTO passwords VALUES (?, ?)", (p_name, p_blob)) {
        Ok(_) => Ok(()),
        Err(err) => Err(format!("{}", err)),
    }
}

/// Relies on rusqlite's Connection::prepare and Statement::query_map on
/// SELECT ... WHERE name = ?: the blob stored under the name, or nothing
/// when no row carries it.
#[verifier::external_body]
pub(crate) fn db_get(p_conn: &rusqlite::Connection, p_name: &str) -> (r: Result<
    Option<Vec<u8>>,
    String,
>)
    ensures
        r matches Ok(Some(blob)) ==> table_of(*p_conn).contains_key(p_name@) && table_of(
            *p_conn,
        )[p_name@] == blob@,
        r matches Ok(None) ==> !table_of(*p_conn).contains_key(p_name@),
{
    let mut statement = match p_conn.prepare("SELECT * FROM passwords WHERE name = ?;") {
        Ok(statement) => statement,
        Err(err) => return Err(format!("{}", err)),
    };
    let mut rows = match statement.query_map([p_name], |row| row.get::<usize, Vec<u8>>(1)) {
        Ok(rows) => rows,
        Err(err) => return Err(format!("{}", err)),
    };
    match rows.next() {
        Some(Ok(blob)) => Ok(Some(blob)),
        Some(Err(err)) => Err(format!("{}", err)),
        None => Ok(None),
    }
}

/// Relies on rusqlite::Connection::execute running DELETE ... WHERE
/// name = ?: it removes every row carrying the name, no other row, and
/// reports how many rows went; on failure it changes nothing.
#[verifier::external_body]
pub(crate) fn db_delete(p_conn: &mut rusqlite::Connection, p_name: &str) -> (r: Result<
    usize,
    String,
>)
    ensures
        r is Ok ==> table_of(*final(p_conn)) == table_of(*old(p_conn)).remove(p_name@),
        r matches Ok(n) ==> (table_of(*old(p_conn)).contains_key(p_name@) ==> n >= 1),
        r matches Ok(n) ==> (!table_of(*old(p_conn)).contains_key(p_name@) ==> n == 0),
        r is Err ==> table_of(*final(p_conn)) == table_of(*old(p_conn)),
{
    match p_conn.execute("DELETE FROM passwords WHERE name = ?;", [p_name]) {
        Ok(count) => Ok(count),
        Err(err) => Err(format!("{}", err)),
    }
}

/// `names` holds the keys of `table`: every listed name is stored, and
/// every stored name is listed. Order is left open, and so is repetition:
/// a database file that ever held two rows of one name lists that name
/// twice, so no more may be claimed of the statement.
pub open spec fn lists_table(names: Seq<String>, table: Map<Seq<char>, Seq<u8>>) -> bool {
    &&& forall|i: int| 0 <= i < names.len() ==> table.contains_key(#[trigger] names[i]@)
    &&& forall|k: Seq<char>|
        #[trigger] table.contains_key(k) ==> exists|i: int|
            0 <= i < names.len() && (#[trigger] names[i])@ == k
}

/// Relies on rusqlite's Connection::prepare and Statement::query_map on
/// SELECT name FROM passwords: one entry per row, so every stored name
/// comes out, and nothing that is not stored.
#[verifier::external_body]
pub(crate) fn db_list(p_conn: &rusqlite::Connection) -> (r: Result<Vec<String>, String>)
    ensures
        r matches Ok(names) ==> lists_table(names@, table_of(*p_conn)),
{
    let mut statement = match p_conn.prepare("SELECT name FROM passwords;") {
        Ok(statement) => statement,
        Err(err) => return Err(format!("{}", err)),
    };
    let rows = match statement.query_map((), |row| row.get::<usize, String>(0)) {
        Ok(rows) => rows,
        Err(err) => return Err(format!("{}", err)),
    };
    match rows.collect::<Result<Vec<String>, rusqlite::Error>>() {
        Ok(names) => Ok(names),
        Err(err) => Err(format!("{}", err)),
    }
}

/// Opens the vault database at the given path and makes sure the secret
/// table exists in it.
pub fn open_and_prepare_database(p_database_path: &str) -> (r: Result<rusqlite::Connection, Error>)
    ensures
        r matches Err(err) ==> err is DatabaseError,
{
    let mut conn = match open_db(p_database_path) {
        Ok(conn) => conn,
        Err(err) => return Err(Error::DatabaseError(err)),
    };
    match create_table(&mut conn) {
        Ok(()) => Ok(conn),
        Err(err) => Err(Error::DatabaseError(err)),
    }
}

/// Deleting a name from the stored table is idempotent, and deleting an
/// absent name removes nothing: the table is unchanged.
pub proof fn lemma_delete_idempotent(table: Map<Seq<char>, Seq<u8>>, name: Seq<char>)
    ensures
        table.remove(name).remove(name) == table.remove(name),
        !table.contains_key(name) ==> table.remove(name) == table,
{
    assert(table.remove(name).remove(name) =~= table.remove(name));
    if !table.contains_key(name) {
        assert(table.remove(name) =~= table);
    }
}

} // verus!
